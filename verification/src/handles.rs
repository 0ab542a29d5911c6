use vstd::prelude::*;
use crate::engine::Engine;
use crate::validation;

verus! {

/// An owning wrapper around a parsed module.
///
/// A `Module` is live while it owns its resource and empty once the
/// resource has been released or consumed by instantiation. The only way
/// to obtain a live one is a successful `parse`, and the only ways from
/// live to empty are `release` and `instantiate`; nothing ever turns an
/// empty handle live again.
pub struct Module {
    /// The raw handle, or 0 once the resource is gone.
    handle: u64,
}

/// An owning wrapper around an instantiated module.
///
/// An `Instance` always owns a genuinely live resource: the only
/// constructor is a successful `Module::instantiate`. Its one duty is to
/// be released exactly once, which `release` does by consuming it.
pub struct Instance {
    /// The raw handle; never 0.
    handle: u64,
}

/// Parse a binary into an owned module.
///
/// The engine accepts exactly the binaries that pass the validation
/// gate, so `parse` returns a handle if and only if `validate` would
/// return true on the same bytes. On rejection nothing is acquired and
/// the engine is left exactly as it was, so no release is ever owed for
/// a failed parse.
pub fn parse(engine: &mut Engine, bytes: &[u8]) -> (r: Option<Module>)
    requires
        old(engine).wf(),
        old(engine).can_issue(),
    ensures
        final(engine).wf(),
        r is Some <==> validation::valid_preamble(bytes@),
        r is None ==> *final(engine) == *old(engine),
        r matches Some(m) ==> m.is_live(),
        r matches Some(m) ==> m.owned_by(*final(engine)),
        r matches Some(m) ==> !old(engine).live_modules().contains(m.id()),
        r matches Some(m) ==> final(engine).live_modules()
            == old(engine).live_modules().insert(m.id()),
        final(engine).live_instances() == old(engine).live_instances(),
        final(engine).module_release_count() == old(engine).module_release_count(),
        final(engine).instance_release_count() == old(engine).instance_release_count(),
        r is Some ==> final(engine).issued() == old(engine).issued() + 1,
{
    let h: u64 = engine.raw_parse(bytes);
    if h == 0 {
        None
    } else {
        Some(Module { handle: h })
    }
}

impl Module {
    /// Whether this handle still owns its module resource.
    pub closed spec fn is_live(self) -> bool {
        self.handle != 0
    }

    /// The raw handle value this wrapper owns; 0 once the resource is gone.
    pub closed spec fn id(self) -> u64 {
        self.handle
    }

    /// A live handle owns a resource the engine still considers live; an
    /// empty handle owns nothing and claims nothing.
    pub open spec fn owned_by(self, e: Engine) -> bool {
        self.is_live() ==> e.live_modules().contains(self.id())
    }

    /// Whether this handle still owns its module resource.
    pub fn live(&self) -> (r: bool)
        ensures
            r == self.is_live(),
    {
        self.handle != 0
    }

    /// Instantiate the module, consuming its resource.
    ///
    /// On a live handle the engine takes the module resource whatever the
    /// outcome, so the handle is empty from this call on and no
    /// module-release call is ever made for a consumed module; the result
    /// is a live instance. On an already-empty handle this is a no-op
    /// absence: it returns nothing and does not touch the engine.
    pub fn instantiate(&mut self, engine: &mut Engine) -> (r: Option<Instance>)
        requires
            old(engine).wf(),
            old(self).owned_by(*old(engine)),
            old(self).is_live() ==> old(engine).can_issue(),
        ensures
            final(engine).wf(),
            !final(self).is_live(),
            r is Some <==> old(self).is_live(),
            !old(self).is_live() ==> *final(engine) == *old(engine),
            r matches Some(i) ==> i.owned_by(*final(engine)),
            r matches Some(i) ==> !old(engine).live_instances().contains(i.id()),
            r matches Some(i) ==> final(engine).live_instances()
                == old(engine).live_instances().insert(i.id()),
            old(self).is_live() ==> final(engine).live_modules()
                == old(engine).live_modules().remove(old(self).id()),
            old(self).is_live() ==> final(engine).issued() == old(engine).issued() + 1,
            final(engine).module_release_count() == old(engine).module_release_count(),
            final(engine).instance_release_count() == old(engine).instance_release_count(),
    {
        if self.handle == 0 {
            return None;
        }
        let h: u64 = self.handle;
        self.handle = 0;
        let r: u64 = engine.raw_instantiate(h);
        Some(Instance { handle: r })
    }

    /// Release the module resource, if this handle still owns one.
    ///
    /// Consuming the handle makes a second release unwritable; the
    /// contract makes it unprovable besides, since a released module is
    /// no longer live in the engine. Releasing an empty handle is a
    /// no-op: the one release call for its resource already happened, or
    /// the resource was consumed by instantiation.
    pub fn release(self, engine: &mut Engine)
        requires
            old(engine).wf(),
            self.owned_by(*old(engine)),
        ensures
            final(engine).wf(),
            !self.is_live() ==> *final(engine) == *old(engine),
            self.is_live() ==> final(engine).live_modules()
                == old(engine).live_modules().remove(self.id()),
            final(engine).live_instances() == old(engine).live_instances(),
            self.is_live() ==> final(engine).module_release_count()
                == old(engine).module_release_count() + 1,
            !self.is_live() ==> final(engine).module_release_count()
                == old(engine).module_release_count(),
            final(engine).instance_release_count() == old(engine).instance_release_count(),
            final(engine).issued() == old(engine).issued(),
    {
        if self.handle != 0 {
            engine.raw_free_module(self.handle);
        }
    }
}

impl Instance {
    /// The raw handle value this wrapper owns.
    pub closed spec fn id(self) -> u64 {
        self.handle
    }

    /// The instance resource is one the engine still considers live.
    pub open spec fn owned_by(self, e: Engine) -> bool {
        e.live_instances().contains(self.id())
    }

    /// Release the instance resource.
    ///
    /// Unconditional: an `Instance` always owns a live resource, so the
    /// release is never skipped and never guarded. Consuming the handle
    /// makes a second release unwritable.
    pub fn release(self, engine: &mut Engine)
        requires
            old(engine).wf(),
            self.owned_by(*old(engine)),
        ensures
            final(engine).wf(),
            final(engine).live_modules() == old(engine).live_modules(),
            final(engine).live_instances() == old(engine).live_instances().remove(self.id()),
            final(engine).module_release_count() == old(engine).module_release_count(),
            final(engine).instance_release_count() == old(engine).instance_release_count() + 1,
            final(engine).issued() == old(engine).issued(),
    {
        engine.raw_free_instance(self.handle);
    }
}

} // verus!
