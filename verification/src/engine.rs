use vstd::prelude::*;
use crate::validation;

verus! {

broadcast use vstd::set::group_set_axioms;

/// A model of the engine's raw, C-style handle interface.
///
/// The raw interface hands out opaque handles for parsed modules and
/// instantiated instances and trusts its caller completely: releasing a
/// handle twice, releasing one that was consumed by instantiation, or
/// instantiating a handle that is no longer live corrupts the engine.
/// Those obligations appear here as `requires` clauses on the raw
/// operations, so a caller has to prove it never misuses a handle; the
/// wrappers in `handles` are the intended such caller.
///
/// The engine keeps the set of live handles of each kind and counts the
/// release calls it has served, so that the exactly-once release
/// discipline is both provable and observable at run time. Handle values
/// start at 1; the value 0 stands for "no resource", as a null pointer
/// would in the interface this models.
pub struct Engine {
    /// The next handle value to hand out.
    next_handle: u64,
    /// How many module-release calls the engine has served.
    module_releases: u64,
    /// How many instance-release calls the engine has served.
    instance_releases: u64,
    /// The module handles that are currently live.
    modules: Ghost<Set<u64>>,
    /// The instance handles that are currently live.
    instances: Ghost<Set<u64>>,
}

impl Engine {
    /// The module handles the engine currently considers live.
    pub closed spec fn live_modules(self) -> Set<u64> {
        self.modules@
    }

    /// The instance handles the engine currently considers live.
    pub closed spec fn live_instances(self) -> Set<u64> {
        self.instances@
    }

    /// How many module-release calls the engine has served.
    pub closed spec fn module_release_count(self) -> u64 {
        self.module_releases
    }

    /// How many instance-release calls the engine has served.
    pub closed spec fn instance_release_count(self) -> u64 {
        self.instance_releases
    }

    /// How many handles of either kind the engine has issued so far.
    pub closed spec fn issued(self) -> int {
        self.next_handle - 1
    }

    /// The engine has a handle value left to issue.
    pub open spec fn can_issue(self) -> bool {
        self.issued() < u64::MAX - 1
    }

    /// The engine's internal consistency: live handles are ones it issued
    /// and 0 never stands for a resource; every release call and every
    /// live handle is accounted to a distinct issued handle, which bounds
    /// the release counters.
    pub closed spec fn wf(self) -> bool {
        &&& 1 <= self.next_handle
        &&& self.modules@.finite()
        &&& self.instances@.finite()
        &&& (forall|h: u64| self.modules@.contains(h) ==> 1 <= h < self.next_handle)
        &&& (forall|h: u64| self.instances@.contains(h) ==> 1 <= h < self.next_handle)
        &&& self.module_releases + self.instance_releases + self.modules@.len()
            + self.instances@.len() <= self.next_handle - 1
    }

    /// A fresh engine: nothing issued, nothing live, nothing released.
    pub fn new() -> (e: Engine)
        ensures
            e.wf(),
            e.live_modules() == Set::<u64>::empty(),
            e.live_instances() == Set::<u64>::empty(),
            e.module_release_count() == 0,
            e.instance_release_count() == 0,
            e.issued() == 0,
    {
        Engine {
            next_handle: 1,
            module_releases: 0,
            instance_releases: 0,
            modules: Ghost(Set::empty()),
            instances: Ghost(Set::empty()),
        }
    }

    /// Raw parse: accepts exactly the binaries that pass the validation
    /// gate. On acceptance it issues a fresh live module handle; on
    /// rejection it returns 0 and acquires nothing.
    pub fn raw_parse(&mut self, bytes: &[u8]) -> (h: u64)
        requires
            old(self).wf(),
            old(self).can_issue(),
        ensures
            final(self).wf(),
            !validation::valid_preamble(bytes@) ==> h == 0 && *final(self) == *old(self),
            validation::valid_preamble(bytes@) ==> h != 0,
            validation::valid_preamble(bytes@) ==> !old(self).live_modules().contains(h),
            validation::valid_preamble(bytes@) ==> final(self).live_modules()
                == old(self).live_modules().insert(h),
            validation::valid_preamble(bytes@) ==> final(self).live_instances()
                == old(self).live_instances(),
            validation::valid_preamble(bytes@) ==> final(self).issued() == old(self).issued() + 1,
            final(self).module_release_count() == old(self).module_release_count(),
            final(self).instance_release_count() == old(self).instance_release_count(),
    {
        if !validation::validate(bytes) {
            return 0;
        }
        let h: u64 = self.next_handle;
        self.next_handle = self.next_handle + 1;
        self.modules = Ghost(self.modules@.insert(h));
        h
    }

    /// Raw module release. The caller must prove the handle is live: a
    /// second release of the same handle, or a release after the handle
    /// was consumed by instantiation, cannot be verified.
    pub fn raw_free_module(&mut self, h: u64)
        requires
            old(self).wf(),
            old(self).live_modules().contains(h),
        ensures
            final(self).wf(),
            final(self).live_modules() == old(self).live_modules().remove(h),
            final(self).live_instances() == old(self).live_instances(),
            final(self).module_release_count() == old(self).module_release_count() + 1,
            final(self).instance_release_count() == old(self).instance_release_count(),
            final(self).issued() == old(self).issued(),
    {
        proof {
            vstd::set::axiom_set_contains_len(self.modules@, h);
        }
        self.module_releases = self.module_releases + 1;
        self.modules = Ghost(self.modules@.remove(h));
    }

    /// Raw instantiation. It always consumes the module handle: the
    /// engine either builds the instance out of the module or frees the
    /// module internally, so the caller must not release it afterwards.
    /// The model's instantiation of a live module always succeeds and
    /// returns a fresh live instance handle.
    pub fn raw_instantiate(&mut self, h: u64) -> (r: u64)
        requires
            old(self).wf(),
            old(self).live_modules().contains(h),
            old(self).can_issue(),
        ensures
            final(self).wf(),
            r != 0,
            !old(self).live_instances().contains(r),
            final(self).live_modules() == old(self).live_modules().remove(h),
            final(self).live_instances() == old(self).live_instances().insert(r),
            final(self).module_release_count() == old(self).module_release_count(),
            final(self).instance_release_count() == old(self).instance_release_count(),
            final(self).issued() == old(self).issued() + 1,
    {
        self.modules = Ghost(self.modules@.remove(h));
        let r: u64 = self.next_handle;
        self.next_handle = self.next_handle + 1;
        self.instances = Ghost(self.instances@.insert(r));
        r
    }

    /// Raw instance release. As with modules, the caller must prove the
    /// handle is live, which rules out a second release.
    pub fn raw_free_instance(&mut self, h: u64)
        requires
            old(self).wf(),
            old(self).live_instances().contains(h),
        ensures
            final(self).wf(),
            final(self).live_modules() == old(self).live_modules(),
            final(self).live_instances() == old(self).live_instances().remove(h),
            final(self).module_release_count() == old(self).module_release_count(),
            final(self).instance_release_count() == old(self).instance_release_count() + 1,
            final(self).issued() == old(self).issued(),
    {
        proof {
            vstd::set::axiom_set_contains_len(self.instances@, h);
        }
        self.instance_releases = self.instance_releases + 1;
        self.instances = Ghost(self.instances@.remove(h));
    }

    /// How many module-release calls the engine has served so far.
    pub fn module_release_calls(&self) -> (n: u64)
        ensures
            n == self.module_release_count(),
    {
        self.module_releases
    }

    /// How many instance-release calls the engine has served so far.
    pub fn instance_release_calls(&self) -> (n: u64)
        ensures
            n == self.instance_release_count(),
    {
        self.instance_releases
    }

    /// How many handles of either kind the engine has issued so far.
    pub fn handles_issued(&self) -> (n: u64)
        requires
            self.wf(),
        ensures
            n == self.issued(),
    {
        self.next_handle - 1
    }

    /// Whether the engine has a handle value left to issue.
    pub fn has_capacity(&self) -> (r: bool)
        ensures
            r == self.can_issue(),
    {
        self.next_handle < u64::MAX
    }
}

} // verus!
