use fizzy::{parse, validate, Engine};

#[test]
fn parse_wasm() {
    let mut engine = Engine::new();
    assert!(parse(&mut engine, &[0x00, 0x61, 0x73, 0x6d, 0x01, 0x00, 0x00, 0x00]).is_some());
    assert!(parse(&mut engine, &[0x00, 0x61, 0x73, 0x6d, 0x01, 0x00, 0x00, 0x01]).is_none());
}

#[test]
fn instantiate_wasm() {
    let mut engine = Engine::new();
    let module = parse(&mut engine, &[0x00, 0x61, 0x73, 0x6d, 0x01, 0x00, 0x00, 0x00]);
    assert!(module.is_some());
    let instance = module.unwrap().instantiate(&mut engine);
    assert!(instance.is_some());
}

#[test]
fn empty_module_end_to_end() {
    let mut engine = Engine::new();
    assert!(validate(&[0x00, 0x61, 0x73, 0x6d, 0x01, 0x00, 0x00, 0x00]));
    let module = parse(&mut engine, &[0x00, 0x61, 0x73, 0x6d, 0x01, 0x00, 0x00, 0x00]);
    assert!(module.is_some());
    let mut module = module.unwrap();
    assert!(module.live());
    let instance = module.instantiate(&mut engine);
    assert!(instance.is_some());
    assert!(!module.live());
}

#[test]
fn corrupted_version_rejected() {
    let mut engine = Engine::new();
    assert!(!validate(&[0x00, 0x61, 0x73, 0x6d, 0x01, 0x00, 0x00, 0x01]));
    assert!(parse(&mut engine, &[0x00, 0x61, 0x73, 0x6d, 0x01, 0x00, 0x00, 0x01]).is_none());
    // Nothing was acquired, so nothing is ever released.
    assert_eq!(engine.handles_issued(), 0);
    assert_eq!(engine.module_release_calls(), 0);
    assert_eq!(engine.instance_release_calls(), 0);
}

#[test]
fn single_byte_rejected() {
    let mut engine = Engine::new();
    assert!(!validate(&[0x00]));
    assert!(parse(&mut engine, &[0x00]).is_none());
    assert_eq!(engine.handles_issued(), 0);
    assert_eq!(engine.module_release_calls(), 0);
}

#[test]
fn second_instantiate_is_absent() {
    let mut engine = Engine::new();
    let mut module = parse(&mut engine, &[0x00, 0x61, 0x73, 0x6d, 0x01, 0x00, 0x00, 0x00]).unwrap();
    assert!(module.instantiate(&mut engine).is_some());
    let issued = engine.handles_issued();
    let module_frees = engine.module_release_calls();
    let instance_frees = engine.instance_release_calls();
    // The handle is empty now: a second instantiation yields absence and
    // makes no call into the raw interface.
    assert!(module.instantiate(&mut engine).is_none());
    assert_eq!(engine.handles_issued(), issued);
    assert_eq!(engine.module_release_calls(), module_frees);
    assert_eq!(engine.instance_release_calls(), instance_frees);
}

#[test]
fn unconsumed_module_released_once() {
    let mut engine = Engine::new();
    let module = parse(&mut engine, &[0x00, 0x61, 0x73, 0x6d, 0x01, 0x00, 0x00, 0x00]).unwrap();
    assert_eq!(engine.module_release_calls(), 0);
    module.release(&mut engine);
    assert_eq!(engine.module_release_calls(), 1);
}

#[test]
fn consumed_module_never_released() {
    let mut engine = Engine::new();
    let mut module = parse(&mut engine, &[0x00, 0x61, 0x73, 0x6d, 0x01, 0x00, 0x00, 0x00]).unwrap();
    let instance = module.instantiate(&mut engine);
    assert!(instance.is_some());
    // Ownership of the module resource went to the engine at the
    // instantiate call: releasing the now-empty handle is a no-op.
    module.release(&mut engine);
    assert_eq!(engine.module_release_calls(), 0);
}

#[test]
fn instance_released_once() {
    let mut engine = Engine::new();
    let mut module = parse(&mut engine, &[0x00, 0x61, 0x73, 0x6d, 0x01, 0x00, 0x00, 0x00]).unwrap();
    let instance = module.instantiate(&mut engine).unwrap();
    assert_eq!(engine.instance_release_calls(), 0);
    instance.release(&mut engine);
    assert_eq!(engine.instance_release_calls(), 1);
}

#[test]
fn instantiate_retires_module_either_way() {
    let mut engine = Engine::new();
    let mut module = parse(&mut engine, &[0x00, 0x61, 0x73, 0x6d, 0x01, 0x00, 0x00, 0x00]).unwrap();
    assert!(module.live());
    module.instantiate(&mut engine);
    // One-way: the handle never turns live again.
    assert!(!module.live());
    assert!(module.instantiate(&mut engine).is_none());
    assert!(!module.live());
}

#[test]
fn parse_issues_distinct_handles() {
    let mut engine = Engine::new();
    let first = parse(&mut engine, &[0x00, 0x61, 0x73, 0x6d, 0x01, 0x00, 0x00, 0x00]).unwrap();
    let second = parse(&mut engine, &[0x00, 0x61, 0x73, 0x6d, 0x01, 0x00, 0x00, 0x00]).unwrap();
    assert_eq!(engine.handles_issued(), 2);
    first.release(&mut engine);
    second.release(&mut engine);
    assert_eq!(engine.module_release_calls(), 2);
}

#[test]
fn engine_capacity_reported() {
    let engine = Engine::new();
    assert!(engine.has_capacity());
}
