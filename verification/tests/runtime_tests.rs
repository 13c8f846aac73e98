use std::any::Any;
use std::pin::Pin;

use wasm3_runtime::environment::Environment;
use wasm3_runtime::error::Error;
use wasm3_runtime::function::{Signature, ValueType};
use wasm3_runtime::handle::Handle;
use wasm3_runtime::module::{Export, Module, ParsedModule};
use wasm3_runtime::raw_slice::RawSlice;
use wasm3_runtime::runtime::Runtime;

fn environment(raw: usize) -> Environment {
    Environment::new(raw).expect("env alloc failure")
}

fn handle(raw: usize) -> Handle {
    Handle::new(raw).expect("null handle")
}

fn module(environment: &Environment, raw: usize, name: &[u8]) -> ParsedModule {
    ParsedModule::new(environment, handle(raw), name.to_vec(), Vec::new())
}

fn walk<C>(rt: &Runtime<C>) -> Vec<Module> {
    let mut walk = rt.modules();
    let mut seen = Vec::new();
    while let Some(module) = walk.next(rt) {
        seen.push(module);
    }
    seen
}

#[test]
fn create_and_drop_rt() {
    let env = environment(0x1000);
    assert!(Runtime::<()>::new(&env, 1024 * 64, 0x2000).is_ok());
}

#[test]
fn new_runtime_is_empty_and_keeps_what_it_was_given() {
    let env = environment(0x1000);
    let rt = Runtime::<u32>::new(&env, 1024 * 64, 0x2000).unwrap();
    assert_eq!(rt.as_ptr(), 0x2000);
    assert_eq!(rt.environment().as_ptr(), 0x1000);
    assert_eq!(rt.stack_size(), 65536);
    assert!(rt.closures().is_empty());
    assert!(walk(&rt).is_empty());
}

#[test]
fn new_runtime_without_context_is_an_allocation_failure() {
    let env = environment(0x1000);
    let r = Runtime::<()>::new(&env, 1024 * 64, 0);
    assert_eq!(r.err(), Some(Error::MemoryAllocation));
}

#[test]
fn new_runtime_with_no_stack_still_succeeds() {
    let env = environment(0x1000);
    assert!(Runtime::<()>::new(&env, 0, 0x2000).is_ok());
}

#[test]
fn environment_without_address_is_an_allocation_failure() {
    assert_eq!(Environment::new(0).err(), Some(Error::MemoryAllocation));
    assert_eq!(Error::malloc_error(), Error::MemoryAllocation);
}

#[test]
fn environments_compare_by_identity() {
    let a = environment(0x1000);
    let b = environment(0x1000);
    let c = environment(0x1008);
    assert!(a == b);
    assert!(a != c);
    assert_eq!(a.as_ptr(), 0x1000);
}

#[test]
fn handle_is_never_null() {
    assert!(Handle::new(0).is_none());
    assert_eq!(Handle::new(1).map(|h| h.addr()), Some(1));
    assert_eq!(Handle::new(usize::MAX).map(|h| h.addr()), Some(usize::MAX));
}

#[test]
fn load_module_appends_and_reports_position() {
    let env = environment(0x1000);
    let mut rt = Runtime::<()>::new(&env, 64, 0x2000).unwrap();
    let first = rt.load_module(module(&env, 0x3000, b"first\0"), 0).unwrap();
    assert_eq!(first, Module { raw: 0x3000, index: 0 });
    let second = rt.load_module(module(&env, 0x3100, b"second\0"), 0).unwrap();
    assert_eq!(second, Module { raw: 0x3100, index: 1 });
    assert_eq!(walk(&rt), vec![first, second]);
}

#[test]
fn load_module_of_other_environment_is_handed_back() {
    let env_a = environment(0x1000);
    let env_b = environment(0x1100);
    let mut rt_b = Runtime::<()>::new(&env_b, 64, 0x2000).unwrap();
    let parsed = module(&env_a, 0x3000, b"guest\0");
    assert!(!rt_b.accepts(&parsed));

    let failure = rt_b.load_module(parsed, 0).unwrap_err();
    assert_eq!(failure.error, Error::EnvironmentMismatch);
    assert!(walk(&rt_b).is_empty());

    // the module came back as it went in, and loads where it belongs
    let parsed = failure.module;
    assert_eq!(parsed.as_ptr(), 0x3000);
    assert_eq!(parsed.name(), &b"guest\0"[..]);
    assert!(*parsed.environment() == env_a);
    let mut rt_a = Runtime::<()>::new(&env_a, 64, 0x2100).unwrap();
    assert!(rt_a.accepts(&parsed));
    let loaded = rt_a.load_module(parsed, 0).unwrap();
    assert_eq!(loaded, Module { raw: 0x3000, index: 0 });
}

#[test]
fn load_module_mismatch_wins_over_engine_status() {
    let env_a = environment(0x1000);
    let env_b = environment(0x1100);
    let mut rt = Runtime::<()>::new(&env_b, 64, 0x2000).unwrap();
    let failure = rt.load_module(module(&env_a, 0x3000, b"guest\0"), 77).unwrap_err();
    assert_eq!(failure.error, Error::EnvironmentMismatch);
}

#[test]
fn load_module_refused_by_engine_is_handed_back() {
    let env = environment(0x1000);
    let mut rt = Runtime::<()>::new(&env, 64, 0x2000).unwrap();
    rt.load_module(module(&env, 0x3000, b"kept\0"), 0).unwrap();
    let failure = rt.load_module(module(&env, 0x3100, b"refused\0"), 0xbeef).unwrap_err();
    assert_eq!(failure.error, Error::ModuleLoadFailure(0xbeef));
    assert_eq!(failure.module.as_ptr(), 0x3100);
    assert_eq!(walk(&rt), vec![Module { raw: 0x3000, index: 0 }]);
}

#[test]
fn parse_and_load_module_passes_parse_errors_on() {
    let env = environment(0x1000);
    let mut rt = Runtime::<()>::new(&env, 64, 0x2000).unwrap();
    let r = rt.parse_and_load_module(Err(Error::ModuleLoadFailure(5)), 0);
    assert_eq!(r, Err(Error::ModuleLoadFailure(5)));
    assert!(walk(&rt).is_empty());
}

#[test]
fn parse_and_load_module_loads_what_was_parsed() {
    let env = environment(0x1000);
    let other = environment(0x1100);
    let mut rt = Runtime::<()>::new(&env, 64, 0x2000).unwrap();
    let r = rt.parse_and_load_module(Ok(module(&env, 0x3000, b"a\0")), 0);
    assert_eq!(r, Ok(Module { raw: 0x3000, index: 0 }));
    let r = rt.parse_and_load_module(Ok(module(&env, 0x3100, b"b\0")), 9);
    assert_eq!(r, Err(Error::ModuleLoadFailure(9)));
    let r = rt.parse_and_load_module(Ok(module(&other, 0x3200, b"c\0")), 0);
    assert_eq!(r, Err(Error::EnvironmentMismatch));
    assert_eq!(walk(&rt), vec![Module { raw: 0x3000, index: 0 }]);
}

#[test]
fn modules_come_in_load_order() {
    let env = environment(0x1000);
    let mut rt = Runtime::<()>::new(&env, 64, 0x2000).unwrap();
    rt.load_module(module(&env, 0x3300, b"m1\0"), 0).unwrap();
    rt.load_module(module(&env, 0x3100, b"m2\0"), 0).unwrap();
    rt.load_module(module(&env, 0x3200, b"m3\0"), 0).unwrap();
    assert_eq!(
        walk(&rt),
        vec![
            Module { raw: 0x3300, index: 0 },
            Module { raw: 0x3100, index: 1 },
            Module { raw: 0x3200, index: 2 },
        ]
    );
}

#[test]
fn modules_collect_gives_what_is_left_of_the_walk() {
    let env = environment(0x1000);
    let mut rt = Runtime::<()>::new(&env, 64, 0x2000).unwrap();
    assert!(rt.modules().collect(&rt).is_empty());
    rt.load_module(module(&env, 0x3300, b"m1\0"), 0).unwrap();
    rt.load_module(module(&env, 0x3100, b"m2\0"), 0).unwrap();
    rt.load_module(module(&env, 0x3200, b"m3\0"), 0).unwrap();
    assert_eq!(
        rt.modules().collect(&rt),
        vec![
            Module { raw: 0x3300, index: 0 },
            Module { raw: 0x3100, index: 1 },
            Module { raw: 0x3200, index: 2 },
        ]
    );
    let mut walk = rt.modules();
    walk.next(&rt);
    walk.next(&rt);
    assert_eq!(walk.collect(&rt), vec![Module { raw: 0x3200, index: 2 }]);
    let mut walk = rt.modules();
    while walk.next(&rt).is_some() {}
    assert!(walk.collect(&rt).is_empty());
}

#[test]
fn modules_walk_reaches_modules_loaded_meanwhile_and_ends_once() {
    let env = environment(0x1000);
    let mut rt = Runtime::<()>::new(&env, 64, 0x2000).unwrap();
    rt.load_module(module(&env, 0x3000, b"m1\0"), 0).unwrap();
    let mut walk = rt.modules();
    assert_eq!(walk.next(&rt), Some(Module { raw: 0x3000, index: 0 }));
    assert_eq!(walk.next(&rt), None);
    rt.load_module(module(&env, 0x3100, b"m2\0"), 0).unwrap();
    assert_eq!(walk.next(&rt), Some(Module { raw: 0x3100, index: 1 }));
    assert_eq!(walk.next(&rt), None);
    assert_eq!(walk.next(&rt), None);
}

#[test]
fn find_module_gives_first_of_colliding_names() {
    let env = environment(0x1000);
    let mut rt = Runtime::<()>::new(&env, 64, 0x2000).unwrap();
    rt.load_module(module(&env, 0x3000, b"m1\0"), 0).unwrap();
    rt.load_module(module(&env, 0x3100, b"twin\0"), 0).unwrap();
    rt.load_module(module(&env, 0x3200, b"twin\0"), 0).unwrap();
    assert_eq!(rt.find_module("m1"), Ok(Module { raw: 0x3000, index: 0 }));
    assert_eq!(rt.find_module("twin"), Ok(Module { raw: 0x3100, index: 1 }));
    assert_eq!(rt.find_module("m"), Err(Error::ModuleNotFound));
    assert_eq!(rt.find_module("twins"), Err(Error::ModuleNotFound));
    assert_eq!(rt.find_module(""), Err(Error::ModuleNotFound));
}

#[test]
fn find_module_in_empty_runtime_finds_nothing() {
    let env = environment(0x1000);
    let rt = Runtime::<()>::new(&env, 64, 0x2000).unwrap();
    assert_eq!(rt.find_module("env"), Err(Error::ModuleNotFound));
}

#[test]
fn find_module_reads_names_as_c_strings() {
    let env = environment(0x1000);
    let mut rt = Runtime::<()>::new(&env, 64, 0x2000).unwrap();
    rt.load_module(module(&env, 0x3000, b"env\0left over"), 0).unwrap();
    rt.load_module(module(&env, 0x3100, b"bare"), 0).unwrap();
    rt.load_module(module(&env, 0x3200, b""), 0).unwrap();
    assert_eq!(rt.find_module("env"), Ok(Module { raw: 0x3000, index: 0 }));
    assert_eq!(rt.find_module("bare"), Ok(Module { raw: 0x3100, index: 1 }));
    assert_eq!(rt.find_module(""), Ok(Module { raw: 0x3200, index: 2 }));
    assert_eq!(rt.find_module("env\0left over"), Err(Error::ModuleNotFound));
}

#[test]
fn memory_without_memory_is_empty() {
    let env = environment(0x1000);
    let rt = Runtime::<()>::new(&env, 64, 0x2000).unwrap();
    assert_eq!(rt.memory(0, 0), RawSlice { base: 1, len: 0 });
    assert_eq!(rt.memory(0, 65536), RawSlice { base: 1, len: 0 });
    assert_eq!(rt.memory(0x8000, 0), RawSlice { base: 1, len: 0 });
}

#[test]
fn memory_is_what_the_engine_reports() {
    let env = environment(0x1000);
    let rt = Runtime::<()>::new(&env, 64, 0x2000).unwrap();
    assert_eq!(rt.memory(0x8000, 65536), RawSlice { base: 0x8000, len: 65536 });
    assert_eq!(rt.memory(0x8000, 1), RawSlice { base: 0x8000, len: 1 });
    assert_eq!(rt.memory(0x8000, u32::MAX), RawSlice { base: 0x8000, len: u32::MAX as usize });
}

#[test]
fn stack_is_what_the_engine_reports() {
    let env = environment(0x1000);
    let mut rt = Runtime::<()>::new(&env, 64, 0x2000).unwrap();
    assert_eq!(rt.stack(handle(0x9000), 8192), RawSlice { base: 0x9000, len: 8192 });
    assert_eq!(rt.stack(handle(0x9000), 0), RawSlice { base: 0x9000, len: 0 });
    assert_eq!(rt.stack_mut(handle(0x9000), 8192), RawSlice { base: 0x9000, len: 8192 });
    assert_eq!(rt.as_ptr(), 0x2000);
}

#[test]
fn rt_error_reads_the_engine_status() {
    let env = environment(0x1000);
    let rt = Runtime::<()>::new(&env, 64, 0x2000).unwrap();
    assert_eq!(rt.rt_error(0), Ok(()));
    assert_eq!(rt.rt_error(0x77), Err(Error::RuntimeTrap(0x77)));
}

#[test]
fn closures_are_kept_in_order() {
    let env = environment(0x1000);
    let mut rt = Runtime::<u32>::new(&env, 64, 0x2000).unwrap();
    for n in 0..100u32 {
        rt.push_closure(n * 3);
    }
    assert_eq!(rt.closures().len(), 100);
    for n in 0..100u32 {
        assert_eq!(rt.closures()[n as usize], n * 3);
    }
}

#[test]
fn pinned_closures_stay_where_they_are() {
    let env = environment(0x1000);
    let mut rt = Runtime::<Pin<Box<dyn Any + 'static>>>::new(&env, 64, 0x2000).unwrap();
    let mut addresses = Vec::new();
    for n in 0..64u64 {
        let closure: Pin<Box<dyn Any + 'static>> = Box::pin(n);
        addresses.push(format!("{:p}", &*closure));
        rt.push_closure(closure);
        rt.load_module(module(&env, 0x3000 + n as usize, b"m\0"), 0).unwrap();
    }
    assert_eq!(rt.closures().len(), 64);
    for (n, closure) in rt.closures().iter().enumerate() {
        assert_eq!(format!("{:p}", &**closure), addresses[n]);
        assert_eq!(closure.downcast_ref::<u64>(), Some(&(n as u64)));
    }
}

#[test]
fn loading_and_registering_keep_the_context() {
    let env = environment(0x1000);
    let mut rt = Runtime::<u8>::new(&env, 64, 0x2000).unwrap();
    rt.push_closure(1);
    rt.load_module(module(&env, 0x3000, b"m\0"), 0).unwrap();
    let _ = rt.load_module(module(&env, 0x3100, b"n\0"), 3);
    rt.push_closure(2);
    assert_eq!(rt.as_ptr(), 0x2000);
    assert!(*rt.environment() == env);
    assert_eq!(rt.closures(), &[1u8, 2u8][..]);
}

#[test]
fn parsed_module_keeps_what_it_was_given() {
    let env = environment(0x1000);
    let exports = vec![Export {
        name: b"run\0".to_vec(),
        signature: Signature::new(&[ValueType::I32], None),
    }];
    let parsed = ParsedModule::new(&env, handle(0x3000), b"main\0".to_vec(), exports);
    assert_eq!(parsed.as_ptr(), 0x3000);
    assert_eq!(parsed.name(), &b"main\0"[..]);
    assert!(parsed.is_named("main"));
    assert!(!parsed.is_named("mai"));
    assert!(*parsed.environment() == env);
}
