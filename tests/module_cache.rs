use geobacter_runtime_core::cell::ModuleContextData;
use geobacter_runtime_core::context::{
    Accelerator, AcceleratorId, AcceleratorTargetDesc, Context, ContextIds, DriverAttach,
};
use geobacter_runtime_core::module_data::{ModuleData, PlatformId, PlatformModule, PlatformModuleData};

#[derive(Debug, PartialEq)]
struct MyPlatformModuleData(u64);

impl PlatformModuleData for MyPlatformModuleData {
    fn spec_platform() -> PlatformId {
        PlatformId(7)
    }

    fn platform() -> PlatformId {
        PlatformId(7)
    }

    fn from_handle(handle: u64) -> Self {
        MyPlatformModuleData(handle)
    }
}

const GPU: PlatformId = PlatformId(7);

fn target() -> AcceleratorTargetDesc {
    AcceleratorTargetDesc { arch: 900, options: 1 }
}

fn module(handle: u64) -> PlatformModule {
    PlatformModule { platform: GPU, handle }
}

fn registered(ctx: &mut Context, t: AcceleratorTargetDesc) -> Accelerator {
    let id = ctx.take_accel_id();
    let mut a = Accelerator::new(id, t);
    ctx.initialize_accel(&mut a);
    a
}

#[test]
fn module_data_downcast() {
    let m = module(3);
    assert!(MyPlatformModuleData::downcast(&m).is_some());
    assert!(MyPlatformModuleData::downcast(&m) == Some(MyPlatformModuleData(3)));
}

#[test]
fn downcast_rejects_other_platform() {
    let m = PlatformModule { platform: PlatformId(8), handle: 3 };
    assert!(MyPlatformModuleData::downcast(&m).is_none());
}

#[test]
fn function_module_data_drop() {
    let mut ids = ContextIds::new();
    let ctx = Context::new(&mut ids).unwrap();
    let mut data = ModuleContextData::new();
    assert!(data.is_none());
    data.get_cache_data(&ctx);

    assert!(data.is_some());
    data.drop();
    assert!(data.is_none());
}

#[test]
fn compile_runs_codegen_once() {
    let mut ids = ContextIds::new();
    let mut ctx = Context::new(&mut ids).unwrap();
    let a1 = registered(&mut ctx, target());
    let mut md = ModuleData::new(&ctx);
    let mut runs = 0u32;
    let mut results = Vec::new();
    for k in 0..8u64 {
        let r = md.compile(&a1, GPU, || {
            runs += 1;
            Ok::<PlatformModule, String>(module(100 + k))
        }, true);
        results.push(r.unwrap());
    }
    assert_eq!(runs, 1);
    assert!(results.iter().all(|m| *m == module(100)));
}

#[test]
fn get_is_write_once() {
    let mut ids = ContextIds::new();
    let mut ctx = Context::new(&mut ids).unwrap();
    let a1 = registered(&mut ctx, target());
    let mut md = ModuleData::new(&ctx);
    assert_eq!(md.get(a1.id, GPU, true), None);
    md.compile(&a1, GPU, || Ok::<PlatformModule, String>(module(5)), true).unwrap();
    assert_eq!(md.get(a1.id, GPU, true), Some(module(5)));
    let again = md.compile(&a1, GPU, || Ok::<PlatformModule, String>(module(6)), true);
    assert_eq!(again, Ok(module(5)));
    assert_eq!(md.get(a1.id, GPU, true), Some(module(5)));
}

#[test]
fn compile_error_is_not_cached() {
    let mut ids = ContextIds::new();
    let mut ctx = Context::new(&mut ids).unwrap();
    let a1 = registered(&mut ctx, target());
    let mut md = ModuleData::new(&ctx);
    let r = md.compile(&a1, GPU, || Err::<PlatformModule, String>("codegen failed".to_string()), true);
    assert_eq!(r, Err("codegen failed".to_string()));
    assert_eq!(md.get(a1.id, GPU, true), None);
    let r = md.compile(&a1, GPU, || Ok::<PlatformModule, String>(module(9)), true);
    assert_eq!(r, Ok(module(9)));
}

#[test]
fn get_tolerates_other_platform() {
    let mut ids = ContextIds::new();
    let mut ctx = Context::new(&mut ids).unwrap();
    let a1 = registered(&mut ctx, target());
    let mut md = ModuleData::new(&ctx);
    md.compile(&a1, GPU, || Ok::<PlatformModule, String>(module(5)), true).unwrap();
    assert_eq!(md.get(a1.id, PlatformId(8), false), None);
    assert_eq!(md.get(AcceleratorId::new(40), GPU, false), None);
}

#[test]
fn resolve_returns_one_cache_per_context() {
    let mut ids = ContextIds::new();
    let mut c = Context::new(&mut ids).unwrap();
    let a1 = registered(&mut c, target());
    let mut kernel = ModuleContextData::new();

    assert!(kernel.get_cache_data(&c).owned_by(&c));
    assert!(kernel.get_cache_data(&c).owned_by(&c));
    assert!(kernel.upgrade(&c).is_some());

    let mut runs = 0u32;
    let mut results = Vec::new();
    for k in 0..8u64 {
        let r = kernel.compile(&c, &a1, GPU, || {
            runs += 1;
            Ok::<PlatformModule, String>(module(200 + k))
        }, true);
        results.push(r.unwrap());
    }
    assert_eq!(runs, 1);
    assert!(results.iter().all(|m| *m == module(200)));
    assert_eq!(kernel.get_cache_data(&c).get(a1.id, GPU, true), Some(module(200)));

    drop(c);
    let mut c2 = Context::new(&mut ids).unwrap();
    let a2 = registered(&mut c2, target());
    let data = kernel.get_cache_data(&c2);
    assert!(data.owned_by(&c2));
    assert_eq!(data.get(a2.id, GPU, true), None);
    assert_eq!(data.get(a1.id, GPU, true), None);
}

#[test]
fn stale_cache_is_replaced() {
    let mut ids = ContextIds::new();
    let a = Context::new(&mut ids).unwrap();
    let b = Context::new(&mut ids).unwrap();
    let acc = Accelerator { id: AcceleratorId::new(0), target: target(), driver: None };
    let mut kernel = ModuleContextData::new();
    kernel.compile(&a, &acc, GPU, || Ok::<PlatformModule, String>(module(1)), true).unwrap();
    assert!(kernel.upgrade(&a).is_some());
    assert!(kernel.upgrade(&b).is_none());

    let fresh = kernel.get_cache_data(&b);
    assert!(fresh.owned_by(&b));
    assert!(!fresh.owned_by(&a));
    assert_eq!(fresh.get(acc.id, GPU, true), None);
    assert!(kernel.upgrade(&a).is_none());
    assert!(kernel.upgrade(&b).is_some());
}

#[test]
fn drivers_shared_by_equal_targets() {
    let mut ids = ContextIds::new();
    let mut ctx = Context::new(&mut ids).unwrap();
    let id1 = ctx.take_accel_id();
    let mut a1 = Accelerator::new(id1, target());
    let r1 = ctx.initialize_accel(&mut a1);
    let id2 = ctx.take_accel_id();
    let mut a2 = Accelerator::new(id2, target());
    let r2 = ctx.initialize_accel(&mut a2);
    assert!(matches!(r1, DriverAttach::Created(_)));
    assert_eq!(r2, DriverAttach::Shared(r1.driver()));
    assert_eq!(a1.driver, a2.driver);

    let id3 = ctx.take_accel_id();
    let mut a3 = Accelerator::new(id3, AcceleratorTargetDesc { arch: 1030, options: 1 });
    let r3 = ctx.initialize_accel(&mut a3);
    assert!(matches!(r3, DriverAttach::Created(_)));
    assert_ne!(r3.driver(), r1.driver());
}

#[test]
fn reclaimed_driver_is_rebuilt() {
    let mut ids = ContextIds::new();
    let mut ctx = Context::new(&mut ids).unwrap();
    let id1 = ctx.take_accel_id();
    let mut a1 = Accelerator::new(id1, target());
    let r1 = ctx.initialize_accel(&mut a1);
    assert_eq!(ctx.remove_accel(id1), Some(a1));
    let id2 = ctx.take_accel_id();
    let mut a2 = Accelerator::new(id2, target());
    let r2 = ctx.initialize_accel(&mut a2);
    assert!(matches!(r2, DriverAttach::Created(_)));
    assert_ne!(r2.driver(), r1.driver());
    assert_eq!(ctx.remove_accel(AcceleratorId::new(99)), None);
}
