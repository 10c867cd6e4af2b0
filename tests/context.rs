use geobacter_runtime_core::context::{Accelerator, AcceleratorTargetDesc, Context, ContextIds};
use geobacter_runtime_core::metadata::MetadataLoader;

fn target(arch: u32) -> AcceleratorTargetDesc {
    AcceleratorTargetDesc { arch, options: 0 }
}

#[test]
fn context_equality_is_identity() {
    let mut ids = ContextIds::new();
    let a = Context::new(&mut ids).unwrap();
    let b = Context::new(&mut ids).unwrap();
    assert!(a == a);
    assert!(a != b);
    let weak = a.downgrade_ref();
    assert!(weak.upgrade(&a) == Some(&a));
    assert!(weak.upgrade(&b).is_none());
    assert_eq!(weak, a.downgrade_ref());
}

#[test]
fn accel_ids_are_dense_and_increasing() {
    let mut ids = ContextIds::new();
    let mut ctx = Context::new(&mut ids).unwrap();
    assert!(ctx.can_take_accel_id());
    assert_eq!(ctx.take_accel_id().index(), 0);
    assert_eq!(ctx.take_accel_id().index(), 1);
    assert_eq!(ctx.take_accel_id().index(), 2);
}

#[test]
fn find_and_filter_accels() {
    let mut ids = ContextIds::new();
    let mut ctx = Context::new(&mut ids).unwrap();
    let mut registered = Vec::new();
    for arch in [900u32, 1030, 900] {
        let id = ctx.take_accel_id();
        let mut a = Accelerator::new(id, target(arch));
        ctx.initialize_accel(&mut a);
        registered.push(a);
    }
    let found = ctx.find_accel(|a| a.target.arch == 1030);
    assert_eq!(found, Some(registered[1]));
    assert_eq!(ctx.find_accel(|a| a.target.arch == 7), None);
    let all900 = ctx.filter_accels(|a| a.target.arch == 900);
    assert_eq!(all900, vec![registered[0], registered[2]]);
    assert!(ctx.filter_accels(|_| false).is_empty());
}

#[test]
fn metadata_loads_once_and_retries_failures() {
    let mut loader: MetadataLoader<u32> = MetadataLoader::new();
    let r = loader.load(|| Err::<u32, String>("no metadata".to_string()));
    assert_eq!(r, Err("no metadata".to_string()));
    let mut loads = 0u32;
    let v = *loader.load(|| {
        loads += 1;
        Ok::<u32, String>(41)
    }).unwrap();
    assert_eq!(v, 41);
    let v = *loader.load(|| {
        loads += 1;
        Ok::<u32, String>(99)
    }).unwrap();
    assert_eq!(v, 41);
    assert_eq!(loads, 1);
}
