use std::sync::Arc;

use yajnir::env::JniEnv;
use yajnir::jref::{AutoRef, GlobalRef, LocalRef, RawObject, ReleaseCounter, RichJavaType};
use yajnir::jvm::JavaVM;

struct PointIds {
    class_handle: usize,
}

struct Point;

impl RichJavaType for Point {
    type IDs = PointIds;

    fn descriptors<'t>(_env: JniEnv<'t>) -> Arc<PointIds> {
        Arc::new(PointIds { class_handle: 0x77 })
    }
}

#[test]
fn raw_object_keeps_its_address() {
    let obj = RawObject::from_addr(0x5140);
    assert_eq!(obj.addr(), 0x5140);
}

#[test]
fn environment_knows_its_runtime_instance() {
    let vm = JavaVM::from_addr(0x9000);
    let env = JniEnv::from_raw(0x9100, vm);
    assert_eq!(env.addr(), 0x9100);
    assert_eq!(env.vm().addr(), 0x9000);
}

#[test]
fn upgrade_downgrade_round_trips() {
    let vm = JavaVM::from_addr(0x9000);
    let env = JniEnv::from_raw(0x9100, vm);
    let desc = Arc::new(PointIds { class_handle: 0x42 });
    let r: GlobalRef<Point> = GlobalRef::new(vm, RawObject::from_addr(0x6000), Arc::clone(&desc));

    let bound = r.upgrade(&env);
    let back = bound.downgrade();

    assert_eq!(back.raw_addr(), r.raw_addr());
    assert_eq!(back.raw_addr(), 0x6000);
    assert_eq!(back.jvm().addr(), vm.addr());
    // The descriptor comes back as the same shared instance, not a copy.
    assert!(Arc::ptr_eq(&back.descriptor(), &desc));
}

#[test]
fn cloned_owners_share_the_handle() {
    let vm = JavaVM::from_addr(0x9000);
    let desc = Arc::new(PointIds { class_handle: 0x42 });
    let r: GlobalRef<Point> = GlobalRef::new(vm, RawObject::from_addr(0x6000), desc);
    let r2 = r.clone_ref();
    assert_eq!(r2.raw_addr(), r.raw_addr());
    assert!(Arc::ptr_eq(&r2.descriptor(), &r.descriptor()));
}

#[test]
fn local_reference_binds_on_its_own_thread() {
    let vm = JavaVM::from_addr(0x9000);
    let env = JniEnv::from_raw(0x9100, vm);
    let lr: LocalRef<Point> = LocalRef::from_raw(RawObject::from_addr(0x7000), &env);
    let bound = lr.upgrade(&env);
    assert_eq!(bound.raw_addr(), 0x7000);
    assert_eq!(bound.descriptor().class_handle, 0x77);
    let back = bound.downgrade();
    assert_eq!(back.raw_addr(), 0x7000);
}

#[test]
fn auto_reference_binds_on_its_own_thread() {
    let vm = JavaVM::from_addr(0x9000);
    let env = JniEnv::from_raw(0x9100, vm);
    let ar: AutoRef<Point> = AutoRef::from_raw(RawObject::from_addr(0x7500), &env);
    let bound = ar.upgrade(&env);
    assert_eq!(bound.raw_addr(), 0x7500);
    let back = bound.downgrade();
    assert_eq!(back.raw_addr(), 0x7500);
}

#[test]
fn delete_fires_exactly_once_after_the_last_drop() {
    // Five owners of one shared reference: four clones beside the original.
    let mut rc = ReleaseCounter::new();
    for _ in 0..4 {
        rc.clone_owner();
    }
    // Dropping all five fires the foreign delete exactly at the last drop,
    // whatever order the owners go in.
    let mut fired: usize = 0;
    for k in 0..5 {
        let fires = rc.drop_owner();
        if fires {
            fired += 1;
        }
        assert_eq!(fires, k == 4);
    }
    assert_eq!(fired, 1);
}
