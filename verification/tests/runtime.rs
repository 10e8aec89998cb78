use proxy_fs::local::LocalBackend;
use proxy_fs::runtime::{create_runtime, RuntimeIds};

#[test]
fn runtimes_get_consecutive_ids() {
    let mut ids = RuntimeIds::new();
    let a = create_runtime::<LocalBackend>(&mut ids, None);
    let b = create_runtime(&mut ids, Some(LocalBackend::new()));
    let c = create_runtime::<LocalBackend>(&mut ids, None);
    assert_eq!((a.id(), b.id(), c.id()), (1, 2, 3));
    assert!(!a.has_fs());
    assert!(b.has_fs());
}

#[test]
fn ids_allocate_in_order() {
    let mut ids = RuntimeIds::new();
    assert_eq!(ids.allocate(), 1);
    assert_eq!(ids.allocate(), 2);
}
