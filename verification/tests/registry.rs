use hoo_engine::hoo_meta::objects::{
    get_registered_js_object, get_registered_rust_object, register_object,
    register_object_enabling_bigc, unregister_object, Registry,
};
use hoo_engine::hoo_object::{ObjectId, RcObject};
use std::cell::Cell;
use std::rc::Rc;

struct Counted {
    drops: Rc<Cell<u32>>,
}

impl Drop for Counted {
    fn drop(&mut self) {
        self.drops.set(self.drops.get() + 1);
    }
}

#[test]
fn new_registry_is_empty() {
    let registry: Registry<u32> = Registry::new();
    let h = RcObject::new(1i32);
    assert!(get_registered_rust_object(&registry, h.id()).is_none());
    assert!(get_registered_js_object(&registry, h.id()).is_none());
    assert!(get_registered_rust_object(&registry, ObjectId::from_ptr(0)).is_none());
}

#[test]
fn lookup_finds_what_was_registered() {
    let mut registry: Registry<&'static str> = Registry::new();
    let a = RcObject::new(1i32);
    let b = RcObject::new(2i32);
    register_object(&mut registry, a.clone().into_any(), "proxy of a");
    register_object(&mut registry, b.clone().into_any(), "proxy of b");

    let found = get_registered_rust_object(&registry, a.id()).unwrap();
    assert_eq!(found.id(), a.id());
    assert_eq!(*found.try_downcast::<i32>().unwrap().borrow(), 1);
    assert_eq!(get_registered_js_object(&registry, a.id()), Some(&"proxy of a"));
    assert_eq!(get_registered_js_object(&registry, b.id()), Some(&"proxy of b"));
}

#[test]
fn registering_again_replaces_the_entry() {
    let mut registry: Registry<u32> = Registry::new();
    let a = RcObject::new(1i32);
    register_object(&mut registry, a.clone().into_any(), 1);
    register_object(&mut registry, a.clone().into_any(), 2);
    assert_eq!(get_registered_js_object(&registry, a.id()), Some(&2));
    unregister_object(&mut registry, a.id());
    assert!(get_registered_js_object(&registry, a.id()).is_none());
}

#[test]
fn unregister_is_idempotent() {
    let mut registry: Registry<u32> = Registry::new();
    let a = RcObject::new(1i32);
    let b = RcObject::new(2i32);
    unregister_object(&mut registry, a.id());
    register_object(&mut registry, a.clone().into_any(), 1);
    register_object(&mut registry, b.clone().into_any(), 2);
    unregister_object(&mut registry, a.id());
    assert!(get_registered_rust_object(&registry, a.id()).is_none());
    unregister_object(&mut registry, a.id());
    assert!(get_registered_rust_object(&registry, a.id()).is_none());
    assert_eq!(get_registered_js_object(&registry, b.id()), Some(&2));
}

#[test]
fn registration_returns_the_raw_identity_for_the_slot() {
    let mut registry: Registry<u32> = Registry::new();
    let a = RcObject::new(1i32);
    let slot = register_object_enabling_bigc(&mut registry, a.clone().into_any(), 9);
    assert_eq!(slot, a.id().to_ptr());
    assert_eq!(ObjectId::from_ptr(slot), a.id());
    assert_eq!(get_registered_js_object(&registry, a.id()), Some(&9));
}

#[test]
fn registry_keeps_the_object_alive_until_unregistered() {
    let drops = Rc::new(Cell::new(0));
    let mut registry: Registry<u32> = Registry::new();
    let a = RcObject::new(Counted { drops: drops.clone() });
    let id = a.id();
    register_object_enabling_bigc(&mut registry, a.clone().into_any(), 1);
    drop(a);
    assert_eq!(drops.get(), 0);

    let looked_up = get_registered_rust_object(&registry, id).unwrap();
    drop(looked_up);
    assert_eq!(drops.get(), 0);

    unregister_object(&mut registry, id);
    assert_eq!(drops.get(), 1);
    unregister_object(&mut registry, id);
    assert_eq!(drops.get(), 1);
    assert!(get_registered_rust_object(&registry, id).is_none());
}

#[test]
fn lookup_hands_out_a_strong_handle() {
    let drops = Rc::new(Cell::new(0));
    let mut registry: Registry<u32> = Registry::new();
    let a = RcObject::new(Counted { drops: drops.clone() });
    let id = a.id();
    register_object(&mut registry, a.into_any(), 1);
    let held = get_registered_rust_object(&registry, id).unwrap();
    unregister_object(&mut registry, id);
    assert_eq!(drops.get(), 0);
    drop(held);
    assert_eq!(drops.get(), 1);
}
