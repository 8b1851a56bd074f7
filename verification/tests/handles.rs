use hoo_engine::hoo_object::{ObjectId, RcObject};
use std::collections::hash_map::DefaultHasher;
use std::collections::HashSet;
use std::hash::{Hash, Hasher};

#[test]
pub fn static_assert() {
    assert_eq!(
        std::mem::size_of::<ObjectId>(),
        std::mem::size_of::<usize>()
    );
    assert_eq!(
        std::mem::size_of::<ObjectId>(),
        std::mem::size_of::<std::ptr::NonNull<i32>>()
    );
}

#[test]
fn equality() {
    // also: hash.
    let v1_p1 = RcObject::new(1i32);
    let v1_p2 = v1_p1.clone();
    let v1_p3 = v1_p2.clone().into_any();
    let v1_p4 = v1_p3.clone().try_downcast::<i32>().unwrap();

    let v2_p1 = RcObject::new(1);

    assert_ne!(v1_p1, v2_p1);

    assert_eq!(v1_p1, v1_p2);
    assert_eq!(v1_p1, v1_p4);
    assert_eq!(v1_p2, v1_p4);

    assert_eq!(v1_p1.id(), v1_p2.id());
    assert_eq!(v1_p1.id(), v1_p3.id());
    assert_eq!(v1_p1.id(), v1_p4.id());
    assert_eq!(v1_p2.id(), v1_p3.id());
    assert_eq!(v1_p2.id(), v1_p4.id());
    assert_eq!(v1_p3.id(), v1_p4.id());
}

#[test]
fn downcast() {
    struct S;

    let s = RcObject::new(S);
    let t = s.clone().into_any();
    let back1 = t.clone().try_downcast::<S>();
    let back2 = t.try_downcast::<i32>();

    assert!(back1.is_ok());
    assert!(back2.is_err());
}

fn hash_of<T: Hash>(value: &T) -> u64 {
    let mut hasher = DefaultHasher::new();
    value.hash(&mut hasher);
    hasher.finish()
}

#[test]
fn identity_round_trips_through_its_raw_value() {
    let id = ObjectId::from_ptr(4096);
    assert_eq!(id.to_ptr(), 4096);
    assert_eq!(ObjectId::from_ptr(id.to_ptr()), id);
    assert_ne!(ObjectId::from_ptr(4096), ObjectId::from_ptr(4104));
    assert_eq!(format!("{:?}", id), "ObjectId { id: 4096 }");
}

#[test]
fn identity_is_never_null_and_differs_between_live_objects() {
    let a = RcObject::new(String::from("a"));
    let b = RcObject::new(String::from("a"));
    assert_ne!(a.id().to_ptr(), 0);
    assert_ne!(a.id(), b.id());
    assert_ne!(a.clone().into_any(), b.clone().into_any());
}

#[test]
fn clones_share_one_value() {
    let a = RcObject::new(5u64);
    let b = a.clone();
    *b.borrow_mut() += 1;
    assert_eq!(*a.borrow(), 6);
    let c = a.clone().into_any().try_downcast::<u64>().unwrap();
    *c.borrow_mut() = 40;
    assert_eq!(*a.borrow(), 40);
    assert_eq!(*b.borrow(), 40);
}

#[test]
fn reads_may_overlap_and_a_write_excludes_them() {
    let a = RcObject::new(1i32);
    let first = a.borrow();
    let second = a.borrow();
    assert_eq!(*first + *second, 2);
    assert!(a.try_borrow_mut().is_err());
    drop(first);
    drop(second);
    assert!(a.try_borrow_mut().is_ok());
}

#[test]
fn failed_downcast_hands_the_handle_back() {
    let origin = RcObject::new(String::from("text"));
    let erased = origin.clone().into_any();
    let back = match erased.try_downcast::<i32>() {
        Ok(_) => panic!("a String is no i32"),
        Err(back) => back,
    };
    assert_eq!(back.id(), origin.id());
    let back = match back.try_downcast::<Vec<u8>>() {
        Ok(_) => panic!("a String is no Vec<u8>"),
        Err(back) => back,
    };
    let typed = back.try_downcast::<String>().unwrap();
    assert_eq!(typed.id(), origin.id());
    assert_eq!(*typed.borrow(), "text");
}

#[test]
fn erased_clone_names_the_same_object() {
    let origin = RcObject::new(7u8);
    let erased = origin.clone().into_any();
    let copy = erased.clone();
    assert_eq!(erased, copy);
    assert_eq!(copy.id(), origin.id());
    assert!(copy.try_downcast::<u8>().is_ok());
}

#[test]
fn equal_handles_hash_alike() {
    let a = RcObject::new(1i32);
    let b = a.clone();
    let c = RcObject::new(1i32);
    assert_eq!(hash_of(&a), hash_of(&b));
    assert_eq!(hash_of(&a.clone().into_any()), hash_of(&b.clone().into_any()));
    assert_eq!(hash_of(&a), hash_of(&a.clone().into_any()));

    let mut seen = HashSet::new();
    assert!(seen.insert(a.clone()));
    assert!(!seen.insert(b));
    assert!(seen.insert(c));
    assert_eq!(seen.len(), 2);
}

#[test]
fn value_lives_as_long_as_any_handle() {
    let a = RcObject::new(vec![1, 2, 3]);
    let erased = a.clone().into_any();
    drop(a);
    let back = erased.try_downcast::<Vec<i32>>().unwrap();
    assert_eq!(*back.borrow(), vec![1, 2, 3]);
}
