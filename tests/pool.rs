use bytecode::node::{ByteCode, Error};
use bytecode::pool::{handle, Handle, POOL_SIZE};

#[test]
fn inserted_nodes_read_back_unchanged() {
    let mut h = Handle::create(16);
    let a = h.insert(ByteCode::Number(5)).unwrap();
    let b = h.insert(ByteCode::Bool(true)).unwrap();
    let c = h.insert(ByteCode::Call(a, b)).unwrap();
    let d = h.insert(ByteCode::Verb(3, c, a)).unwrap();
    assert_eq!(*h.get(a), ByteCode::Number(5));
    assert_eq!(*h.get(b), ByteCode::Bool(true));
    assert_eq!(*h.get(c), ByteCode::Call(a, b));
    assert_eq!(*h.get(d), ByteCode::Verb(3, c, a));
    assert_eq!(*a.bc(&h), ByteCode::Number(5));
    assert_eq!(h.len(), 4);
}

#[test]
fn insert_into_full_store_fails_and_changes_nothing() {
    let mut h = Handle::create(2);
    let a = h.insert(ByteCode::Symbol(1)).unwrap();
    let b = h.insert(ByteCode::Symbol(2)).unwrap();
    assert_eq!(h.insert(ByteCode::Call(a, b)), Err(Error::NoSpace));
    assert_eq!(h.len(), 2);
    assert_eq!(*h.get(a), ByteCode::Symbol(1));
    assert_eq!(*h.get(b), ByteCode::Symbol(2));
    assert_eq!(h.insert(ByteCode::Nil), Err(Error::NoSpace));
}

#[test]
fn empty_capacity_store_refuses_every_insert() {
    let mut h = Handle::create(0);
    assert_eq!(h.insert(ByteCode::Nil), Err(Error::NoSpace));
    assert_eq!(h.len(), 0);
}

#[test]
fn largest_store_holds_pool_size_nodes() {
    let mut h = handle();
    let mut last = h.insert(ByteCode::Number(0)).unwrap();
    let mut n: usize = 1;
    while n < POOL_SIZE {
        last = h.insert(ByteCode::List(last)).unwrap();
        n += 1;
    }
    assert_eq!(h.len(), 65535);
    assert_eq!(h.insert(ByteCode::Nil), Err(Error::NoSpace));
    assert!(h.is_live(last));
}

#[test]
fn bin_new_and_commit_insert_like_insert() {
    let mut h = handle();
    let a = bytecode::node::Bin::new(&mut h, ByteCode::Hexlit(9)).unwrap();
    let b = ByteCode::Ioverb(a).bin(&mut h).unwrap();
    assert_eq!(*h.get(a), ByteCode::Hexlit(9));
    assert_eq!(*h.get(b), ByteCode::Ioverb(a));
    assert_eq!(h.len(), 2);
}

#[test]
fn reset_retires_earlier_references() {
    let mut h = Handle::create(4);
    let old = h.insert(ByteCode::Number(1)).unwrap();
    assert!(h.is_live(old));
    assert!(h.can_reset());
    h.reset();
    assert_eq!(h.len(), 0);
    assert!(!h.is_live(old));
    let fresh = h.insert(ByteCode::Number(2)).unwrap();
    assert!(!h.is_live(old));
    assert!(h.is_live(fresh));
    assert_ne!(old, fresh);
    assert_eq!(*h.get(fresh), ByteCode::Number(2));
}

#[test]
fn nodes_may_link_only_to_live_references() {
    let mut h = Handle::create(4);
    let a = h.insert(ByteCode::Number(1)).unwrap();
    assert!(h.accepts(&ByteCode::Cons(a, a)));
    h.reset();
    assert!(!h.accepts(&ByteCode::Cons(a, a)));
    assert!(h.accepts(&ByteCode::Number(3)));
    let b = h.insert(ByteCode::Nil).unwrap();
    assert!(h.accepts(&ByteCode::Cond(b, b, b)));
    assert!(!h.accepts(&ByteCode::Cond(b, a, b)));
}

#[test]
fn reference_from_another_store_is_not_live() {
    let mut a = handle();
    let mut b = handle();
    let x = a.insert(ByteCode::Number(1)).unwrap();
    let z = b.insert(ByteCode::Number(2)).unwrap();
    assert!(a.is_live(x));
    assert!(!a.is_live(z));
    assert!(!b.is_live(x));
    assert!(!a.accepts(&ByteCode::List(z)));
    assert!(a.accepts(&ByteCode::List(x)));
}

#[test]
fn stores_reset_equally_often_keep_their_references_apart() {
    let mut a = Handle::create(4);
    let mut b = Handle::create(4);
    a.reset();
    b.reset();
    let x = a.insert(ByteCode::Number(1)).unwrap();
    let z = b.insert(ByteCode::Number(2)).unwrap();
    assert!(!a.is_live(z));
    assert!(!b.is_live(x));
}
