use remoc::port_allocator::{PortAllocator, PortNumber, PortReq};
use tokio::sync::oneshot;

#[test]
fn limit_one_second_allocation_waits_until_release() {
    let mut a = PortAllocator::new(1);
    let p1 = a.try_allocate().expect("first allocation");
    assert!(a.try_allocate().is_none());
    let (tx, mut rx) = oneshot::channel::<()>();
    assert!(a.allocate_or_wait(tx).is_none());
    assert_eq!(a.waiter_count(), 1);
    let woken = a.release(p1);
    assert_eq!(woken.len(), 1);
    for w in woken {
        let _ = w.send(());
    }
    assert!(rx.try_recv().is_ok());
    assert!(a.try_allocate().is_some());
}

#[test]
fn waiter_gets_number_other_than_live_port() {
    let mut a = PortAllocator::new(2);
    let p1 = a.try_allocate().unwrap();
    let p2 = a.try_allocate().unwrap();
    assert_ne!(p1.number(), p2.number());
    let (tx, _rx) = oneshot::channel::<()>();
    assert!(a.allocate_or_wait(tx).is_none());
    let woken = a.release(p1);
    assert_eq!(woken.len(), 1);
    assert_eq!(a.waiter_count(), 0);
    let (tx2, _rx2) = oneshot::channel::<()>();
    let p3 = a.allocate_or_wait(tx2).expect("a slot was freed");
    assert_ne!(p3.number(), p2.number());
    assert_eq!(a.used_count(), 2);
}

#[test]
fn used_never_exceeds_limit() {
    let mut a = PortAllocator::new(3);
    let mut held: Vec<PortNumber> = Vec::new();
    for _ in 0..10 {
        if let Some(p) = a.try_allocate() {
            held.push(p);
        }
        assert!(a.used_count() <= 3);
    }
    assert_eq!(held.len(), 3);
    assert!(!a.is_available());
    let p = held.pop().unwrap();
    let n = p.number();
    a.release(p);
    assert!(!a.is_used(n));
    assert!(a.is_available());
    assert_eq!(a.used_count(), 2);
}

#[test]
fn releasing_distinct_ports_frees_distinct_slots() {
    let mut a = PortAllocator::new(4);
    let p = a.try_allocate().unwrap();
    let q = a.try_allocate().unwrap();
    let (pn, qn) = (p.number(), q.number());
    a.release(p);
    assert!(!a.is_used(pn));
    assert!(a.is_used(qn));
    a.release(q);
    assert_eq!(a.used_count(), 0);
}

#[test]
fn zero_limit_never_allocates() {
    let mut a = PortAllocator::new(0);
    assert!(a.try_allocate().is_none());
    assert_eq!(a.get_limit(), 0);
}

#[test]
fn port_req_id_defaults_to_number() {
    let mut a = PortAllocator::new(1);
    let p = a.try_allocate().unwrap();
    let n = p.number();
    let req = PortReq::new(p);
    assert_eq!(req.id, n);
    let req = req.with_id(77);
    assert_eq!(req.id, 77);
    assert_eq!(req.port.number(), n);
    let back: PortNumber = PortNumber::from(req);
    assert_eq!(back.number(), n);
    let req2 = PortReq::from(back);
    assert_eq!(req2.id, n);
}

#[test]
fn first_free_draw_is_taken() {
    let mut a = PortAllocator::new(10);
    let p = a.try_allocate_with(&vec![5, 9]).unwrap();
    assert_eq!(p.number(), 5);
    assert_eq!(a.first_unused(&vec![5, 5, 9, 3]), Some(9));
    assert_eq!(a.first_unused(&vec![5]), None);
    assert_eq!(a.first_unused(&vec![]), None);
    let q = a.try_allocate_with(&vec![5, 5, 7, 9]).unwrap();
    assert_eq!(q.number(), 7);
    assert!(a.owns(&p) && a.owns(&q));
}

#[test]
fn smallest_free_number_when_all_draws_taken() {
    let mut a = PortAllocator::new(10);
    let p0 = a.try_allocate_with(&vec![0]).unwrap();
    let p1 = a.try_allocate_with(&vec![1]).unwrap();
    let p = a.try_allocate_with(&vec![0, 1, 0]).unwrap();
    assert_eq!(p.number(), 2);
    let q = a.try_allocate_with(&vec![]).unwrap();
    assert_eq!(q.number(), 3);
    assert_eq!((p0.number(), p1.number()), (0, 1));
}

#[test]
fn foreign_port_is_not_released() {
    let mut a = PortAllocator::new(2);
    let mut b = PortAllocator::new(2);
    let pa = a.try_allocate_with(&vec![4]).unwrap();
    let pb = b.try_allocate_with(&vec![4]).unwrap();
    assert!(!a.owns(&pb));
    let (tx, _rx) = tokio::sync::oneshot::channel::<()>();
    assert!(a.allocate_or_wait(tx).is_some());
    let woken = a.release(pb);
    assert!(woken.is_empty());
    assert!(a.is_used(4));
    a.release(pa);
    assert!(!a.is_used(4));
}

fn hash_of<T: std::hash::Hash + ?Sized>(v: &T) -> u64 {
    let mut h = std::collections::hash_map::DefaultHasher::new();
    v.hash(&mut h);
    std::hash::Hasher::finish(&h)
}

#[test]
fn identity_is_by_number_alone() {
    let mut a = PortAllocator::new(4);
    let mut b = PortAllocator::new(4);
    let pa = a.try_allocate_with(&vec![8]).unwrap();
    let pb = b.try_allocate_with(&vec![8]).unwrap();
    let other = a.try_allocate_with(&vec![3]).unwrap();
    assert!(pa == pb);
    assert_eq!(hash_of(&pa), hash_of(&pb));
    assert_eq!(hash_of(&pa), hash_of(&8u32));
    assert!(other < pa);
    assert_eq!(pa.partial_cmp(&pb), Some(std::cmp::Ordering::Equal));
    let n: &u32 = std::borrow::Borrow::borrow(&pa);
    assert_eq!(*n, 8);
    let mut set = std::collections::HashSet::new();
    set.insert(pa);
    assert!(set.contains(&8u32));
    assert!(set.contains(&pb));
}

#[test]
fn port_req_compares_number_then_id() {
    let mut a = PortAllocator::new(4);
    let mut b = PortAllocator::new(4);
    let ra = PortReq::new(a.try_allocate_with(&vec![2]).unwrap());
    let rb = PortReq::new(b.try_allocate_with(&vec![2]).unwrap());
    assert!(ra == rb);
    assert_eq!(hash_of(&ra), hash_of(&rb));
    let rb = rb.with_id(9);
    assert!(ra != rb);
    assert!(ra < rb);
}
