use rust_cast::payload::{RequestId, RequestIdGen};

#[test]
fn request_id_gen_default() {
    let mut gen = RequestIdGen::new();
    assert_eq!(gen.take_next().0, 1);
    assert_eq!(gen.take_next().0, 2);
    assert_eq!(gen.take_next().0, 3);
}

#[test]
fn request_id_gen_overflow() {
    let mut gen = RequestIdGen::starting_at(i32::MAX - 1);
    assert_eq!(gen.take_next().0, i32::MAX - 1);
    assert_eq!(gen.take_next().0, i32::MAX);
    assert_eq!(gen.take_next().0, i32::MIN);
    assert_eq!(gen.take_next().0, i32::MIN + 1);
}

#[test]
fn request_id_gen_skip_0() {
    let mut gen = RequestIdGen::starting_at(-1);
    assert_eq!(gen.take_next().0, -1);
    assert_eq!(gen.take_next().0, 1);
    assert_eq!(gen.take_next().0, 2);
}

#[test]
fn request_id_broadcast_and_rpc() {
    let b = RequestId::broadcast();
    assert_eq!(b.inner(), 0);
    assert!(b.is_broadcast());
    assert!(!b.is_rpc());
    let r = RequestId(7);
    assert!(!r.is_broadcast());
    assert!(r.is_rpc());
    let n: i32 = r.into();
    assert_eq!(n, 7);
}

#[test]
fn request_id_gen_starting_at_zero_skips_it() {
    let mut gen = RequestIdGen::starting_at(0);
    assert_eq!(gen.take_next().0, 1);
    assert_eq!(gen.take_next().0, 2);
}

#[test]
fn request_ids_differ_between_successive_calls() {
    let mut gen = RequestIdGen::starting_at(i32::MAX);
    let a = gen.take_next();
    let b = gen.take_next();
    assert_ne!(a, b);
    assert_eq!(a.0, i32::MAX);
    assert_eq!(b.0, i32::MIN);
}

#[test]
fn many_successive_ids_are_distinct() {
    let mut gen = RequestIdGen::starting_at(-500);
    let mut seen = std::collections::HashSet::new();
    for _ in 0..1000 {
        let id = gen.take_next();
        assert!(id.is_rpc());
        assert!(seen.insert(id.inner()));
    }
}
