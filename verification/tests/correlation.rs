//! Correlation behaviour: identifier allocation, pending-call bookkeeping,
//! and delivery of each reply to exactly the matching caller.

use frontbridge::Correlator;
use frontbridge::IdGen;

#[test]
fn ids_start_at_one_and_strictly_increase() {
    let mut gen = IdGen::new();
    let a = gen.fresh();
    let b = gen.fresh();
    let c = gen.fresh();
    assert_eq!(a, 1);
    assert_eq!(b, 2);
    assert_eq!(c, 3);
    assert!(a < b && b < c);
    assert_ne!(a, b);
    assert_ne!(b, c);
    assert_ne!(a, c);
}

#[test]
fn each_call_receives_its_own_handle_regardless_of_order() {
    let mut correlator: Correlator<&'static str> = Correlator::new();
    let id_a = correlator.begin_call("waiter a");
    let id_b = correlator.begin_call("waiter b");
    let id_c = correlator.begin_call("waiter c");
    assert_ne!(id_a, id_b);
    assert_ne!(id_b, id_c);
    // Replies arrive in the reverse of allocation order.
    assert_eq!(correlator.resolve(id_c), Some("waiter c"));
    assert_eq!(correlator.resolve(id_a), Some("waiter a"));
    assert_eq!(correlator.resolve(id_b), Some("waiter b"));
}

#[test]
fn unknown_id_is_discarded_and_disturbs_no_pending_call() {
    let mut correlator: Correlator<u32> = Correlator::new();
    let id = correlator.begin_call(77);
    assert_eq!(correlator.resolve(9999), None);
    assert_eq!(correlator.pending_len(), 1);
    assert_eq!(correlator.resolve(id), Some(77));
}

#[test]
fn second_reply_with_same_id_is_unmatched() {
    let mut correlator: Correlator<u32> = Correlator::new();
    let id = correlator.begin_call(42);
    assert_eq!(correlator.resolve(id), Some(42));
    assert_eq!(correlator.resolve(id), None);
    assert_eq!(correlator.pending_len(), 0);
}

#[test]
fn pending_len_counts_waiters() {
    let mut correlator: Correlator<u8> = Correlator::new();
    assert_eq!(correlator.pending_len(), 0);
    let a = correlator.begin_call(1);
    let _b = correlator.begin_call(2);
    assert_eq!(correlator.pending_len(), 2);
    correlator.resolve(a);
    assert_eq!(correlator.pending_len(), 1);
}

#[test]
fn next_id_is_visible_before_allocation() {
    let mut correlator: Correlator<u8> = Correlator::new();
    assert_eq!(correlator.peek_next_id(), 1);
    let id = correlator.begin_call(0);
    assert_eq!(id, 1);
    assert_eq!(correlator.peek_next_id(), 2);
}
