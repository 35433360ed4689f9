//! Construction and destruction of the foreign-reference handles: a null
//! foreign pointer yields an empty result, a live handle answers the exact
//! pointer value, and destruction obliges the host to exactly one decrement
//! for an owning handle and to none for a weak one.

use pulse_binding::context::Context;
use pulse_binding::handle::Teardown;
use pulse_binding::operation::Operation;
use pulse_binding::stream::Stream;

/// A host-side tally of the foreign actions a teardown plan demands.
fn run_teardown(t: Teardown) -> (u32, u32) {
    // (disconnect requests, reference decrements), in plan order
    match t {
        Teardown::Nothing => (0, 0),
        Teardown::Unref => (0, 1),
        Teardown::DisconnectThenUnref => (1, 1),
    }
}

#[test]
fn context_null_pointer_yields_empty() {
    assert!(Context::new(0).is_none());
}

#[test]
fn context_handle_returns_exact_pointer() {
    let c = Context::new(0x1000).expect("non-null");
    assert_eq!(c.as_raw(), 0x1000);
}

#[test]
fn stream_null_pointer_yields_empty() {
    assert!(Stream::new(0).is_none());
}

#[test]
fn stream_handle_returns_exact_pointer() {
    let s = Stream::new(77).expect("non-null");
    assert_eq!(s.as_raw(), 77);
    assert!(!s.is_weak());
}

#[test]
fn operation_null_pointer_yields_empty() {
    assert!(Operation::new(0).is_none());
}

#[test]
fn operation_handle_returns_exact_pointer() {
    let o = Operation::new(31).expect("non-null");
    assert_eq!(o.as_raw(), 31);
}

#[test]
fn owning_context_unrefs_exactly_once() {
    let mut c = Context::new(0x2000).expect("non-null");
    let (disc, unref) = run_teardown(c.release());
    assert_eq!(unref, 1);
    assert_eq!(disc, 0);
}

#[test]
fn weak_context_never_unrefs() {
    let mut c = Context::from_raw_weak(0x2000);
    assert_eq!(c.as_raw(), 0x2000);
    let (disc, unref) = run_teardown(c.release());
    assert_eq!(unref, 0);
    assert_eq!(disc, 0);
}

#[test]
fn owning_stream_disconnects_then_unrefs_exactly_once() {
    let mut s = Stream::new(0x3000).expect("non-null");
    let t = s.release();
    assert_eq!(t, Teardown::DisconnectThenUnref);
    let (disc, unref) = run_teardown(t);
    assert_eq!(disc, 1);
    assert_eq!(unref, 1);
}

#[test]
fn weak_stream_never_unrefs() {
    let mut s = Stream::from_raw_weak(0x3000);
    assert!(s.is_weak());
    let (disc, unref) = run_teardown(s.release());
    assert_eq!(disc, 0);
    assert_eq!(unref, 0);
}

#[test]
fn owning_operation_unrefs_exactly_once() {
    let mut o = Operation::new(8).expect("non-null");
    let (disc, unref) = run_teardown(o.release());
    assert_eq!(disc, 0);
    assert_eq!(unref, 1);
}
