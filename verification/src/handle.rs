//! The ownership discipline shared by every wrapper around a foreign
//! reference-counted object.
//!
//! An owning handle holds one foreign reference and must give it back by
//! exactly one decrement when the handle is destroyed; a weak handle, made
//! for use inside a callback, holds none and must never decrement. A stream
//! additionally requests disconnection before releasing its reference, so
//! the server-side object is not orphaned. Destruction is modelled as a
//! teardown plan: the list of foreign actions the host must perform, in
//! order.

use vstd::prelude::*;

verus! {

/// The foreign actions that destroying a handle obliges the host to
/// perform, in order.
#[derive(Debug, Copy, Clone, PartialEq, Eq, Structural)]
pub enum Teardown {
    /// No foreign action: the handle was weak and held no reference.
    Nothing,
    /// Decrement the foreign reference count once.
    Unref,
    /// Request disconnection, then decrement the foreign reference count
    /// once.
    DisconnectThenUnref,
}

/// How many foreign reference-count decrements a teardown plan performs.
pub open spec fn unref_count(t: Teardown) -> nat {
    match t {
        Teardown::Nothing => 0,
        Teardown::Unref => 1,
        Teardown::DisconnectThenUnref => 1,
    }
}

/// How many disconnection requests a teardown plan performs.
pub open spec fn disconnect_count(t: Teardown) -> nat {
    match t {
        Teardown::Nothing => 0,
        Teardown::Unref => 0,
        Teardown::DisconnectThenUnref => 1,
    }
}

/// The teardown plan of a context or operation handle: weak handles oblige
/// the host to nothing, owning handles to one decrement.
pub open spec fn unref_teardown(weak: bool) -> Teardown {
    if weak {
        Teardown::Nothing
    } else {
        Teardown::Unref
    }
}

/// The teardown plan of a stream handle: weak handles oblige the host to
/// nothing, owning handles to a disconnection request followed by one
/// decrement, so the server-side object is not orphaned.
pub open spec fn stream_teardown(weak: bool) -> Teardown {
    if weak {
        Teardown::Nothing
    } else {
        Teardown::DisconnectThenUnref
    }
}

/// Destroying an owning handle performs the foreign decrement exactly once,
/// destroying a weak handle performs it never; and an owning stream
/// teardown requests disconnection exactly once, before its decrement.
pub proof fn lemma_release_refcount(weak: bool)
    ensures
        unref_count(unref_teardown(weak)) == (if weak { 0nat } else { 1nat }),
        unref_count(stream_teardown(weak)) == (if weak { 0nat } else { 1nat }),
        disconnect_count(stream_teardown(weak)) == (if weak { 0nat } else { 1nat }),
        disconnect_count(unref_teardown(weak)) == 0,
{
}

} // verus!
