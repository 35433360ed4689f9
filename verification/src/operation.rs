//! Handles to in-flight asynchronous requests.
//!
//! Every request that can take time answers with an operation handle, built
//! from the raw pointer the native call returned: a null pointer becomes an
//! empty result, any other pointer is wrapped into an owning handle. An
//! operation exposes only a state query and a cancel request; both are
//! performed by the native library, so the wrapper keeps nothing but the
//! pointer value and the ownership discipline.

use vstd::prelude::*;

use crate::handle::Teardown;

verus! {

/// The state of an in-flight asynchronous request, mirrored value for value.
#[derive(Debug, Copy, Clone, PartialEq, Eq, Structural)]
pub enum State {
    /// The operation is still running.
    Running,
    /// The operation has completed.
    Done,
    /// The operation has been cancelled.
    Cancelled,
}

impl State {
    /// The native numeric value of this state.
    pub fn to_raw(self) -> (r: u32)
        ensures
            r == self.raw(),
    {
        match self {
            State::Running => 0,
            State::Done => 1,
            State::Cancelled => 2,
        }
    }

    /// The native numeric value, as a specification.
    pub open spec fn raw(self) -> u32 {
        match self {
            State::Running => 0,
            State::Done => 1,
            State::Cancelled => 2,
        }
    }

    /// The wrapped state for a native numeric value, `None` for a value
    /// outside the mirrored range.
    pub fn from_raw(raw: u32) -> (r: Option<State>)
        ensures
            r == Self::decoded(raw),
    {
        match raw {
            0 => Some(State::Running),
            1 => Some(State::Done),
            2 => Some(State::Cancelled),
            _ => None,
        }
    }

    /// The decoding of a native numeric value, as a specification.
    pub open spec fn decoded(raw: u32) -> Option<State> {
        if raw == 0 { Some(State::Running) }
        else if raw == 1 { Some(State::Done) }
        else if raw == 2 { Some(State::Cancelled) }
        else { None }
    }
}

/// Every native numeric operation-state value in the mirrored range maps to
/// a wrapped state and back to the identical numeric value, and every
/// wrapped state survives the round trip through its numeric value.
pub proof fn lemma_operation_state_round_trip(s: State, raw: u32)
    ensures
        State::decoded(s.raw()) == Some(s),
        State::decoded(raw) matches Some(d) ==> d.raw() == raw,
{
}

/// An owning or weak handle to an in-flight asynchronous request.
#[derive(Debug)]
pub struct Operation {
    raw: u64,
    weak: bool,
    released: bool,
}

impl Operation {
    /// The foreign pointer value this handle wraps; never null.
    pub closed spec fn raw_id(&self) -> u64 {
        self.raw
    }

    /// Whether the handle is weak: made for callback scope, holding no
    /// foreign reference.
    pub closed spec fn is_weak(&self) -> bool {
        self.weak
    }

    /// Whether the handle has already been torn down.
    pub closed spec fn is_released(&self) -> bool {
        self.released
    }

    /// The handle wraps a live, non-null foreign pointer.
    pub open spec fn wf(&self) -> bool {
        self.raw_id() != 0
    }

    /// Wraps the raw pointer a native request call returned: a null pointer
    /// yields an empty result, any other pointer an owning handle on that
    /// exact pointer value.
    pub fn new(raw: u64) -> (r: Option<Operation>)
        ensures
            raw == 0 <==> r is None,
            r matches Some(o) ==> o.wf() && o.raw_id() == raw && !o.is_weak()
                && !o.is_released(),
    {
        if raw == 0 {
            None
        } else {
            Some(Operation { raw, weak: false, released: false })
        }
    }

    /// The exact pointer value this handle wraps.
    pub fn as_raw(&self) -> (r: u64)
        ensures
            r == self.raw_id(),
    {
        self.raw
    }

    /// Tears the handle down, once: an owning handle obliges the host to
    /// decrement the foreign reference count exactly once, a weak handle
    /// obliges it to nothing.
    pub fn release(&mut self) -> (t: Teardown)
        requires
            !old(self).is_released(),
        ensures
            final(self).is_released(),
            final(self).raw_id() == old(self).raw_id(),
            final(self).is_weak() == old(self).is_weak(),
            t == crate::handle::unref_teardown(old(self).is_weak()),
    {
        self.released = true;
        if self.weak {
            Teardown::Nothing
        } else {
            Teardown::Unref
        }
    }
}

} // verus!
