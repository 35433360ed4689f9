//! The connection-context wrapper: a handle to a server connection that
//! multiplexes commands, streams and events.
//!
//! The native library owns the connection state machine; this wrapper keeps
//! only the pointer value and the ownership discipline, marshals the
//! arguments of a connect request, and translates raw returns. A connect
//! request is fire-and-forget: completion is observed through the state
//! callback, never through an operation handle.

use vstd::prelude::*;

use crate::ctext::CText;
use crate::handle::Teardown;

verus! {

/// Option flags of a connect request.
pub type FlagSet = u32;

/// No special behaviour.
pub const NOFLAGS: FlagSet = 0;

/// Disable autospawning of the daemon if it is required.
pub const NOAUTOSPAWN: FlagSet = 1;

/// Do not fail when the daemon is not available; wait for it to appear.
pub const NOFAIL: FlagSet = 2;

/// The state of a connection context, mirrored value for value.
#[derive(Debug, Copy, Clone, PartialEq, Eq, Structural)]
pub enum State {
    /// The context has not been connected yet.
    Unconnected,
    /// A connection is being established.
    Connecting,
    /// The client is authorizing itself to the daemon.
    Authorizing,
    /// The client is passing its application name to the daemon.
    SettingName,
    /// The connection is established and ready to execute operations.
    Ready,
    /// The connection failed or was disconnected.
    Failed,
    /// The connection was terminated cleanly.
    Terminated,
}

impl State {
    /// Returns `true` if the passed state is one of the connected states.
    pub fn is_good(self) -> (r: bool)
        ensures
            r == self.good(),
    {
        self == State::Connecting || self == State::Authorizing || self == State::SettingName
            || self == State::Ready
    }

    /// Whether the state is one of the connected states, as a
    /// specification.
    pub open spec fn good(self) -> bool {
        self == State::Connecting || self == State::Authorizing || self == State::SettingName
            || self == State::Ready
    }

    /// The native numeric value of this state.
    pub fn to_raw(self) -> (r: u32)
        ensures
            r == self.raw(),
    {
        match self {
            State::Unconnected => 0,
            State::Connecting => 1,
            State::Authorizing => 2,
            State::SettingName => 3,
            State::Ready => 4,
            State::Failed => 5,
            State::Terminated => 6,
        }
    }

    /// The native numeric value, as a specification.
    pub open spec fn raw(self) -> u32 {
        match self {
            State::Unconnected => 0,
            State::Connecting => 1,
            State::Authorizing => 2,
            State::SettingName => 3,
            State::Ready => 4,
            State::Failed => 5,
            State::Terminated => 6,
        }
    }

    /// The wrapped state for a native numeric value, `None` for a value
    /// outside the mirrored range.
    pub fn from_raw(raw: u32) -> (r: Option<State>)
        ensures
            r == Self::decoded(raw),
    {
        match raw {
            0 => Some(State::Unconnected),
            1 => Some(State::Connecting),
            2 => Some(State::Authorizing),
            3 => Some(State::SettingName),
            4 => Some(State::Ready),
            5 => Some(State::Failed),
            6 => Some(State::Terminated),
            _ => None,
        }
    }

    /// The decoding of a native numeric value, as a specification.
    pub open spec fn decoded(raw: u32) -> Option<State> {
        if raw == 0 { Some(State::Unconnected) }
        else if raw == 1 { Some(State::Connecting) }
        else if raw == 2 { Some(State::Authorizing) }
        else if raw == 3 { Some(State::SettingName) }
        else if raw == 4 { Some(State::Ready) }
        else if raw == 5 { Some(State::Failed) }
        else if raw == 6 { Some(State::Terminated) }
        else { None }
    }
}

/// Every native numeric context-state value in the mirrored range maps to a
/// wrapped state and back to the identical numeric value, and every wrapped
/// state survives the round trip through its numeric value.
pub proof fn lemma_context_state_round_trip(s: State, raw: u32)
    ensures
        State::decoded(s.raw()) == Some(s),
        State::decoded(raw) matches Some(d) ==> d.raw() == raw,
{
}

/// The marshalled arguments of a connect request, ready for the native
/// call.
pub struct ConnectRequest {
    /// The server name in null-terminated form, or `None` for the default
    /// server (a null pointer at the boundary).
    pub server: Option<CText>,
    /// The flags, passed through unchanged.
    pub flags: FlagSet,
    /// Whether a spawn-api structure accompanies the call; `false` passes a
    /// null pointer.
    pub api_given: bool,
}

impl ConnectRequest {
    /// Whether this request lets the native call forward a spawn request
    /// when no daemon is reachable: no specific server named, and
    /// autospawning not disabled by the flags.
    pub open spec fn spawn_forwarded(&self) -> bool {
        self.server is None && self.flags & NOAUTOSPAWN == 0
    }

    /// Whether this request lets the native call forward a spawn request.
    pub fn forwards_spawn(&self) -> (r: bool)
        ensures
            r == self.spawn_forwarded(),
    {
        self.server.is_none() && self.flags & NOAUTOSPAWN == 0
    }
}

/// An owning or weak handle to a connection context.
#[derive(Debug)]
pub struct Context {
    raw: u64,
    weak: bool,
    released: bool,
}

impl Context {
    /// The foreign pointer value this handle wraps; never null.
    pub closed spec fn raw_id(&self) -> u64 {
        self.raw
    }

    /// Whether the handle is weak: made for callback scope, holding no
    /// foreign reference.
    pub closed spec fn is_weak(&self) -> bool {
        self.weak
    }

    /// Whether the handle has already been torn down.
    pub closed spec fn is_released(&self) -> bool {
        self.released
    }

    /// The handle wraps a live, non-null foreign pointer.
    pub open spec fn wf(&self) -> bool {
        self.raw_id() != 0
    }

    /// Wraps the raw pointer a native allocation returned: a null pointer
    /// yields an empty result, any other pointer an owning handle on that
    /// exact pointer value.
    pub fn new(raw: u64) -> (r: Option<Context>)
        ensures
            raw == 0 <==> r is None,
            r matches Some(c) ==> c.wf() && c.raw_id() == raw && !c.is_weak()
                && !c.is_released(),
    {
        if raw == 0 {
            None
        } else {
            Some(Context { raw, weak: false, released: false })
        }
    }

    /// Wraps an existing non-null pointer as a weak handle, for use inside
    /// a callback: destroying it never touches the foreign reference count.
    pub fn from_raw_weak(raw: u64) -> (r: Context)
        requires
            raw != 0,
        ensures
            r.wf() && r.raw_id() == raw && r.is_weak() && !r.is_released(),
    {
        Context { raw, weak: true, released: false }
    }

    /// The exact pointer value this handle wraps.
    pub fn as_raw(&self) -> (r: u64)
        ensures
            r == self.raw_id(),
    {
        self.raw
    }

    /// Marshals the arguments of a connect request: the server name becomes
    /// a null-terminated buffer (or a null pointer for the default server),
    /// the flags pass through unchanged. Fails exactly when the server name
    /// holds an embedded null byte. The request forwards a spawn request
    /// when no server is named and the flags do not disable autospawning.
    pub fn connect_request(&self, server: Option<&Vec<u8>>, flags: FlagSet, api_given: bool)
        -> (r: Option<ConnectRequest>)
        ensures
            match r {
                Some(req) => {
                    &&& req.flags == flags
                    &&& req.api_given == api_given
                    &&& match server {
                        Some(s) => req.server matches Some(c) && c@ == s@.push(0u8)
                            && !s@.contains(0u8),
                        None => req.server is None,
                    }
                    &&& req.spawn_forwarded() == (server is None && flags & NOAUTOSPAWN == 0)
                },
                None => server matches Some(s) && s@.contains(0u8),
            },
    {
        let c_server: Option<CText> = match server {
            Some(s) => {
                match CText::new(s.as_slice()) {
                    Some(c) => Some(c),
                    None => {
                        return None;
                    },
                }
            },
            None => None,
        };
        Some(ConnectRequest { server: c_server, flags, api_given })
    }

    /// Tears the handle down, once: an owning handle obliges the host to
    /// decrement the foreign reference count exactly once, a weak handle
    /// obliges it to nothing.
    pub fn release(&mut self) -> (t: Teardown)
        requires
            !old(self).is_released(),
        ensures
            final(self).is_released(),
            final(self).raw_id() == old(self).raw_id(),
            final(self).is_weak() == old(self).is_weak(),
            t == crate::handle::unref_teardown(old(self).is_weak()),
    {
        self.released = true;
        if self.weak {
            Teardown::Nothing
        } else {
            Teardown::Unref
        }
    }
}

} // verus!
