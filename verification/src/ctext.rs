//! Marshalling of text across the native boundary.
//!
//! Every string handed to the native library must be a null-terminated byte
//! sequence with no embedded null. A [`CText`] is such a buffer, built once
//! and owned by the caller for the duration of the call it is passed to;
//! construction fails exactly when the input holds an embedded null, so an
//! unterminated or doubly-terminated buffer can never cross the boundary.

use vstd::prelude::*;

verus! {

/// A null-terminated byte buffer with no embedded null, fit to cross the
/// native boundary.
#[derive(Debug, Clone, PartialEq, Eq)]
pub struct CText {
    bytes: Vec<u8>,
}

impl CText {
    /// The whole buffer, terminator included.
    pub closed spec fn view(&self) -> Seq<u8> {
        self.bytes@
    }

    /// The buffer ends in the terminator and holds no other null byte.
    pub open spec fn wf(&self) -> bool {
        &&& self@.len() >= 1
        &&& self@.last() == 0
        &&& forall|i: int| 0 <= i < self@.len() - 1 ==> self@[i] != 0
    }

    /// Builds the null-terminated form of `s`, or `None` exactly when `s`
    /// holds an embedded null byte.
    pub fn new(s: &[u8]) -> (r: Option<CText>)
        ensures
            match r {
                Some(c) => c.wf() && c@ == s@.push(0u8) && !s@.contains(0u8),
                None => s@.contains(0u8),
            },
    {
        let mut out: Vec<u8> = Vec::new();
        let mut i: usize = 0;
        while i < s.len()
            invariant
                0 <= i <= s@.len(),
                out@ == s@.subrange(0, i as int),
                forall|j: int| 0 <= j < i ==> s@[j] != 0,
            decreases s@.len() - i,
        {
            let b = s[i];
            if b == 0 {
                return None;
            }
            out.push(b);
            i += 1;
        }
        out.push(0);
        proof {
            assert(out@ =~= s@.push(0u8));
            assert(forall|j: int| 0 <= j < s@.len() ==> s@[j] != 0);
            assert(!s@.contains(0u8));
        }
        Some(CText { bytes: out })
    }

    /// The number of bytes in the buffer, terminator included.
    pub fn len(&self) -> (r: usize)
        ensures
            r == self@.len(),
    {
        self.bytes.len()
    }

    /// The buffer as bytes, terminator included, for the host to hand to
    /// the native call.
    pub fn as_bytes(&self) -> (r: &Vec<u8>)
        ensures
            r@ == self@,
    {
        &self.bytes
    }
}

/// Builds the null-terminated form of each key for a property-list removal
/// call, in order; `None` exactly when some key holds an embedded null. The
/// host appends the terminating null entry of the key array itself.
pub fn marshal_keys(keys: &Vec<Vec<u8>>) -> (r: Option<Vec<CText>>)
    ensures
        match r {
            Some(v) => {
                &&& v@.len() == keys@.len()
                &&& forall|i: int| 0 <= i < v@.len() ==> #[trigger] v@[i]@ == keys@[i]@.push(0u8)
                &&& forall|i: int| 0 <= i < keys@.len() ==> !#[trigger] keys@[i]@.contains(0u8)
            },
            None => exists|i: int| 0 <= i < keys@.len() && #[trigger] keys@[i]@.contains(0u8),
        },
{
    let mut out: Vec<CText> = Vec::new();
    let mut i: usize = 0;
    while i < keys.len()
        invariant
            0 <= i <= keys@.len(),
            out@.len() == i,
            forall|j: int| 0 <= j < i ==> #[trigger] out@[j]@ == keys@[j]@.push(0u8),
            forall|j: int| 0 <= j < i ==> !#[trigger] keys@[j]@.contains(0u8),
        decreases keys@.len() - i,
    {
        let k = &keys[i];
        match CText::new(k.as_slice()) {
            Some(c) => {
                out.push(c);
            },
            None => {
                return None;
            },
        }
        i += 1;
    }
    Some(out)
}

} // verus!
