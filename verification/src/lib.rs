//! Client-side engine for the VISCA camera control protocol carried over UDP.
//!
//! The crate holds the parts of a camera controller that can be stated and
//! proved exactly: how numbers are packed into nibbles and bytes
//! ([`messages`]), which bytes each command and inquiry is ([`commands`],
//! [`inquiry`]), how a reply is read back ([`reply`]), how a payload is framed
//! for the network ([`envelope`]), how a session numbers what it sends and
//! judges what it receives ([`session`]), and how the answers to a discovery
//! broadcast are read ([`discovery`]). Sockets and clocks are left to the
//! caller, who hands datagrams in and out as plain bytes.

use vstd::prelude::*;
use vstd::slice::slice_to_vec;

pub mod commands;
pub mod discovery;
pub mod envelope;
pub mod inquiry;
pub mod messages;
pub mod reply;
pub mod session;

verus! {

/// The ways in which an operation of this crate, or of a session built on it,
/// can fail.
#[derive(Debug, Clone, Copy, PartialEq, Eq, Structural)]
pub enum ErrorKind {
    /// The socket could not be used: a send or a receive failed.
    Transport,
    /// No reply arrived within the time allowed.
    Timeout,
    /// A parameter lies outside its documented range, or a payload is too long
    /// for the length field of the envelope. Nothing was encoded.
    Range,
    /// The bytes received match no template of the request they answer.
    Decode,
    /// The camera answered with a well-formed error frame: it refused the request.
    Rejected,
}

/// A failure, with the received bytes that caused it where there are any.
#[derive(Debug, PartialEq, Eq)]
pub struct ViscaError {
    pub kind: ErrorKind,
    /// The offending reply, byte for byte; empty where the failure has none.
    pub raw: Vec<u8>,
}

impl View for ViscaError {
    type V = (ErrorKind, Seq<u8>);

    open spec fn view(&self) -> (ErrorKind, Seq<u8>) {
        (self.kind, self.raw@)
    }
}

impl ViscaError {
    /// A failure of the given kind that carries no bytes.
    pub fn new(kind: ErrorKind) -> (e: ViscaError)
        ensures
            e@ == (kind, Seq::<u8>::empty()),
    {
        ViscaError { kind, raw: Vec::new() }
    }

    /// A failure of the given kind that carries a copy of `bytes`.
    pub fn with_bytes(kind: ErrorKind, bytes: &[u8]) -> (e: ViscaError)
        ensures
            e@ == (kind, bytes@),
    {
        ViscaError { kind, raw: slice_to_vec(bytes) }
    }
}

/// Whether `s` stands in `v` at offset `i`.
pub open spec fn occurs_at(v: Seq<u8>, s: Seq<u8>, i: int) -> bool {
    &&& 0 <= i
    &&& i + s.len() <= v.len()
    &&& v.subrange(i, i + s.len()) == s
}

/// The offset of the first occurrence of `s` in `v`, if there is one.
pub fn vec_contains_slice(v: &[u8], s: &[u8]) -> (r: Option<usize>)
    ensures
        match r {
            Some(i) => occurs_at(v@, s@, i as int) && forall|k: int| 0 <= k < i ==> !occurs_at(
                v@,
                s@,
                k,
            ),
            None => forall|k: int| !occurs_at(v@, s@, k),
        },
{
    if v.len() < s.len() {
        return None;
    }
    let last: usize = v.len() - s.len();
    let mut i: usize = 0;
    while i <= last
        invariant
            last == v.len() - s.len(),
            i <= last + 1,
            forall|k: int| 0 <= k < i ==> !occurs_at(v@, s@, k),
        decreases last + 1 - i,
    {
        let mut j: usize = 0;
        while j < s.len() && v[i + j] == s[j]
            invariant
                last == v.len() - s.len(),
                i <= last,
                j <= s.len(),
                forall|m: int| 0 <= m < j ==> v@[i + m] == s@[m],
            decreases s.len() - j,
        {
            j = j + 1;
        }
        if j == s.len() {
            assert(v@.subrange(i as int, i + s.len()) =~= s@);
            return Some(i);
        }
        assert(v@.subrange(i as int, i + s.len())[j as int] == v@[i + j]);
        i = i + 1;
    }
    None
}

} // verus!
