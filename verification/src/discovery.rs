//! Finding cameras on the local network.
//!
//! The caller broadcasts the enquiry of [`enquiry_datagram`] to
//! [`DISCOVERY_PORT`] and gathers whatever datagrams arrive until its read
//! times out. [`collect`] then tells which of them are answers of cameras and
//! gives the text of each. An answer is a run of fields, each closed by the
//! byte `0xFF`, between a start byte and an end byte; one of the fields names
//! the camera's MAC address, and by the letters `MAC` an answer is known.

use vstd::prelude::*;
use vstd::slice::slice_subrange;
use crate::{occurs_at, vec_contains_slice};

verus! {

/// The UDP port that cameras listen on for the enquiry, and answer to.
pub const DISCOVERY_PORT: u16 = 52380;

/// The byte that closes each field of an answer.
pub const FIELD_END: u8 = 0xFF;

/// The enquiry: the start byte `0x02`, the letters `ENQ:network`, the field end
/// `0xFF` and the end byte `0x03`.
pub open spec fn enquiry() -> Seq<u8> {
    seq![
        0x02u8,
        0x45,
        0x4E,
        0x51,
        0x3A,
        0x6E,
        0x65,
        0x74,
        0x77,
        0x6F,
        0x72,
        0x6B,
        0xFF,
        0x03,
    ]
}

/// The letters `MAC`, by which the answer of a camera is known.
pub open spec fn marker() -> Seq<u8> {
    seq![0x4Du8, 0x41, 0x43]
}

/// Whether a datagram is the answer of a camera: the letters `MAC` stand
/// somewhere in it.
pub open spec fn is_camera_reply(datagram: Seq<u8>) -> bool {
    exists|i: int| occurs_at(datagram, marker(), i)
}

/// Whether every byte is an ASCII character.
pub open spec fn is_ascii_bytes(bytes: Seq<u8>) -> bool {
    forall|i: int| 0 <= i < bytes.len() ==> bytes[i] < 0x80
}

/// The bytes as characters, one for one.
pub open spec fn as_text(bytes: Seq<u8>) -> Seq<char> {
    bytes.map_values(|b: u8| b as char)
}

/// The length of the first field of `bytes`: the offset of the first field end,
/// or the length of `bytes` where there is none.
pub open spec fn first_break(bytes: Seq<u8>) -> int
    decreases bytes.len(),
{
    if bytes.len() == 0 || bytes[0] == FIELD_END {
        0
    } else {
        1 + first_break(bytes.skip(1))
    }
}

/// The fields of `bytes` that hold ASCII characters only, one after the other
/// with nothing between them. The fields are what stands before, between and
/// after the field ends; a field with any other byte in it is left out whole.
pub open spec fn ascii_fields(bytes: Seq<u8>) -> Seq<u8>
    decreases bytes.len(),
{
    let k = first_break(bytes);
    let field = bytes.take(k);
    let kept = if is_ascii_bytes(field) {
        field
    } else {
        Seq::<u8>::empty()
    };
    if 0 <= k < bytes.len() {
        kept + ascii_fields(bytes.skip(k + 1))
    } else {
        kept
    }
}

/// What a datagram says of a camera: the ASCII fields of what stands between
/// its first and its last byte, as text. `None` for a datagram that is no
/// answer of a camera.
pub open spec fn description(datagram: Seq<u8>) -> Option<Seq<char>> {
    if is_camera_reply(datagram) {
        Some(as_text(ascii_fields(datagram.subrange(1, datagram.len() - 1))))
    } else {
        None
    }
}

/// The first field ends where the first field end stands.
proof fn lemma_first_break(bytes: Seq<u8>, k: int)
    requires
        0 <= k <= bytes.len(),
        forall|j: int| 0 <= j < k ==> bytes[j] != FIELD_END,
        k < bytes.len() ==> bytes[k] == FIELD_END,
    ensures
        first_break(bytes) == k,
    decreases k,
{
    if k > 0 {
        lemma_first_break(bytes.skip(1), k - 1);
    }
}

/// What has no field end in it is one field: it is kept whole or left out
/// whole.
pub proof fn lemma_single_field(field: Seq<u8>)
    requires
        forall|i: int| 0 <= i < field.len() ==> field[i] != FIELD_END,
    ensures
        ascii_fields(field) == if is_ascii_bytes(field) {
            field
        } else {
            Seq::<u8>::empty()
        },
{
    lemma_first_break(field, field.len() as int);
    assert(field.take(field.len() as int) =~= field);
}

/// A field end parts the first field from what follows it, and is itself no
/// part of either.
pub proof fn lemma_fields_split(field: Seq<u8>, rest: Seq<u8>)
    requires
        forall|i: int| 0 <= i < field.len() ==> field[i] != FIELD_END,
    ensures
        ascii_fields(field + seq![FIELD_END] + rest) == ascii_fields(field) + ascii_fields(rest),
{
    let all = field + seq![FIELD_END] + rest;
    let k = field.len() as int;
    lemma_first_break(all, k);
    lemma_single_field(field);
    assert(all.take(k) =~= field);
    assert(all.skip(k + 1) =~= rest);
}

/// Only ASCII bytes are kept.
pub proof fn lemma_fields_are_ascii(bytes: Seq<u8>)
    ensures
        is_ascii_bytes(ascii_fields(bytes)),
    decreases bytes.len(),
{
    let k = first_break(bytes);
    if 0 <= k < bytes.len() {
        lemma_fields_are_ascii(bytes.skip(k + 1));
    }
}

/// The datagram to broadcast.
pub fn enquiry_datagram() -> (v: Vec<u8>)
    ensures
        v@ == enquiry(),
{
    let v: Vec<u8> = vec![
        0x02,
        0x45,
        0x4E,
        0x51,
        0x3A,
        0x6E,
        0x65,
        0x74,
        0x77,
        0x6F,
        0x72,
        0x6B,
        0xFF,
        0x03,
    ];
    assert(v@ =~= enquiry());
    v
}

/// `String::from_utf8` of the standard library, for bytes that are ASCII: they
/// are valid UTF-8, so the conversion succeeds, and the string has one
/// character for each byte, with the byte's value as its code.
#[verifier::external_body]
fn string_from_ascii(bytes: Vec<u8>) -> (converted: Option<String>)
    ensures
        is_ascii_bytes(bytes@) ==> converted is Some && converted->Some_0@ == as_text(bytes@),
{
    match String::from_utf8(bytes) {
        Ok(s) => Some(s),
        Err(_) => None,
    }
}

/// Gathers the ASCII fields of `bytes`.
fn gather_ascii_fields(bytes: &[u8]) -> (out: Vec<u8>)
    ensures
        out@ == ascii_fields(bytes@),
        is_ascii_bytes(out@),
{
    let mut out: Vec<u8> = Vec::new();
    let mut start: usize = 0;
    let mut clean: bool = true;
    let mut i: usize = 0;
    assert(bytes@.skip(0) =~= bytes@);
    while i < bytes.len()
        invariant
            start <= i <= bytes.len(),
            forall|j: int| start <= j < i ==> bytes@[j] != FIELD_END,
            clean == is_ascii_bytes(bytes@.subrange(start as int, i as int)),
            ascii_fields(bytes@) == out@ + ascii_fields(bytes@.skip(start as int)),
            is_ascii_bytes(out@),
        decreases bytes.len() - i,
    {
        let b: u8 = bytes[i];
        let ghost rest = bytes@.skip(start as int);
        if b == FIELD_END {
            proof {
                lemma_first_break(rest, i - start);
                assert(rest.take(i - start) =~= bytes@.subrange(start as int, i as int));
                assert(rest.skip(i - start + 1) =~= bytes@.skip(i + 1));
            }
            if clean {
                out.extend_from_slice(slice_subrange(bytes, start, i));
            }
            start = i + 1;
            clean = true;
            assert(bytes@.subrange(start as int, i + 1) =~= Seq::<u8>::empty());
        } else {
            proof {
                let before = bytes@.subrange(start as int, i as int);
                let after = bytes@.subrange(start as int, i + 1);
                assert(after =~= before.push(b));
                assert(is_ascii_bytes(after) == (is_ascii_bytes(before) && b < 0x80)) by {
                    if is_ascii_bytes(after) {
                        assert(after[i - start] == b);
                        assert forall|j: int| 0 <= j < before.len() implies before[j] < 0x80 by {
                            assert(after[j] == before[j]);
                        }
                    }
                }
            }
            if b >= 0x80 {
                clean = false;
            }
        }
        i = i + 1;
    }
    proof {
        let rest = bytes@.skip(start as int);
        lemma_first_break(rest, bytes.len() - start);
        assert(rest.take(bytes.len() - start) =~= bytes@.subrange(start as int, i as int));
    }
    if clean {
        out.extend_from_slice(slice_subrange(bytes, start, i));
    }
    out
}

/// Reads one datagram. `Some` with what it says of its camera where it is the
/// answer of one, `None` where it is not.
pub fn describe(datagram: &[u8]) -> (r: Option<String>)
    ensures
        match r {
            Some(text) => description(datagram@) == Some(text@),
            None => description(datagram@) is None,
        },
{
    let letters: [u8; 3] = [0x4D, 0x41, 0x43];
    assert(letters@ =~= marker());
    match vec_contains_slice(datagram, letters.as_slice()) {
        Some(at) => {
            assert(occurs_at(datagram@, marker(), at as int));
            let fields: Vec<u8> = gather_ascii_fields(
                slice_subrange(datagram, 1, datagram.len() - 1),
            );
            string_from_ascii(fields)
        },
        None => None,
    }
}

/// Reads the datagrams that came in answer to an enquiry. The result holds,
/// in the order of arrival, what each answer of a camera says; datagrams that
/// are no such answer are left out, and nothing else is: two answers that say
/// the same give two entries.
pub fn collect(datagrams: &[Vec<u8>]) -> (found: Vec<String>)
    ensures
        found@.map_values(|s: String| s@) == datagrams@.filter_map(
            |d: Vec<u8>| description(d@),
        ),
{
    let mut found: Vec<String> = Vec::new();
    let mut i: usize = 0;
    let ghost read = |d: Vec<u8>| description(d@);
    let ghost text = |s: String| s@;
    assert(datagrams@.take(0).filter_map(read) =~= Seq::<Seq<char>>::empty());
    assert(found@.map_values(text) =~= Seq::<Seq<char>>::empty());
    while i < datagrams.len()
        invariant
            i <= datagrams.len(),
            read == |d: Vec<u8>| description(d@),
            text == |s: String| s@,
            found@.map_values(text) == datagrams@.take(i as int).filter_map(read),
        decreases datagrams.len() - i,
    {
        let ghost before = found@;
        proof {
            let upto = datagrams@.take(i + 1);
            assert(upto.drop_last() =~= datagrams@.take(i as int));
            assert(upto.last() == datagrams@[i as int]);
        }
        match describe(datagrams[i].as_slice()) {
            Some(s) => {
                found.push(s);
                assert(found@.map_values(text) =~= before.map_values(text) + seq![s@]);
            },
            None => {},
        }
        i = i + 1;
    }
    assert(datagrams@.take(i as int) =~= datagrams@);
    found
}

/// No datagram, no camera.
pub proof fn lemma_nothing_received()
    ensures
        Seq::<Vec<u8>>::empty().filter_map(|d: Vec<u8>| description(d@)) == Seq::<
            Seq<char>,
        >::empty(),
{
}

/// One datagram more adds one entry at the end where it is the answer of a
/// camera, and changes nothing where it is not. So the entries stand in the
/// order in which their datagrams came.
pub proof fn lemma_one_more_datagram(earlier: Seq<Vec<u8>>, datagram: Vec<u8>)
    ensures
        ({
            let read = |d: Vec<u8>| description(d@);
            earlier.push(datagram).filter_map(read) == match description(datagram@) {
                Some(text) => earlier.filter_map(read).push(text),
                None => earlier.filter_map(read),
            }
        }),
{
    let read = |d: Vec<u8>| description(d@);
    let all = earlier.push(datagram);
    assert(all.drop_last() =~= earlier);
    assert(all.last() == datagram);
    match description(datagram@) {
        Some(text) => {
            assert(earlier.filter_map(read) + seq![text] =~= earlier.filter_map(read).push(text));
        },
        None => {},
    }
}

} // verus!
