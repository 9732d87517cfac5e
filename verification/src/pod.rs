//! The length-prefixed typed binary encoding used to negotiate stream
//! properties with the media-streaming producer.
//!
//! Every value ("pod") is an 8-byte header — body size, then type code,
//! both little-endian 32-bit words — followed by the body, padded to an
//! 8-byte boundary.  Objects carry a sequence of key/flags/pod
//! properties; choices carry a child header and a list of child values.
//! The spec functions below state the exact byte sequence of each pod,
//! and every builder is proved to append exactly that sequence.

use vstd::prelude::*;

verus! {

/// Type code of an id pod.
pub const SPA_TYPE_ID: u32 = 3;

/// Type code of a 32-bit integer pod.
pub const SPA_TYPE_INT: u32 = 4;

/// Type code of a 64-bit integer pod.
pub const SPA_TYPE_LONG: u32 = 5;

/// Type code of a rectangle pod (width and height words).
pub const SPA_TYPE_RECTANGLE: u32 = 10;

/// Type code of a fraction pod (numerator and denominator words).
pub const SPA_TYPE_FRACTION: u32 = 11;

/// Type code of an object pod.
pub const SPA_TYPE_OBJECT: u32 = 15;

/// Type code of a choice pod.
pub const SPA_TYPE_CHOICE: u32 = 19;

/// Choice kind: a range given as default, minimum and maximum.
pub const SPA_CHOICE_RANGE: u32 = 1;

/// Choice kind: an enumeration given as default then alternatives.
pub const SPA_CHOICE_ENUM: u32 = 3;

/// A 32-bit word encoded little-endian.
pub open spec fn le32(v: u32) -> Seq<u8> {
    seq![
        (v & 0xFF) as u8,
        ((v >> 8) & 0xFF) as u8,
        ((v >> 16) & 0xFF) as u8,
        ((v >> 24) & 0xFF) as u8,
    ]
}

/// A 64-bit word encoded little-endian.
pub open spec fn le64(v: u64) -> Seq<u8> {
    le32((v & 0xFFFF_FFFF) as u32) + le32((v >> 32) as u32)
}

/// The 64-bit values of a choice body, in order.
pub open spec fn le64_concat(vals: Seq<u64>) -> Seq<u8>
    decreases vals.len(),
{
    if vals.len() == 0 {
        Seq::empty()
    } else {
        le64_concat(vals.drop_last()) + le64(vals.last())
    }
}

/// The 32-bit values of a choice body, in order.
pub open spec fn le32_concat(vals: Seq<u32>) -> Seq<u8>
    decreases vals.len(),
{
    if vals.len() == 0 {
        Seq::empty()
    } else {
        le32_concat(vals.drop_last()) + le32(vals.last())
    }
}

/// An id pod: a 4-byte body padded to 8.
pub open spec fn spec_pod_id(v: u32) -> Seq<u8> {
    le32(4) + le32(SPA_TYPE_ID) + le32(v) + le32(0)
}

/// A 32-bit integer pod: a 4-byte body padded to 8.
pub open spec fn spec_pod_int(v: i32) -> Seq<u8> {
    le32(4) + le32(SPA_TYPE_INT) + le32(v as u32) + le32(0)
}

/// A 64-bit integer pod.
pub open spec fn spec_pod_long(v: u64) -> Seq<u8> {
    le32(8) + le32(SPA_TYPE_LONG) + le64(v)
}

/// A range choice over a pair-valued child type (rectangle or fraction):
/// default, minimum and maximum, each two 32-bit words.
pub open spec fn spec_choice_pair_range(
    child_type: u32,
    d: (u32, u32),
    lo: (u32, u32),
    hi: (u32, u32),
) -> Seq<u8> {
    le32(40) + le32(SPA_TYPE_CHOICE) + le32(SPA_CHOICE_RANGE) + le32(0) + le32(8) + le32(child_type)
        + le32(d.0) + le32(d.1) + le32(lo.0) + le32(lo.1) + le32(hi.0) + le32(hi.1)
}

/// An enumeration choice over 64-bit values, the default first.
pub open spec fn spec_choice_long_enum(vals: Seq<u64>) -> Seq<u8> {
    le32((16 + 8 * vals.len()) as u32) + le32(SPA_TYPE_CHOICE) + le32(SPA_CHOICE_ENUM) + le32(0)
        + le32(8) + le32(SPA_TYPE_LONG) + le64_concat(vals)
}

/// An enumeration choice over id values, the default first; an odd value
/// count leaves the body 4 short of alignment, so a pad word follows it.
pub open spec fn spec_choice_id_enum(vals: Seq<u32>) -> Seq<u8> {
    le32((16 + 4 * vals.len()) as u32) + le32(SPA_TYPE_CHOICE) + le32(SPA_CHOICE_ENUM) + le32(0)
        + le32(4) + le32(SPA_TYPE_ID) + le32_concat(vals) + if vals.len() % 2 == 1 {
        le32(0)
    } else {
        Seq::<u8>::empty()
    }
}

/// One property of an object body: key, flags, then the value pod.
pub open spec fn spec_prop(key: u32, flags: u32, pod: Seq<u8>) -> Seq<u8> {
    le32(key) + le32(flags) + pod
}

/// An object pod around an already-encoded property body.
pub open spec fn spec_pod_object(obj_type: u32, obj_id: u32, body: Seq<u8>) -> Seq<u8> {
    le32((8 + body.len()) as u32) + le32(SPA_TYPE_OBJECT) + le32(obj_type) + le32(obj_id) + body
}

/// Appends one 32-bit word, little-endian.
pub fn push_u32_le(out: &mut Vec<u8>, v: u32)
    ensures
        final(out)@ == old(out)@ + le32(v),
{
    out.push((v & 0xFF) as u8);
    out.push(((v >> 8) & 0xFF) as u8);
    out.push(((v >> 16) & 0xFF) as u8);
    out.push(((v >> 24) & 0xFF) as u8);
    proof {
        assert(out@ =~= old(out)@ + le32(v));
    }
}

/// Appends one 64-bit word, little-endian.
pub fn push_u64_le(out: &mut Vec<u8>, v: u64)
    ensures
        final(out)@ == old(out)@ + le64(v),
{
    push_u32_le(out, (v & 0xFFFF_FFFF) as u32);
    push_u32_le(out, (v >> 32) as u32);
    proof {
        assert(out@ =~= old(out)@ + le64(v));
    }
}

/// Appends an id pod.
pub fn push_pod_id(out: &mut Vec<u8>, v: u32)
    ensures
        final(out)@ == old(out)@ + spec_pod_id(v),
{
    push_u32_le(out, 4);
    push_u32_le(out, SPA_TYPE_ID);
    push_u32_le(out, v);
    push_u32_le(out, 0);
    proof {
        assert(out@ =~= old(out)@ + spec_pod_id(v));
    }
}

/// Appends a 32-bit integer pod.
pub fn push_pod_int(out: &mut Vec<u8>, v: i32)
    ensures
        final(out)@ == old(out)@ + spec_pod_int(v),
{
    push_u32_le(out, 4);
    push_u32_le(out, SPA_TYPE_INT);
    push_u32_le(out, v as u32);
    push_u32_le(out, 0);
    proof {
        assert(out@ =~= old(out)@ + spec_pod_int(v));
    }
}

/// Appends a 64-bit integer pod.
pub fn push_pod_long(out: &mut Vec<u8>, v: u64)
    ensures
        final(out)@ == old(out)@ + spec_pod_long(v),
{
    push_u32_le(out, 8);
    push_u32_le(out, SPA_TYPE_LONG);
    push_u64_le(out, v);
    proof {
        assert(out@ =~= old(out)@ + spec_pod_long(v));
    }
}

/// Appends a range choice over a pair-valued child type.
pub fn push_choice_pair_range(
    out: &mut Vec<u8>,
    child_type: u32,
    d: (u32, u32),
    lo: (u32, u32),
    hi: (u32, u32),
)
    ensures
        final(out)@ == old(out)@ + spec_choice_pair_range(child_type, d, lo, hi),
{
    push_u32_le(out, 40);
    push_u32_le(out, SPA_TYPE_CHOICE);
    push_u32_le(out, SPA_CHOICE_RANGE);
    push_u32_le(out, 0);
    push_u32_le(out, 8);
    push_u32_le(out, child_type);
    push_u32_le(out, d.0);
    push_u32_le(out, d.1);
    push_u32_le(out, lo.0);
    push_u32_le(out, lo.1);
    push_u32_le(out, hi.0);
    push_u32_le(out, hi.1);
    proof {
        assert(out@ =~= old(out)@ + spec_choice_pair_range(child_type, d, lo, hi));
    }
}

/// Appends an enumeration choice over 64-bit values.
pub fn push_choice_long_enum(out: &mut Vec<u8>, vals: &Vec<u64>)
    requires
        vals@.len() <= 0x0FFF_FFFF,
        old(out)@.len() + 24 + 8 * vals@.len() <= usize::MAX,
    ensures
        final(out)@ == old(out)@ + spec_choice_long_enum(vals@),
{
    push_u32_le(out, (16 + 8 * vals.len()) as u32);
    push_u32_le(out, SPA_TYPE_CHOICE);
    push_u32_le(out, SPA_CHOICE_ENUM);
    push_u32_le(out, 0);
    push_u32_le(out, 8);
    push_u32_le(out, SPA_TYPE_LONG);
    let ghost header = out@;
    let mut i: usize = 0;
    while i < vals.len()
        invariant
            i <= vals@.len(),
            out@ == header + le64_concat(vals@.take(i as int)),
        decreases vals@.len() - i,
    {
        push_u64_le(out, vals[i]);
        proof {
            assert(vals@.take(i + 1).drop_last() =~= vals@.take(i as int));
            assert(vals@.take(i + 1).last() == vals@[i as int]);
            assert(out@ =~= header + le64_concat(vals@.take(i + 1)));
        }
        i = i + 1;
    }
    proof {
        assert(vals@.take(vals@.len() as int) =~= vals@);
        assert(out@ =~= old(out)@ + spec_choice_long_enum(vals@));
    }
}

/// Appends an enumeration choice over id values.
pub fn push_choice_id_enum(out: &mut Vec<u8>, vals: &Vec<u32>)
    requires
        vals@.len() <= 0x0FFF_FFFF,
        old(out)@.len() + 28 + 4 * vals@.len() <= usize::MAX,
    ensures
        final(out)@ == old(out)@ + spec_choice_id_enum(vals@),
{
    push_u32_le(out, (16 + 4 * vals.len()) as u32);
    push_u32_le(out, SPA_TYPE_CHOICE);
    push_u32_le(out, SPA_CHOICE_ENUM);
    push_u32_le(out, 0);
    push_u32_le(out, 4);
    push_u32_le(out, SPA_TYPE_ID);
    let ghost header = out@;
    let mut i: usize = 0;
    while i < vals.len()
        invariant
            i <= vals@.len(),
            out@ == header + le32_concat(vals@.take(i as int)),
        decreases vals@.len() - i,
    {
        push_u32_le(out, vals[i]);
        proof {
            assert(vals@.take(i + 1).drop_last() =~= vals@.take(i as int));
            assert(vals@.take(i + 1).last() == vals@[i as int]);
            assert(out@ =~= header + le32_concat(vals@.take(i + 1)));
        }
        i = i + 1;
    }
    if vals.len() % 2 == 1 {
        push_u32_le(out, 0);
    }
    proof {
        assert(vals@.take(vals@.len() as int) =~= vals@);
        assert(out@ =~= old(out)@ + spec_choice_id_enum(vals@));
    }
}

/// The byte length of an encoded 64-bit value list.
pub proof fn lemma_le64_concat_len(vals: Seq<u64>)
    ensures
        le64_concat(vals).len() == 8 * vals.len(),
    decreases vals.len(),
{
    if vals.len() > 0 {
        lemma_le64_concat_len(vals.drop_last());
    }
}

/// The byte length of an encoded 32-bit value list.
pub proof fn lemma_le32_concat_len(vals: Seq<u32>)
    ensures
        le32_concat(vals).len() == 4 * vals.len(),
    decreases vals.len(),
{
    if vals.len() > 0 {
        lemma_le32_concat_len(vals.drop_last());
    }
}


/// A fraction or rectangle pod: two 32-bit words.
pub open spec fn spec_pod_pair(child_type: u32, a: u32, b: u32) -> Seq<u8> {
    le32(8) + le32(child_type) + le32(a) + le32(b)
}

/// Appends a rectangle or fraction pod.
pub fn push_pod_pair(out: &mut Vec<u8>, child_type: u32, a: u32, b: u32)
    ensures
        final(out)@ == old(out)@ + spec_pod_pair(child_type, a, b),
{
    push_u32_le(out, 8);
    push_u32_le(out, child_type);
    push_u32_le(out, a);
    push_u32_le(out, b);
    proof {
        assert(out@ =~= old(out)@ + spec_pod_pair(child_type, a, b));
    }
}

/// The 32-bit word encoded little-endian at byte offset `o`.
pub open spec fn le32_at(s: Seq<u8>, o: int) -> u32
    recommends
        0 <= o,
        o + 4 <= s.len(),
{
    ((s[o] as u32) | ((s[o + 1] as u32) << 8) | ((s[o + 2] as u32) << 16) | ((s[o + 3] as u32)
        << 24)) as u32
}

/// Reads the 32-bit word encoded little-endian at byte offset `o`.
pub fn read_u32_le(s: &[u8], o: usize) -> (r: u32)
    requires
        o + 4 <= s@.len(),
    ensures
        r == le32_at(s@, o as int),
{
    (s[o] as u32) | ((s[o + 1] as u32) << 8) | ((s[o + 2] as u32) << 16) | ((s[o + 3] as u32)
        << 24)
}

/// Reading back the four bytes of an encoded word yields the word.
pub proof fn lemma_le32_at_bytes(s: Seq<u8>, o: int, v: u32)
    requires
        0 <= o,
        o + 4 <= s.len(),
        s[o] == (v & 0xFF) as u8,
        s[o + 1] == ((v >> 8) & 0xFF) as u8,
        s[o + 2] == ((v >> 16) & 0xFF) as u8,
        s[o + 3] == ((v >> 24) & 0xFF) as u8,
    ensures
        le32_at(s, o) == v,
{
    let b0 = s[o];
    let b1 = s[o + 1];
    let b2 = s[o + 2];
    let b3 = s[o + 3];
    assert(((b0 as u32) | ((b1 as u32) << 8) | ((b2 as u32) << 16) | ((b3 as u32) << 24)) as u32
        == v) by (bit_vector)
        requires
            b0 == (v & 0xFF) as u8,
            b1 == ((v >> 8) & 0xFF) as u8,
            b2 == ((v >> 16) & 0xFF) as u8,
            b3 == ((v >> 24) & 0xFF) as u8,
    ;
}

} // verus!
