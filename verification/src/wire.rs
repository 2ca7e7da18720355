//! The byte encoding of arguments and results at the standalone export
//! boundary.
//!
//! Arguments arrive as a flat buffer: a value argument is 8 little-endian
//! bytes, a byte-string argument is a 4-byte little-endian length followed
//! by that many bytes. Each result is tagged: `TAG_VALUE` and 8 bytes for a
//! value, `TAG_BYTES`, a 4-byte length and the bytes for a string or error
//! (an empty string stands for a nil error).

use vstd::prelude::*;

verus! {

/// Tag of a value result.
pub const TAG_VALUE: u8 = 0xE2;

/// Tag of a byte-string result.
pub const TAG_BYTES: u8 = 0xE3;

/// The 4 little-endian bytes of `x`.
pub open spec fn le_u32(x: u32) -> Seq<u8> {
    seq![(x & 0xff) as u8, ((x >> 8) & 0xff) as u8, ((x >> 16) & 0xff) as u8, ((x >> 24) & 0xff) as u8]
}

/// The 8 little-endian bytes of `x`.
pub open spec fn le_u64(x: u64) -> Seq<u8> {
    seq![
        (x & 0xff) as u8,
        ((x >> 8) & 0xff) as u8,
        ((x >> 16) & 0xff) as u8,
        ((x >> 24) & 0xff) as u8,
        ((x >> 32) & 0xff) as u8,
        ((x >> 40) & 0xff) as u8,
        ((x >> 48) & 0xff) as u8,
        ((x >> 56) & 0xff) as u8,
    ]
}

/// The `u32` whose little-endian bytes are the first 4 of `s`.
pub open spec fn u32_of_le(s: Seq<u8>) -> u32 {
    (s[0] as u32) | (s[1] as u32) << 8 | (s[2] as u32) << 16 | (s[3] as u32) << 24
}

/// The `u64` whose little-endian bytes are the first 8 of `s`.
pub open spec fn u64_of_le(s: Seq<u8>) -> u64 {
    (s[0] as u64) | (s[1] as u64) << 8 | (s[2] as u64) << 16 | (s[3] as u64) << 24 | (s[4] as u64) << 32
        | (s[5] as u64) << 40 | (s[6] as u64) << 48 | (s[7] as u64) << 56
}

/// A tagged value result.
pub open spec fn tag_value(v: u64) -> Seq<u8> {
    seq![TAG_VALUE] + le_u64(v)
}

/// A tagged byte-string result. The length field holds the length as a
/// `u32`.
pub open spec fn tag_bytes(d: Seq<u8>) -> Seq<u8> {
    seq![TAG_BYTES] + le_u32(d.len() as u32) + d
}

/// Decoding the little-endian bytes of a `u32` gives it back.
pub proof fn lemma_u32_le_roundtrip(x: u32)
    ensures
        le_u32(x).len() == 4,
        u32_of_le(le_u32(x)) == x,
{
    let b0 = (x & 0xff) as u8;
    let b1 = ((x >> 8) & 0xff) as u8;
    let b2 = ((x >> 16) & 0xff) as u8;
    let b3 = ((x >> 24) & 0xff) as u8;
    assert((b0 as u32) | (b1 as u32) << 8 | (b2 as u32) << 16 | (b3 as u32) << 24 == x) by (bit_vector)
        requires
            b0 == (x & 0xff) as u8,
            b1 == ((x >> 8) & 0xff) as u8,
            b2 == ((x >> 16) & 0xff) as u8,
            b3 == ((x >> 24) & 0xff) as u8,
    ;
}

/// Decoding the little-endian bytes of a `u64` gives it back.
pub proof fn lemma_u64_le_roundtrip(x: u64)
    ensures
        le_u64(x).len() == 8,
        u64_of_le(le_u64(x)) == x,
{
    let b0 = (x & 0xff) as u8;
    let b1 = ((x >> 8) & 0xff) as u8;
    let b2 = ((x >> 16) & 0xff) as u8;
    let b3 = ((x >> 24) & 0xff) as u8;
    let b4 = ((x >> 32) & 0xff) as u8;
    let b5 = ((x >> 40) & 0xff) as u8;
    let b6 = ((x >> 48) & 0xff) as u8;
    let b7 = ((x >> 56) & 0xff) as u8;
    assert((b0 as u64) | (b1 as u64) << 8 | (b2 as u64) << 16 | (b3 as u64) << 24 | (b4 as u64) << 32
        | (b5 as u64) << 40 | (b6 as u64) << 48 | (b7 as u64) << 56 == x) by (bit_vector)
        requires
            b0 == (x & 0xff) as u8,
            b1 == ((x >> 8) & 0xff) as u8,
            b2 == ((x >> 16) & 0xff) as u8,
            b3 == ((x >> 24) & 0xff) as u8,
            b4 == ((x >> 32) & 0xff) as u8,
            b5 == ((x >> 40) & 0xff) as u8,
            b6 == ((x >> 48) & 0xff) as u8,
            b7 == ((x >> 56) & 0xff) as u8,
    ;
}

/// Appends `d` to `v`.
pub fn extend_bytes(v: &mut Vec<u8>, d: &[u8])
    ensures
        final(v)@ == old(v)@ + d@,
{
    let ghost v0 = v@;
    let mut i: usize = 0;
    while i < d.len()
        invariant
            i <= d@.len(),
            v@ =~= v0 + d@.subrange(0, i as int),
        decreases d@.len() - i,
    {
        v.push(d[i]);
        i = i + 1;
    }
    assert(d@.subrange(0, d@.len() as int) =~= d@);
}

fn push_le_u32(v: &mut Vec<u8>, x: u32)
    ensures
        final(v)@ == old(v)@ + le_u32(x),
{
    let ghost v0 = v@;
    v.push((x & 0xff) as u8);
    v.push(((x >> 8) & 0xff) as u8);
    v.push(((x >> 16) & 0xff) as u8);
    v.push(((x >> 24) & 0xff) as u8);
    assert(v@ =~= v0 + le_u32(x));
}

fn push_le_u64(v: &mut Vec<u8>, x: u64)
    ensures
        final(v)@ == old(v)@ + le_u64(x),
{
    let ghost v0 = v@;
    v.push((x & 0xff) as u8);
    v.push(((x >> 8) & 0xff) as u8);
    v.push(((x >> 16) & 0xff) as u8);
    v.push(((x >> 24) & 0xff) as u8);
    v.push(((x >> 32) & 0xff) as u8);
    v.push(((x >> 40) & 0xff) as u8);
    v.push(((x >> 48) & 0xff) as u8);
    v.push(((x >> 56) & 0xff) as u8);
    assert(v@ =~= v0 + le_u64(x));
}

/// Appends a tagged value result to `v`.
pub fn push_tag_value(v: &mut Vec<u8>, x: u64)
    ensures
        final(v)@ == old(v)@ + tag_value(x),
{
    let ghost v0 = v@;
    v.push(TAG_VALUE);
    push_le_u64(v, x);
    assert(v@ =~= v0 + tag_value(x));
}

/// Appends a tagged byte-string result to `v`.
pub fn push_tag_bytes(v: &mut Vec<u8>, d: &[u8])
    ensures
        final(v)@ == old(v)@ + tag_bytes(d@),
{
    let ghost v0 = v@;
    v.push(TAG_BYTES);
    push_le_u32(v, d.len() as u32);
    extend_bytes(v, d);
    assert(v@ =~= v0 + tag_bytes(d@));
}

/// Reads the value argument at `off`: returns it and the offset after it.
pub fn read_value_arg(buf: &[u8], off: usize) -> (r: (u64, usize))
    requires
        off + 8 <= buf@.len(),
    ensures
        r.0 == u64_of_le(buf@.subrange(off as int, off + 8)),
        r.1 == off + 8,
{
    let v = (buf[off] as u64) | (buf[off + 1] as u64) << 8 | (buf[off + 2] as u64) << 16
        | (buf[off + 3] as u64) << 24 | (buf[off + 4] as u64) << 32 | (buf[off + 5] as u64) << 40
        | (buf[off + 6] as u64) << 48 | (buf[off + 7] as u64) << 56;
    (v, off + 8)
}

/// The length field of the byte-string argument at `off`.
pub open spec fn bytes_arg_len(buf: Seq<u8>, off: int) -> int {
    u32_of_le(buf.subrange(off, off + 4)) as int
}

/// Reads the byte-string argument at `off`: returns its bytes and the
/// offset after them.
pub fn read_bytes_arg(buf: &[u8], off: usize) -> (r: (&[u8], usize))
    requires
        off + 4 <= buf@.len(),
        off + 4 + bytes_arg_len(buf@, off as int) <= buf@.len(),
    ensures
        r.0@ == buf@.subrange(off + 4, off + 4 + bytes_arg_len(buf@, off as int)),
        r.1 == off + 4 + bytes_arg_len(buf@, off as int),
{
    let len = ((buf[off] as u32) | (buf[off + 1] as u32) << 8 | (buf[off + 2] as u32) << 16
        | (buf[off + 3] as u32) << 24) as usize;
    let start = off + 4;
    let end = start + len;
    (vstd::slice::slice_subrange(buf, start, end), end)
}

/// Whether a byte-string argument at `off` lies wholly inside `buf`.
pub fn bytes_arg_fits(buf: &[u8], off: usize) -> (fits: bool)
    ensures
        fits == (off + 4 <= buf@.len() && off + 4 + bytes_arg_len(buf@, off as int) <= buf@.len()),
{
    if off > buf.len() || buf.len() - off < 4 {
        return false;
    }
    let len = ((buf[off] as u32) | (buf[off + 1] as u32) << 8 | (buf[off + 2] as u32) << 16
        | (buf[off + 3] as u32) << 24) as usize;
    len <= buf.len() - off - 4
}

// =============================================================================
// Results
// =============================================================================

/// No result.
pub fn output_empty() -> (out: Vec<u8>)
    ensures
        out@ == Seq::<u8>::empty(),
{
    Vec::new()
}

/// A value result.
pub fn output_tag_value(v: u64) -> (out: Vec<u8>)
    ensures
        out@ == tag_value(v),
{
    let mut out = Vec::new();
    push_tag_value(&mut out, v);
    out
}

/// A byte-string result.
pub fn output_tag_bytes(data: &[u8]) -> (out: Vec<u8>)
    ensures
        out@ == tag_bytes(data@),
{
    let mut out = Vec::new();
    push_tag_bytes(&mut out, data);
    out
}

/// `(handle, nil error)`.
pub fn output_handle_ok(handle: i64) -> (out: Vec<u8>)
    ensures
        out@ == tag_value(handle as u64) + tag_bytes(Seq::empty()),
{
    let mut out = Vec::new();
    push_tag_value(&mut out, handle as u64);
    push_tag_bytes(&mut out, &[]);
    out
}

/// `(nil handle, error)`.
pub fn output_handle_err(err: &[u8]) -> (out: Vec<u8>)
    ensures
        out@ == tag_value(0) + tag_bytes(err@),
{
    let mut out = Vec::new();
    push_tag_value(&mut out, 0);
    push_tag_bytes(&mut out, err);
    out
}

/// `(string, nil error)`.
pub fn output_str_ok(s: &[u8]) -> (out: Vec<u8>)
    ensures
        out@ == tag_bytes(s@) + tag_bytes(Seq::empty()),
{
    let mut out = Vec::new();
    push_tag_bytes(&mut out, s);
    push_tag_bytes(&mut out, &[]);
    out
}

/// `("", error)`.
pub fn output_str_err(err: &[u8]) -> (out: Vec<u8>)
    ensures
        out@ == tag_bytes(Seq::empty()) + tag_bytes(err@),
{
    let mut out = Vec::new();
    push_tag_bytes(&mut out, &[]);
    push_tag_bytes(&mut out, err);
    out
}

/// A nil error.
pub fn output_nil_error() -> (out: Vec<u8>)
    ensures
        out@ == tag_bytes(Seq::empty()),
{
    let mut out = Vec::new();
    push_tag_bytes(&mut out, &[]);
    out
}

/// An error.
pub fn output_error(err: &[u8]) -> (out: Vec<u8>)
    ensures
        out@ == tag_bytes(err@),
{
    let mut out = Vec::new();
    push_tag_bytes(&mut out, err);
    out
}

// =============================================================================
// Laws
// =============================================================================

/// A value argument reads back the value that was encoded, wherever it
/// stands in the buffer.
pub proof fn law_value_arg_roundtrip(before: Seq<u8>, v: u64, after: Seq<u8>)
    ensures
        u64_of_le((before + le_u64(v) + after).subrange(before.len() as int, (before.len() + 8) as int)) == v,
{
    lemma_u64_le_roundtrip(v);
    assert((before + le_u64(v) + after).subrange(before.len() as int, (before.len() + 8) as int) =~= le_u64(v));
}

/// A byte-string argument reads back the bytes that were encoded, wherever
/// it stands in the buffer.
pub proof fn law_bytes_arg_roundtrip(before: Seq<u8>, d: Seq<u8>, after: Seq<u8>)
    requires
        d.len() <= u32::MAX,
    ensures
        ({
            let buf = before + le_u32(d.len() as u32) + d + after;
            &&& bytes_arg_len(buf, before.len() as int) == d.len()
            &&& buf.subrange((before.len() + 4) as int, (before.len() + 4 + d.len()) as int) == d
        }),
{
    let buf = before + le_u32(d.len() as u32) + d + after;
    lemma_u32_le_roundtrip(d.len() as u32);
    assert(buf.subrange(before.len() as int, (before.len() + 4) as int) =~= le_u32(d.len() as u32));
    assert(buf.subrange((before.len() + 4) as int, (before.len() + 4 + d.len()) as int) =~= d);
}

/// A tagged byte-string result, read past its tag as an argument, gives
/// back its bytes.
pub proof fn law_tag_bytes_roundtrip(d: Seq<u8>)
    requires
        d.len() <= u32::MAX,
    ensures
        bytes_arg_len(tag_bytes(d), 1) == d.len(),
        tag_bytes(d).subrange(5, (5 + d.len()) as int) == d,
{
    law_bytes_arg_roundtrip(seq![TAG_BYTES], d, Seq::empty());
    assert(seq![TAG_BYTES] + le_u32(d.len() as u32) + d + Seq::<u8>::empty() =~= tag_bytes(d));
}

} // verus!
