//! Text building blocks: decimal rendering of integers and the small set of
//! string operations that the formatters are written with.

use vstd::prelude::*;

verus! {

/// The ASCII digit for `d` (`d < 10`).
pub open spec fn digit_char(d: nat) -> char {
    (d + 48) as char
}

/// Decimal rendering of a natural number, without sign or leading zeros.
pub open spec fn dec(n: nat) -> Seq<char>
    decreases n,
{
    if n < 10 {
        seq![digit_char(n)]
    } else {
        dec(n / 10) + seq![digit_char(n % 10)]
    }
}

/// Decimal rendering of an integer: a `-` before the magnitude when negative.
pub open spec fn sdec(i: int) -> Seq<char> {
    if i < 0 {
        seq!['-'] + dec((-i) as nat)
    } else {
        dec(i as nat)
    }
}

/// `s` padded on the left with `'0'` up to `width` characters.
pub open spec fn zero_pad(s: Seq<char>, width: nat) -> Seq<char> {
    if s.len() >= width {
        s
    } else {
        Seq::new((width - s.len()) as nat, |_i: int| '0') + s
    }
}

/// Appends `c` to `s`.
///
/// Calls `String::push`, which appends one character at the end of the
/// string; the contract claims exactly that.
#[verifier::external_body]
pub(crate) fn push_char(s: &mut String, c: char)
    ensures
        final(s)@ == old(s)@.push(c),
{
    s.push(c);
}

fn digit(d: u64) -> (c: char)
    requires
        d < 10,
    ensures
        c == digit_char(d as nat),
{
    ((d as u8) + 48u8) as char
}

/// Appends the decimal rendering of `n` to `s`.
pub fn push_dec(s: &mut String, n: u64)
    ensures
        final(s)@ == old(s)@ + dec(n as nat),
    decreases n,
{
    let ghost s0 = s@;
    if n < 10 {
        push_char(s, digit(n));
        assert(s@ =~= s0 + dec(n as nat));
    } else {
        push_dec(s, n / 10);
        push_char(s, digit(n % 10));
        assert(s@ =~= s0 + dec(n as nat));
    }
}

/// Appends the signed decimal rendering of `i` to `s`.
pub fn push_int(s: &mut String, i: i64)
    ensures
        final(s)@ == old(s)@ + sdec(i as int),
{
    let ghost s0 = s@;
    if i < 0 {
        push_char(s, '-');
        let m: u64 = (0i128 - (i as i128)) as u64;
        push_dec(s, m);
        assert(s@ =~= s0 + sdec(i as int));
    } else {
        push_dec(s, i as u64);
    }
}

/// The decimal rendering of `n` as a new string.
pub fn dec_string(n: u64) -> (s: String)
    ensures
        s@ == dec(n as nat),
{
    let mut s = String::new();
    push_dec(&mut s, n);
    assert(s@ =~= dec(n as nat));
    s
}

/// Appends `t` to `s` after padding it on the left with zeros to `width`.
pub fn push_zero_padded(s: &mut String, t: &str, width: usize)
    ensures
        final(s)@ == old(s)@ + zero_pad(t@, width as nat),
{
    let ghost s0 = s@;
    let len = t.unicode_len();
    let mut k: usize = len;
    while k < width
        invariant
            len == t@.len(),
            len <= k <= width || (k == len && len >= width),
            s@ =~= s0 + Seq::new((k - len) as nat, |_i: int| '0'),
        decreases width - k,
    {
        push_char(s, '0');
        k = k + 1;
    }
    s.append(t);
    assert(s@ =~= s0 + zero_pad(t@, width as nat));
}

/// The `Debug` rendering of a string: quoted, with escapes.
pub uninterp spec fn str_debug(s: Seq<char>) -> Seq<char>;

/// Renders `s` as `format!("{:?}", s)` does.
///
/// Calls std's `Debug` formatting of `str`. Its result depends only on the
/// string, so the contract names it (`str_debug`) and states nothing more.
#[verifier::external_body]
pub(crate) fn debug_quoted(s: &str) -> (r: String)
    ensures
        r@ == str_debug(s@),
{
    format!("{:?}", s)
}

} // verus!
