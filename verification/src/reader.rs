//! Reading the bytecode text form back into a module.
//!
//! `read_module` takes the text apart line by line into a candidate
//! module. It checks nothing about the candidate beyond the shape of the
//! text; `parse_text` accepts the candidate only when formatting it gives
//! back exactly the text that was read.

use vstd::prelude::*;

use crate::bytecode::{
    Constant, ExternDef, FieldMeta, FunctionDef, GlobalDef, InterfaceMeta, Instruction, Itab,
    MethodInfo, Module, NamedTypeMeta, Opcode, StructMeta,
};
use crate::format::{
    code_lines, extern_entries, extern_entry, function_entries, function_entry, function_header,
    constant_entries, constant_entry, constant_text, global_entries, global_entry,
    field_lines, id_items, id_list, interface_entries, interface_entry, interface_method_lines, itab_entries,
    itab_entry, method_lines, module_header, module_text, named_entries, named_entry, section, struct_entries, struct_entry,
};
use crate::text::{dec, digit_char, push_char, sdec};

verus! {

// =============================================================================
// Characters
// =============================================================================

/// The character with code point `code`, if there is one.
///
/// Calls `char::from_u32`, which returns `None` exactly for surrogates
/// (`0xD800..=0xDFFF`) and values past `0x10FFFF`, and otherwise the
/// character whose code point is `code`.
#[verifier::external_body]
fn char_of(code: u32) -> (r: Option<char>)
    ensures
        r is Some <==> (code <= 0x10FFFF && !(0xD800 <= code && code <= 0xDFFF)),
        r matches Some(c) ==> c as u32 == code,
{
    char::from_u32(code)
}

/// The characters of `s`, in order.
fn chars_of(s: &str) -> (v: Vec<char>)
    ensures
        v@ == s@,
{
    let mut v: Vec<char> = Vec::new();
    let n = s.unicode_len();
    let mut k: usize = 0;
    while k < n
        invariant
            n == s@.len(),
            k <= n,
            v@ == s@.subrange(0, k as int),
        decreases n - k,
    {
        v.push(s.get_char(k));
        k = k + 1;
        assert(v@ =~= s@.subrange(0, k as int));
    }
    assert(s@.subrange(0, n as int) =~= s@);
    v
}

fn is_digit(c: char) -> (r: bool)
    ensures
        r == (48 <= (c as u32) && (c as u32) <= 57),
{
    48 <= (c as u32) && (c as u32) <= 57
}

/// Whether the characters of `name` spell `lit`.
fn same_text(name: &Vec<char>, lit: &str) -> bool {
    let b = lit.as_bytes();
    if name.len() != b.len() {
        return false;
    }
    let mut i: usize = 0;
    while i < b.len()
        invariant
            i <= b@.len(),
            name@.len() == b@.len(),
        decreases b@.len() - i,
    {
        if name[i] as u32 != b[i] as u32 {
            return false;
        }
        i = i + 1;
    }
    true
}

/// Whether `t` holds `lit` at `pos`.
pub open spec fn holds_at(t: Seq<char>, pos: int, lit: Seq<char>) -> bool {
    0 <= pos && pos + lit.len() <= t.len() && t.subrange(pos, pos + lit.len()) == lit
}

/// The position after `lit` when `t` holds `lit` at `pos`.
fn lit_at(t: &Vec<char>, pos: usize, lit: &str) -> (r: Option<usize>)
    ensures
        r matches Some(q) ==> pos < q <= t@.len() && q == pos + lit@.len() && holds_at(t@, pos as int, lit@),
        lit@.len() > 0 && holds_at(t@, pos as int, lit@) ==> r == Some((pos + lit@.len()) as usize),
{
    let l = chars_of(lit);
    let n = l.len();
    if n == 0 || pos > t.len() || t.len() - pos < n {
        return None;
    }
    let mut i: usize = 0;
    while i < n
        invariant
            i <= n,
            n == l@.len(),
            l@ == lit@,
            pos + n <= t.len(),
            forall|j: int| 0 <= j < i ==> t@[pos + j] == l@[j],
        decreases n - i,
    {
        if t[pos + i] != l[i] {
            assert(t@.subrange(pos as int, pos + n)[i as int] != lit@[i as int]);
            return None;
        }
        i = i + 1;
    }
    assert(t@.subrange(pos as int, pos + n) =~= lit@);
    Some(pos + n)
}

/// Whether `c` is an ASCII digit.
pub open spec fn digit(c: char) -> bool {
    48 <= (c as u32) && (c as u32) <= 57
}

/// The value of a run of digits, read left to right.
pub open spec fn digits_value(s: Seq<char>) -> nat
    decreases s.len(),
{
    if s.len() == 0 {
        0
    } else {
        digits_value(s.drop_last()) * 10 + ((s.last() as u32) - 48) as nat
    }
}

/// Ten to the power `k`.
pub open spec fn pow10(k: nat) -> nat
    decreases k,
{
    if k == 0 {
        1
    } else {
        10 * pow10((k - 1) as nat)
    }
}

/// Whether a digit stands at `q` in `t`.
pub open spec fn digit_at(t: Seq<char>, q: int) -> bool {
    0 <= q < t.len() && digit(t[q])
}

proof fn lemma_pow10_20()
    ensures
        pow10(20) == 100000000000000000000nat,
{
    reveal_with_fuel(pow10, 21);
}

proof fn lemma_pow10_mono(k: nat)
    requires
        k <= 20,
    ensures
        pow10(k) <= pow10(20),
    decreases 20 - k,
{
    if k < 20 {
        lemma_pow10_mono(k + 1);
    }
}

proof fn lemma_digit_char(d: nat)
    requires
        d < 10,
    ensures
        (digit_char(d) as u32) == d + 48,
        digit(digit_char(d)),
{
}

/// A decimal rendering is a non-empty run of digits whose value is the
/// number, and it is shorter than `k` digits when the number is below
/// ten to the `k`.
proof fn lemma_dec_digits(n: nat)
    ensures
        dec(n).len() >= 1,
        forall|j: int| 0 <= j < dec(n).len() ==> digit(#[trigger] dec(n)[j]),
        digits_value(dec(n)) == n,
        forall|k: nat| n < pow10(k) && k >= 1 ==> dec(n).len() <= k,
    decreases n,
{
    lemma_digit_char(n % 10);
    if n >= 10 {
        lemma_dec_digits(n / 10);
        let d = dec(n);
        assert(d.drop_last() =~= dec(n / 10));
        assert(d.last() == digit_char(n % 10));
        assert((n / 10) * 10 + n % 10 == n);
        assert(digits_value(d) == digits_value(d.drop_last()) * 10 + ((d.last() as u32) - 48) as nat);
        assert(digits_value(d) == (n / 10) * 10 + n % 10);
        assert forall|j: int| 0 <= j < d.len() implies digit(#[trigger] d[j]) by {
            if j < d.len() - 1 {
                assert(d[j] == dec(n / 10)[j]);
            }
        }
        assert forall|k: nat| n < pow10(k) && k >= 1 implies dec(n).len() <= k by {
            if k == 1 {
                assert(pow10(1) == 10 * pow10(0));
            } else {
                assert(pow10(k) == 10 * pow10((k - 1) as nat));
                assert(n / 10 < pow10((k - 1) as nat));
            }
        }
    } else {
        assert(dec(n).drop_last() =~= Seq::<char>::empty());
        assert(digits_value(dec(n)) == digits_value(dec(n).drop_last()) * 10
            + ((dec(n).last() as u32) - 48) as nat);
        assert(digits_value(Seq::<char>::empty()) == 0);
        assert forall|k: nat| n < pow10(k) && k >= 1 implies dec(n).len() <= k by {}
    }
}

/// The decimal number at `pos` and the position after it. A rendering
/// `dec(n)` of a number up to `u64::MAX` that stands at `pos`, not followed
/// by another digit, is read back as `n`.
fn read_number(t: &Vec<char>, pos: usize) -> (r: Option<(u64, usize)>)
    ensures
        r matches Some((_, q)) ==> pos < q <= t@.len(),
        forall|n: nat| n <= u64::MAX && #[trigger] holds_at(t@, pos as int, dec(n))
            && !digit_at(t@, pos + dec(n).len())
            ==> r == Some((n as u64, (pos + dec(n).len()) as usize)),
{
    if pos > t.len() {
        return None;
    }
    let mut q = pos;
    let mut v: u128 = 0;
    assert(t@.subrange(pos as int, pos as int) =~= Seq::<char>::empty());
    while q < t.len() && is_digit(t[q]) && q - pos < 20
        invariant
            pos <= q <= t@.len(),
            q - pos <= 20,
            forall|j: int| pos <= j < q ==> digit(#[trigger] t@[j]),
            v == digits_value(t@.subrange(pos as int, q as int)),
            v < pow10((q - pos) as nat),
        decreases t@.len() - q,
    {
        let ghost before = t@.subrange(pos as int, q as int);
        proof {
            lemma_pow10_mono((q - pos) as nat);
            lemma_pow10_20();
        }
        let d = ((t[q] as u32) - 48) as u128;
        v = v * 10 + d;
        q = q + 1;
        assert(t@.subrange(pos as int, q as int).drop_last() =~= before);
    }
    let stopped = q >= t.len() || !is_digit(t[q]);
    let r = if q == pos || !stopped || v > 18446744073709551615 {
        None
    } else {
        Some((v as u64, q))
    };
    proof {
        assert forall|n: nat| n <= u64::MAX && #[trigger] holds_at(t@, pos as int, dec(n))
            && !digit_at(t@, pos + dec(n).len())
            implies r == Some((n as u64, (pos + dec(n).len()) as usize)) by {
            lemma_dec_digits(n);
            lemma_pow10_20();
            let l = dec(n).len();
            assert forall|j: int| pos <= j < pos + l implies digit(#[trigger] t@[j]) by {
                assert(t@[j] == t@.subrange(pos as int, pos + l)[j - pos]);
            }
            assert(l <= 20);
            if q < pos + l {
                assert(digit(t@[q as int]));
            }
            if q > pos + l {
                assert(digit(t@[pos + l]));
            }
            assert(q == pos + l);
            assert(t@.subrange(pos as int, q as int) == dec(n));
        }
    }
    r
}

/// The signed decimal number at `pos` and the position after it. A
/// rendering `sdec(i)` of an `i64` that stands at `pos`, not followed by
/// another digit, is read back as `i`.
fn read_signed(t: &Vec<char>, pos: usize) -> (r: Option<(i64, usize)>)
    ensures
        r matches Some((_, q)) ==> pos < q <= t@.len(),
        forall|i: int| i64::MIN <= i <= i64::MAX && #[trigger] holds_at(t@, pos as int, sdec(i))
            && !digit_at(t@, pos + sdec(i).len())
            ==> r == Some((i as i64, (pos + sdec(i).len()) as usize)),
{
    if pos < t.len() && t[pos] as u32 == 45 {
        let rn = read_number(t, pos + 1);
        proof {
            assert forall|i: int| i64::MIN <= i <= i64::MAX && #[trigger] holds_at(t@, pos as int, sdec(i))
                && !digit_at(t@, pos + sdec(i).len()) implies i < 0 && rn == Some(((-i) as u64, (pos + sdec(i).len()) as usize)) by {
                lemma_dec_digits(if i < 0 { (-i) as nat } else { i as nat });
                if i >= 0 {
                    lemma_holds_first(t@, pos as int, sdec(i));
                    assert(digit(sdec(i)[0]));
                } else {
                    lemma_holds_split(t@, pos as int, seq!['-'], dec((-i) as nat));
                }
            }
        }
        let (v, q) = rn?;
        if v < 9223372036854775808 {
            Some((0 - (v as i64), q))
        } else if v == 9223372036854775808 {
            Some((i64::MIN, q))
        } else {
            None
        }
    } else {
        let rn = read_number(t, pos);
        proof {
            assert forall|i: int| i64::MIN <= i <= i64::MAX && #[trigger] holds_at(t@, pos as int, sdec(i))
                && !digit_at(t@, pos + sdec(i).len()) implies i >= 0 && rn == Some((i as u64, (pos + sdec(i).len()) as usize)) by {
                if i < 0 {
                    lemma_holds_split(t@, pos as int, seq!['-'], dec((-i) as nat));
                    lemma_holds_first(t@, pos as int, seq!['-']);
                }
            }
        }
        let (v, q) = rn?;
        if v <= 9223372036854775807 {
            Some((v as i64, q))
        } else {
            None
        }
    }
}

/// The characters of `t` from `from` up to `to`, as a string.
fn collect(t: &Vec<char>, from: usize, to: usize) -> (s: String)
    requires
        from <= to <= t@.len(),
    ensures
        s@ == t@.subrange(from as int, to as int),
{
    let mut s = String::new();
    let mut i = from;
    while i < to
        invariant
            from <= i <= to,
            to <= t@.len(),
            s@ == t@.subrange(from as int, i as int),
        decreases to - i,
    {
        push_char(&mut s, t[i]);
        i = i + 1;
        assert(s@ =~= t@.subrange(from as int, i as int));
    }
    s
}

/// The text from `pos` up to the first `lit` after it, and the position of
/// that `lit`.
fn read_until(t: &Vec<char>, pos: usize, lit: &str) -> (r: Option<(String, usize)>)
    ensures
        r matches Some((s, k)) ==> pos <= k <= t@.len() && s@ == t@.subrange(pos as int, k as int),
        forall|k: int| pos <= k && lit@.len() > 0 && #[trigger] holds_at(t@, k, lit@)
            && (forall|j: int| pos <= j < k ==> !holds_at(t@, j, lit@))
            ==> (r matches Some((s, k2)) && k2 == k),
{
    if pos > t.len() {
        return None;
    }
    let mut k = pos;
    while k < t.len()
        invariant
            pos <= k <= t@.len(),
            forall|j: int| pos <= j < k ==> !holds_at(t@, j, lit@) || lit@.len() == 0,
        decreases t@.len() - k,
    {
        if lit_at(t, k, lit).is_some() {
            return Some((collect(t, pos, k), k));
        }
        k = k + 1;
    }
    None
}

/// The numbers in `t` between `from` and `to`, in order; a `-` right
/// before digits belongs to the number.
fn numbers_in(t: &Vec<char>, from: usize, to: usize) -> Vec<i64>
    requires
        to <= t@.len(),
{
    let mut out: Vec<i64> = Vec::new();
    if from > to {
        return out;
    }
    let mut i = from;
    while i < to
        invariant
            to <= t@.len(),
            i <= t@.len(),
        decreases t@.len() - i,
    {
        let starts = is_digit(t[i]) || (t[i] as u32 == 45 && i + 1 < to && is_digit(t[i + 1]));
        if starts {
            match read_signed(t, i) {
                Some((v, q)) => {
                    out.push(v);
                    i = q;
                },
                None => {
                    i = i + 1;
                },
            }
        } else {
            i = i + 1;
        }
    }
    out
}

/// Whether `t` holds `lit` somewhere between `from` and `to`.
fn holds_lit(t: &Vec<char>, from: usize, to: usize, lit: &str) -> bool
    requires
        to <= t@.len(),
{
    let mut i = from;
    while i < to
        invariant
            to <= t@.len(),
        decreases to - i,
    {
        match lit_at(t, i, lit) {
            Some(q) => {
                if q <= to {
                    return true;
                }
            },
            None => {},
        }
        i = i + 1;
    }
    false
}

/// Whether the text between `from` and `to` ends with `lit`.
fn ends_with_lit(t: &Vec<char>, from: usize, to: usize, lit: &str) -> bool
    requires
        to <= t@.len(),
{
    let n = lit.as_bytes().len();
    if to < n || to - n < from {
        return false;
    }
    lit_at(t, to - n, lit) == Some(to)
}

// =============================================================================
// Instructions
// =============================================================================

/// The opcode whose mnemonic is `name`.
fn opcode_named(name: &Vec<char>) -> Option<Opcode> {
    if same_text(name, "Hint") {
        return Some(Opcode::Hint);
    }
    if same_text(name, "LoadInt") {
        return Some(Opcode::LoadInt);
    }
    if same_text(name, "LoadConst") {
        return Some(Opcode::LoadConst);
    }
    if same_text(name, "Copy") {
        return Some(Opcode::Copy);
    }
    if same_text(name, "CopyN") {
        return Some(Opcode::CopyN);
    }
    if same_text(name, "SlotGet") {
        return Some(Opcode::SlotGet);
    }
    if same_text(name, "SlotSet") {
        return Some(Opcode::SlotSet);
    }
    if same_text(name, "SlotGetN") {
        return Some(Opcode::SlotGetN);
    }
    if same_text(name, "SlotSetN") {
        return Some(Opcode::SlotSetN);
    }
    if same_text(name, "GlobalGet") {
        return Some(Opcode::GlobalGet);
    }
    if same_text(name, "GlobalGetN") {
        return Some(Opcode::GlobalGetN);
    }
    if same_text(name, "GlobalSet") {
        return Some(Opcode::GlobalSet);
    }
    if same_text(name, "GlobalSetN") {
        return Some(Opcode::GlobalSetN);
    }
    if same_text(name, "PtrNew") {
        return Some(Opcode::PtrNew);
    }
    if same_text(name, "PtrGet") {
        return Some(Opcode::PtrGet);
    }
    if same_text(name, "PtrSet") {
        return Some(Opcode::PtrSet);
    }
    if same_text(name, "PtrGetN") {
        return Some(Opcode::PtrGetN);
    }
    if same_text(name, "PtrSetN") {
        return Some(Opcode::PtrSetN);
    }
    if same_text(name, "PtrAdd") {
        return Some(Opcode::PtrAdd);
    }
    if same_text(name, "AddI") {
        return Some(Opcode::AddI);
    }
    if same_text(name, "SubI") {
        return Some(Opcode::SubI);
    }
    if same_text(name, "MulI") {
        return Some(Opcode::MulI);
    }
    if same_text(name, "DivI") {
        return Some(Opcode::DivI);
    }
    if same_text(name, "DivU") {
        return Some(Opcode::DivU);
    }
    if same_text(name, "ModI") {
        return Some(Opcode::ModI);
    }
    if same_text(name, "ModU") {
        return Some(Opcode::ModU);
    }
    if same_text(name, "NegI") {
        return Some(Opcode::NegI);
    }
    if same_text(name, "AddF") {
        return Some(Opcode::AddF);
    }
    if same_text(name, "SubF") {
        return Some(Opcode::SubF);
    }
    if same_text(name, "MulF") {
        return Some(Opcode::MulF);
    }
    if same_text(name, "DivF") {
        return Some(Opcode::DivF);
    }
    if same_text(name, "NegF") {
        return Some(Opcode::NegF);
    }
    if same_text(name, "EqI") {
        return Some(Opcode::EqI);
    }
    if same_text(name, "NeI") {
        return Some(Opcode::NeI);
    }
    if same_text(name, "LtI") {
        return Some(Opcode::LtI);
    }
    if same_text(name, "LeI") {
        return Some(Opcode::LeI);
    }
    if same_text(name, "GtI") {
        return Some(Opcode::GtI);
    }
    if same_text(name, "GeI") {
        return Some(Opcode::GeI);
    }
    if same_text(name, "LtU") {
        return Some(Opcode::LtU);
    }
    if same_text(name, "LeU") {
        return Some(Opcode::LeU);
    }
    if same_text(name, "GtU") {
        return Some(Opcode::GtU);
    }
    if same_text(name, "GeU") {
        return Some(Opcode::GeU);
    }
    if same_text(name, "EqF") {
        return Some(Opcode::EqF);
    }
    if same_text(name, "NeF") {
        return Some(Opcode::NeF);
    }
    if same_text(name, "LtF") {
        return Some(Opcode::LtF);
    }
    if same_text(name, "LeF") {
        return Some(Opcode::LeF);
    }
    if same_text(name, "GtF") {
        return Some(Opcode::GtF);
    }
    if same_text(name, "GeF") {
        return Some(Opcode::GeF);
    }
    if same_text(name, "And") {
        return Some(Opcode::And);
    }
    if same_text(name, "Or") {
        return Some(Opcode::Or);
    }
    if same_text(name, "Xor") {
        return Some(Opcode::Xor);
    }
    if same_text(name, "AndNot") {
        return Some(Opcode::AndNot);
    }
    if same_text(name, "Not") {
        return Some(Opcode::Not);
    }
    if same_text(name, "Shl") {
        return Some(Opcode::Shl);
    }
    if same_text(name, "ShrS") {
        return Some(Opcode::ShrS);
    }
    if same_text(name, "ShrU") {
        return Some(Opcode::ShrU);
    }
    if same_text(name, "BoolNot") {
        return Some(Opcode::BoolNot);
    }
    if same_text(name, "Jump") {
        return Some(Opcode::Jump);
    }
    if same_text(name, "JumpIf") {
        return Some(Opcode::JumpIf);
    }
    if same_text(name, "JumpIfNot") {
        return Some(Opcode::JumpIfNot);
    }
    if same_text(name, "Call") {
        return Some(Opcode::Call);
    }
    if same_text(name, "CallExtern") {
        return Some(Opcode::CallExtern);
    }
    if same_text(name, "CallClosure") {
        return Some(Opcode::CallClosure);
    }
    if same_text(name, "CallIface") {
        return Some(Opcode::CallIface);
    }
    if same_text(name, "Return") {
        return Some(Opcode::Return);
    }
    if same_text(name, "StrNew") {
        return Some(Opcode::StrNew);
    }
    if same_text(name, "StrLen") {
        return Some(Opcode::StrLen);
    }
    if same_text(name, "StrIndex") {
        return Some(Opcode::StrIndex);
    }
    if same_text(name, "StrConcat") {
        return Some(Opcode::StrConcat);
    }
    if same_text(name, "StrSlice") {
        return Some(Opcode::StrSlice);
    }
    if same_text(name, "StrEq") {
        return Some(Opcode::StrEq);
    }
    if same_text(name, "StrNe") {
        return Some(Opcode::StrNe);
    }
    if same_text(name, "StrLt") {
        return Some(Opcode::StrLt);
    }
    if same_text(name, "StrLe") {
        return Some(Opcode::StrLe);
    }
    if same_text(name, "StrGt") {
        return Some(Opcode::StrGt);
    }
    if same_text(name, "StrGe") {
        return Some(Opcode::StrGe);
    }
    if same_text(name, "StrDecodeRune") {
        return Some(Opcode::StrDecodeRune);
    }
    if same_text(name, "ArrayNew") {
        return Some(Opcode::ArrayNew);
    }
    if same_text(name, "ArrayGet") {
        return Some(Opcode::ArrayGet);
    }
    if same_text(name, "ArraySet") {
        return Some(Opcode::ArraySet);
    }
    if same_text(name, "ArrayAddr") {
        return Some(Opcode::ArrayAddr);
    }
    if same_text(name, "SliceNew") {
        return Some(Opcode::SliceNew);
    }
    if same_text(name, "SliceGet") {
        return Some(Opcode::SliceGet);
    }
    if same_text(name, "SliceSet") {
        return Some(Opcode::SliceSet);
    }
    if same_text(name, "SliceLen") {
        return Some(Opcode::SliceLen);
    }
    if same_text(name, "SliceCap") {
        return Some(Opcode::SliceCap);
    }
    if same_text(name, "SliceSlice") {
        return Some(Opcode::SliceSlice);
    }
    if same_text(name, "SliceAppend") {
        return Some(Opcode::SliceAppend);
    }
    if same_text(name, "SliceAddr") {
        return Some(Opcode::SliceAddr);
    }
    if same_text(name, "MapNew") {
        return Some(Opcode::MapNew);
    }
    if same_text(name, "MapGet") {
        return Some(Opcode::MapGet);
    }
    if same_text(name, "MapSet") {
        return Some(Opcode::MapSet);
    }
    if same_text(name, "MapDelete") {
        return Some(Opcode::MapDelete);
    }
    if same_text(name, "MapLen") {
        return Some(Opcode::MapLen);
    }
    if same_text(name, "MapIterInit") {
        return Some(Opcode::MapIterInit);
    }
    if same_text(name, "MapIterNext") {
        return Some(Opcode::MapIterNext);
    }
    if same_text(name, "ChanNew") {
        return Some(Opcode::ChanNew);
    }
    if same_text(name, "ChanSend") {
        return Some(Opcode::ChanSend);
    }
    if same_text(name, "ChanRecv") {
        return Some(Opcode::ChanRecv);
    }
    if same_text(name, "ChanClose") {
        return Some(Opcode::ChanClose);
    }
    if same_text(name, "ChanLen") {
        return Some(Opcode::ChanLen);
    }
    if same_text(name, "ChanCap") {
        return Some(Opcode::ChanCap);
    }
    if same_text(name, "SelectBegin") {
        return Some(Opcode::SelectBegin);
    }
    if same_text(name, "SelectSend") {
        return Some(Opcode::SelectSend);
    }
    if same_text(name, "SelectRecv") {
        return Some(Opcode::SelectRecv);
    }
    if same_text(name, "SelectExec") {
        return Some(Opcode::SelectExec);
    }
    if same_text(name, "ClosureNew") {
        return Some(Opcode::ClosureNew);
    }
    if same_text(name, "ClosureGet") {
        return Some(Opcode::ClosureGet);
    }
    if same_text(name, "GoStart") {
        return Some(Opcode::GoStart);
    }
    if same_text(name, "DeferPush") {
        return Some(Opcode::DeferPush);
    }
    if same_text(name, "ErrDeferPush") {
        return Some(Opcode::ErrDeferPush);
    }
    if same_text(name, "Panic") {
        return Some(Opcode::Panic);
    }
    if same_text(name, "Recover") {
        return Some(Opcode::Recover);
    }
    if same_text(name, "IfaceAssign") {
        return Some(Opcode::IfaceAssign);
    }
    if same_text(name, "IfaceAssert") {
        return Some(Opcode::IfaceAssert);
    }
    if same_text(name, "IfaceEq") {
        return Some(Opcode::IfaceEq);
    }
    if same_text(name, "ConvI2F") {
        return Some(Opcode::ConvI2F);
    }
    if same_text(name, "ConvF2I") {
        return Some(Opcode::ConvF2I);
    }
    if same_text(name, "ConvF64F32") {
        return Some(Opcode::ConvF64F32);
    }
    if same_text(name, "ConvF32F64") {
        return Some(Opcode::ConvF32F64);
    }
    if same_text(name, "Trunc") {
        return Some(Opcode::Trunc);
    }
    if same_text(name, "IndexCheck") {
        return Some(Opcode::IndexCheck);
    }
    if same_text(name, "IslandNew") {
        return Some(Opcode::IslandNew);
    }
    if same_text(name, "PortNew") {
        return Some(Opcode::PortNew);
    }
    if same_text(name, "PortSend") {
        return Some(Opcode::PortSend);
    }
    if same_text(name, "PortRecv") {
        return Some(Opcode::PortRecv);
    }
    if same_text(name, "PortClose") {
        return Some(Opcode::PortClose);
    }
    if same_text(name, "PortLen") {
        return Some(Opcode::PortLen);
    }
    if same_text(name, "PortCap") {
        return Some(Opcode::PortCap);
    }
    if same_text(name, "GoIsland") {
        return Some(Opcode::GoIsland);
    }
    if same_text(name, "ForLoop") {
        return Some(Opcode::ForLoop);
    }
    if same_text(name, "Invalid") {
        return Some(Opcode::Invalid);
    }
    None
}

/// The operands that an ordinary instruction's text shows, in order: `A`,
/// `B`, `C` for the operands, `F` for the flags, `I` and `U` for the
/// immediate read signed and unsigned, `O` for the raw operation byte.
fn operand_shape(op: Opcode) -> &'static str {
    match op {
        Opcode::Hint => "FAU",
        Opcode::LoadInt => "AI",
        Opcode::LoadConst => "AB",
        Opcode::Copy => "AB",
        Opcode::CopyN => "ABC",
        Opcode::SlotGet => "ABC",
        Opcode::SlotSet => "ABC",
        Opcode::SlotGetN => "ABCF",
        Opcode::SlotSetN => "ABCF",
        Opcode::GlobalGet => "AB",
        Opcode::GlobalGetN => "ABF",
        Opcode::GlobalSet => "AB",
        Opcode::GlobalSetN => "ABF",
        Opcode::PtrNew => "ABF",
        Opcode::PtrGet => "ABC",
        Opcode::PtrSet => "ABC",
        Opcode::PtrGetN => "ABCF",
        Opcode::PtrSetN => "ABCF",
        Opcode::PtrAdd => "ABC",
        Opcode::AddI => "ABC",
        Opcode::SubI => "ABC",
        Opcode::MulI => "ABC",
        Opcode::DivI => "ABC",
        Opcode::DivU => "ABC",
        Opcode::ModI => "ABC",
        Opcode::ModU => "ABC",
        Opcode::NegI => "AB",
        Opcode::AddF => "ABC",
        Opcode::SubF => "ABC",
        Opcode::MulF => "ABC",
        Opcode::DivF => "ABC",
        Opcode::NegF => "AB",
        Opcode::EqI => "ABC",
        Opcode::NeI => "ABC",
        Opcode::LtI => "ABC",
        Opcode::LeI => "ABC",
        Opcode::GtI => "ABC",
        Opcode::GeI => "ABC",
        Opcode::LtU => "ABC",
        Opcode::LeU => "ABC",
        Opcode::GtU => "ABC",
        Opcode::GeU => "ABC",
        Opcode::EqF => "ABC",
        Opcode::NeF => "ABC",
        Opcode::LtF => "ABC",
        Opcode::LeF => "ABC",
        Opcode::GtF => "ABC",
        Opcode::GeF => "ABC",
        Opcode::And => "ABC",
        Opcode::Or => "ABC",
        Opcode::Xor => "ABC",
        Opcode::AndNot => "ABC",
        Opcode::Not => "AB",
        Opcode::Shl => "ABC",
        Opcode::ShrS => "ABC",
        Opcode::ShrU => "ABC",
        Opcode::BoolNot => "AB",
        Opcode::Jump => "I",
        Opcode::JumpIf => "AI",
        Opcode::JumpIfNot => "AI",
        Opcode::CallExtern => "ABCF",
        Opcode::StrNew => "AB",
        Opcode::StrLen => "AB",
        Opcode::StrIndex => "ABC",
        Opcode::StrConcat => "ABC",
        Opcode::StrSlice => "ABCF",
        Opcode::StrEq => "ABC",
        Opcode::StrNe => "ABC",
        Opcode::StrLt => "ABC",
        Opcode::StrLe => "ABC",
        Opcode::StrGt => "ABC",
        Opcode::StrGe => "ABC",
        Opcode::StrDecodeRune => "ABC",
        Opcode::ArrayNew => "ABCF",
        Opcode::ArrayGet => "ABCF",
        Opcode::ArraySet => "ABCF",
        Opcode::ArrayAddr => "ABCF",
        Opcode::SliceNew => "ABCF",
        Opcode::SliceGet => "ABCF",
        Opcode::SliceSet => "ABCF",
        Opcode::SliceLen => "AB",
        Opcode::SliceCap => "AB",
        Opcode::SliceAppend => "ABCF",
        Opcode::SliceAddr => "ABCF",
        Opcode::MapNew => "A",
        Opcode::MapGet => "ABC",
        Opcode::MapSet => "ABC",
        Opcode::MapDelete => "AB",
        Opcode::MapLen => "AB",
        Opcode::MapIterInit => "AB",
        Opcode::ChanNew => "ABCF",
        Opcode::ChanSend => "ABF",
        Opcode::ChanClose => "A",
        Opcode::ChanLen => "AB",
        Opcode::ChanCap => "AB",
        Opcode::SelectBegin => "AB",
        Opcode::SelectSend => "AB",
        Opcode::SelectRecv => "AB",
        Opcode::SelectExec => "A",
        Opcode::ClosureGet => "AB",
        Opcode::Panic => "A",
        Opcode::Recover => "A",
        Opcode::IfaceAssign => "ABCF",
        Opcode::IfaceAssert => "ABCF",
        Opcode::IfaceEq => "ABC",
        Opcode::ConvI2F => "AB",
        Opcode::ConvF2I => "AB",
        Opcode::ConvF64F32 => "AB",
        Opcode::ConvF32F64 => "AB",
        Opcode::IndexCheck => "AB",
        Opcode::IslandNew => "A",
        Opcode::PortNew => "ABCF",
        Opcode::PortSend => "ABF",
        Opcode::PortClose => "A",
        Opcode::PortLen => "AB",
        Opcode::PortCap => "AB",
        Opcode::GoIsland => "ABF",
        Opcode::Invalid => "OFABC",
        _ => "",
    }
}

fn small(v: i64, max: i64) -> (r: Option<u64>)
    ensures
        r matches Some(x) ==> x <= max,
{
    if 0 <= v && v <= max {
        Some(v as u64)
    } else {
        None
    }
}

fn blank(opcode: Opcode) -> Instruction {
    Instruction { op: 0, opcode, flags: 0, a: 0, b: 0, c: 0 }
}

/// The fields of an instruction whose text shows `nums` in `shape`'s order.
fn by_shape(opcode: Opcode, nums: &Vec<i64>) -> Option<Instruction> {
    let shape = operand_shape(opcode).as_bytes();
    if nums.len() != shape.len() {
        return None;
    }
    let mut i = blank(opcode);
    let mut k: usize = 0;
    while k < shape.len()
        invariant
            nums@.len() == shape@.len(),
        decreases shape@.len() - k,
    {
        let v = nums[k];
        let s = shape[k];
        if s == 65 {
            i.a = small(v, 65535)? as u16;
        } else if s == 66 {
            i.b = small(v, 65535)? as u16;
        } else if s == 67 {
            i.c = small(v, 65535)? as u16;
        } else if s == 70 {
            i.flags = small(v, 255)? as u8;
        } else if s == 79 {
            i.op = small(v, 255)? as u8;
        } else if s == 73 {
            if v < -2147483648 || v > 2147483647 {
                return None;
            }
            let u = (v as i32) as u32;
            i.b = (u & 0xFFFF) as u16;
            i.c = (u >> 16) as u16;
        } else {
            let u = small(v, 4294967295)? as u32;
            i.b = (u & 0xFFFF) as u16;
            i.c = (u >> 16) as u16;
        }
        k = k + 1;
    }
    Some(i)
}

/// Splits a 24-bit function id into its low 16 bits and its high 8.
fn split_func_id(v: i64) -> Option<(u16, u8)> {
    let f = small(v, 16777215)?;
    Some(((f % 65536) as u16, (f / 65536) as u8))
}

/// The `c` operand that packs argument and result slot counts.
fn slot_pair(arg_slots: i64, ret_slots: i64) -> Option<u16> {
    let hi = small(arg_slots, 255)?;
    let lo = small(ret_slots, 255)?;
    Some((hi * 256 + lo) as u16)
}

/// The instruction whose text is `t` between `from` and `to`.
fn read_instruction(t: &Vec<char>, from: usize, to: usize) -> Option<Instruction>
    requires
        from <= to <= t@.len(),
{
    let mut e = from;
    while e < to && t[e] as u32 != 32
        invariant
            from <= e <= to,
            to <= t@.len(),
        decreases to - e,
    {
        e = e + 1;
    }
    let name = collect(t, from, e);
    let opcode = opcode_named(&chars_of(name.as_str()))?;
    let nums = numbers_in(t, e, to);
    let n = nums.len();
    let mut i = blank(opcode);
    match opcode {
        Opcode::Call => {
            if n != 4 {
                return None;
            }
            let (a, flags) = split_func_id(nums[0])?;
            i.a = a;
            i.flags = flags;
            i.b = small(nums[1], 65535)? as u16;
            i.c = slot_pair(nums[2], nums[3])?;
        },
        Opcode::CallClosure => {
            if n != 4 {
                return None;
            }
            i.a = small(nums[0], 65535)? as u16;
            i.b = small(nums[1], 65535)? as u16;
            i.c = slot_pair(nums[2], nums[3])?;
        },
        Opcode::CallIface => {
            if n != 5 {
                return None;
            }
            i.a = small(nums[0], 65535)? as u16;
            i.b = small(nums[1], 65535)? as u16;
            i.flags = small(nums[2], 255)? as u8;
            i.c = slot_pair(nums[3], nums[4])?;
        },
        Opcode::Return => {
            if n == 2 {
                i.a = small(nums[0], 65535)? as u16;
                i.b = small(nums[1], 65535)? as u16;
            } else if n != 0 {
                return None;
            }
        },
        Opcode::SliceSlice => {
            if n != 3 {
                return None;
            }
            i.a = small(nums[0], 65535)? as u16;
            i.b = small(nums[1], 65535)? as u16;
            i.c = small(nums[2], 65535)? as u16;
            let array: u8 = if holds_lit(t, e, to, "src=array") { 1 } else { 0 };
            let max: u8 = if holds_lit(t, e, to, ", has_max") { 2 } else { 0 };
            i.flags = array + max;
        },
        Opcode::MapIterNext => {
            if n != 5 {
                return None;
            }
            i.a = small(nums[0], 65535)? as u16;
            i.b = small(nums[1], 65535)? as u16;
            i.c = small(nums[2], 65535)? as u16;
            let key = small(nums[3], 15)?;
            let val = small(nums[4], 15)?;
            i.flags = (key + val * 16) as u8;
        },
        Opcode::ClosureNew => {
            if n != 3 {
                return None;
            }
            i.a = small(nums[0], 65535)? as u16;
            let (b, flags) = split_func_id(nums[1])?;
            i.b = b;
            i.flags = flags;
            i.c = small(nums[2], 65535)? as u16;
        },
        Opcode::GoStart | Opcode::DeferPush | Opcode::ErrDeferPush => {
            if n != 3 {
                return None;
            }
            if holds_lit(t, e, to, "closure=") {
                i.a = small(nums[0], 65535)? as u16;
                i.flags = 1;
            } else {
                let f = small(nums[0], 8388607)?;
                i.a = (f % 65536) as u16;
                i.flags = ((f / 65536) * 2) as u8;
            }
            i.b = small(nums[1], 65535)? as u16;
            i.c = small(nums[2], 65535)? as u16;
        },
        Opcode::Trunc => {
            if n < 2 {
                return None;
            }
            i.a = small(nums[0], 65535)? as u16;
            i.b = small(nums[1], 65535)? as u16;
            i.flags = if ends_with_lit(t, e, to, ", i8") {
                0x81
            } else if ends_with_lit(t, e, to, ", i16") {
                0x82
            } else if ends_with_lit(t, e, to, ", i32") {
                0x84
            } else if ends_with_lit(t, e, to, ", u8") {
                0x01
            } else if ends_with_lit(t, e, to, ", u16") {
                0x02
            } else if ends_with_lit(t, e, to, ", u32") {
                0x04
            } else {
                0x03
            };
        },
        Opcode::ChanRecv => {
            if n != 3 {
                return None;
            }
            i.a = small(nums[0], 65535)? as u16;
            i.b = small(nums[1], 65535)? as u16;
            i.flags = (small(nums[2], 127)? * 2) as u8;
        },
        Opcode::PortRecv => {
            if n != 4 {
                return None;
            }
            i.a = small(nums[0], 65535)? as u16;
            i.b = small(nums[1], 65535)? as u16;
            let elem = small(nums[2], 127)?;
            let has_ok = small(nums[3], 1)?;
            i.flags = (elem * 2 + has_ok) as u8;
        },
        Opcode::ForLoop => {
            if n != 4 {
                return None;
            }
            i.a = small(nums[0], 65535)? as u16;
            i.b = small(nums[1], 65535)? as u16;
            if nums[2] < -32768 || nums[2] > 32767 {
                return None;
            }
            i.c = ((nums[2] as i16) as u16);
            i.flags = small(nums[3], 255)? as u8;
        },
        _ => {
            i = by_shape(opcode, &nums)?;
        },
    }
    Some(i)
}

// =============================================================================
// Constants
// =============================================================================

/// The string whose `Debug` text starts at `pos` (at its opening quote),
/// and the position after the closing quote.
fn read_quoted(t: &Vec<char>, pos: usize) -> Option<(String, usize)> {
    let mut i = lit_at(t, pos, "\"")?;
    let mut s = String::new();
    while i < t.len()
        invariant
            i <= t@.len(),
        decreases t@.len() - i,
    {
        let c = t[i];
        if c as u32 == 34 {
            return Some((s, i + 1));
        }
        if c as u32 == 92 {
            if i + 1 >= t.len() {
                return None;
            }
            let e = t[i + 1] as u32;
            if e == 110 {
                push_char(&mut s, '\n');
            } else if e == 116 {
                push_char(&mut s, '\t');
            } else if e == 114 {
                push_char(&mut s, '\r');
            } else if e == 48 {
                push_char(&mut s, '\0');
            } else if e == 92 || e == 34 || e == 39 {
                push_char(&mut s, t[i + 1]);
            } else if e == 117 {
                let open = lit_at(t, i + 2, "{")?;
                let mut j = open;
                let mut code: u32 = 0;
                while j < t.len() && t[j] as u32 != 125
                    invariant
                        open <= j <= t@.len(),
                    decreases t@.len() - j,
                {
                    let h = t[j] as u32;
                    let d = if 48 <= h && h <= 57 {
                        h - 48
                    } else if 97 <= h && h <= 102 {
                        h - 87
                    } else {
                        return None;
                    };
                    if code > 0xFFFFF {
                        return None;
                    }
                    code = code * 16 + d;
                    j = j + 1;
                }
                if j >= t.len() {
                    return None;
                }
                push_char(&mut s, char_of(code)?);
                i = j + 1;
                continue;
            } else {
                return None;
            }
            i = i + 2;
        } else {
            push_char(&mut s, c);
            i = i + 1;
        }
    }
    None
}


// =============================================================================
// Sections
// =============================================================================

fn read_u32(t: &Vec<char>, pos: usize) -> (r: Option<(u32, usize)>)
    ensures
        r matches Some((_, q)) ==> pos < q <= t@.len(),
        forall|n: nat| n <= u32::MAX && #[trigger] holds_at(t@, pos as int, dec(n))
            && !digit_at(t@, pos + dec(n).len())
            ==> r == Some((n as u32, (pos + dec(n).len()) as usize)),
{
    let (v, q) = read_number(t, pos)?;
    if v <= 4294967295 {
        Some((v as u32, q))
    } else {
        None
    }
}

fn read_u8(t: &Vec<char>, pos: usize) -> (r: Option<(u8, usize)>)
    ensures
        r matches Some((_, q)) ==> pos < q <= t@.len(),
        forall|n: nat| n <= u8::MAX && #[trigger] holds_at(t@, pos as int, dec(n))
            && !digit_at(t@, pos + dec(n).len())
            ==> r == Some((n as u8, (pos + dec(n).len()) as usize)),
{
    let (v, q) = read_number(t, pos)?;
    if v <= 255 {
        Some((v as u8, q))
    } else {
        None
    }
}

/// A constant whose entry is proved to read back: any but a string, and a
/// float whose text holds no line break.
pub open spec fn plain_constant(c: Constant) -> bool {
    match c {
        Constant::String(_) => false,
        Constant::Float(x) => lacks(x@, '\n'),
        _ => true,
    }
}

/// The text of a plain constant holds no line break, and its first
/// character tells its kind.
pub proof fn lemma_constant_text(c: Constant)
    requires
        plain_constant(c),
    ensures
        lacks(constant_text(c), '\n'),
        constant_text(c).len() >= 3,
{
    reveal_strlit("nil");
    reveal_strlit("bool ");
    reveal_strlit("true");
    reveal_strlit("false");
    reveal_strlit("int ");
    reveal_strlit("float ");
    let t = constant_text(c);
    match c {
        Constant::Int(i) => {
            lemma_dec_digits(if i < 0 { (-i) as nat } else { i as nat });
            let d = sdec(i as int);
            assert forall|k: int| 0 <= k < d.len() implies d[k] != '\n' by {
                if i < 0 {
                    if k > 0 {
                        assert(d[k] == dec((-i) as nat)[k - 1]);
                    }
                }
            }
            assert forall|k: int| 0 <= k < t.len() implies t[k] != '\n' by {
                if k >= 4 {
                    assert(t[k] == d[k - 4]);
                }
            }
        },
        Constant::Float(x) => {
            assert forall|k: int| 0 <= k < t.len() implies t[k] != '\n' by {
                if k >= 6 {
                    assert(t[k] == x@[k - 6]);
                }
            }
        },
        Constant::Bool(b) => {
            assert forall|k: int| 0 <= k < t.len() implies t[k] != '\n' by {
                if k >= 5 {
                    if b {
                        assert(t[k] == "true"@[k - 5]);
                    } else {
                        assert(t[k] == "false"@[k - 5]);
                    }
                }
            }
        },
        _ => {},
    }
}

/// The constant whose text is `t` between `from` and the end of its line
/// at `to`. The text of a plain constant `c0` that stands there, not
/// followed by a digit, is read back as a constant of the same text.
#[verifier::spinoff_prover]
#[verifier::rlimit(50)]
fn read_constant(t: &Vec<char>, from: usize, to: usize, Ghost(c0): Ghost<Constant>) -> (r: Option<Constant>)
    requires
        from <= to <= t@.len(),
    ensures
        plain_constant(c0) && holds_at(t@, from as int, constant_text(c0))
            && to == from + constant_text(c0).len() && !digit_at(t@, to as int)
            ==> (r matches Some(c) && constant_text(c) == constant_text(c0)),
{
    let ghost hyp = plain_constant(c0) && holds_at(t@, from as int, constant_text(c0))
        && to == from + constant_text(c0).len() && !digit_at(t@, to as int);
    let ghost f = from as int;
    let ghost ct = constant_text(c0);
    proof {
        reveal_strlit("nil");
        reveal_strlit("bool true");
        reveal_strlit("bool false");
        reveal_strlit("bool ");
        reveal_strlit("true");
        reveal_strlit("false");
        reveal_strlit("int ");
        reveal_strlit("float ");
        if hyp {
            lemma_constant_text(c0);
            lemma_holds_first(t@, f, ct);
            match c0 {
                Constant::Bool(b) => {
                    if b {
                        assert(ct =~= "bool true"@);
                    } else {
                        assert(ct =~= "bool false"@);
                        lemma_holds_char(t@, f, ct, 5);
                    }
                },
                Constant::Nil => {
                    assert(ct =~= "nil"@);
                },
                Constant::Int(i) => {
                    lemma_holds_split(t@, f, "int "@, sdec(i as int));
                },
                Constant::Float(x) => {
                    lemma_holds_split(t@, f, "float "@, x@);
                },
                _ => {},
            }
        }
    }
    if lit_at(t, from, "nil") == Some(to) {
        proof {
            if hyp {
                assert(c0 is Nil);
            }
        }
        Some(Constant::Nil)
    } else if lit_at(t, from, "bool true") == Some(to) {
        proof {
            if hyp {
                assert(c0 matches Constant::Bool(b) && b);
            }
        }
        Some(Constant::Bool(true))
    } else if lit_at(t, from, "bool false") == Some(to) {
        proof {
            if hyp {
                assert(c0 matches Constant::Bool(b) && !b);
            }
        }
        Some(Constant::Bool(false))
    } else if let Some(p) = lit_at(t, from, "int ") {
        proof {
            if hyp {
                assert(c0 is Int);
            }
        }
        let (v, q) = read_signed(t, p)?;
        if q == to {
            proof {
                if hyp {
                    assert(c0 matches Constant::Int(i) && i == v);
                }
            }
            Some(Constant::Int(v))
        } else {
            None
        }
    } else if let Some(p) = lit_at(t, from, "float ") {
        if p <= to {
            let x = collect(t, p, to);
            proof {
                if hyp {
                    assert(c0 matches Constant::Float(y) && y@ == x@);
                }
            }
            Some(Constant::Float(x))
        } else {
            None
        }
    } else if let Some(p) = lit_at(t, from, "string ") {
        proof {
            reveal_strlit("string ");
            if hyp {
                lemma_holds_first(t@, f, "string "@);
                assert(false);
            }
        }
        let (s, q) = read_quoted(t, p)?;
        if q == to {
            Some(Constant::String(s))
        } else {
            None
        }
    } else {
        None
    }
}

/// Reads one constant entry at `p`. When `t` holds, at `p`, the entry of a
/// plain constant `c0` under index `k`, the constant read has the same
/// entry, and the position after it is returned.
#[verifier::spinoff_prover]
#[verifier::rlimit(50)]
fn read_constant_entry(t: &Vec<char>, p: usize, Ghost(k): Ghost<nat>, Ghost(c0): Ghost<Constant>) -> (r: Option<(Constant, usize)>)
    ensures
        r matches Some((_, q)) ==> p < q <= t@.len(),
        plain_constant(c0) && k <= u64::MAX && holds_at(t@, p as int, constant_entry(k, c0))
            ==> (r matches Some((c, q)) && q == p + constant_entry(k, c0).len()
                && constant_entry(k, c) == constant_entry(k, c0)),
{
    let ghost hyp = plain_constant(c0) && k <= u64::MAX && holds_at(t@, p as int, constant_entry(k, c0));
    let ghost d0 = dec(k);
    let ghost ct = constant_text(c0);
    let ghost h1 = "# ["@ + d0;
    let ghost h2 = h1 + "] "@;
    let ghost h3 = h2 + ct;
    let ghost h4 = h3 + "\n"@;
    let ghost pi = p as int;
    proof {
        reveal_strlit("# [");
        reveal_strlit("] ");
        reveal_strlit("\n");
        if hyp {
            assert(constant_entry(k, c0) == h4);
            lemma_holds_split(t@, pi, h3, "\n"@);
            lemma_holds_split(t@, pi, h2, ct);
            lemma_holds_split(t@, pi, h1, "] "@);
            lemma_holds_split(t@, pi, "# ["@, d0);
            lemma_holds_first(t@, pi + h1.len(), "] "@);
            lemma_holds_first(t@, pi + h3.len(), "\n"@);
            assert(!digit_at(t@, pi + h1.len()));
            assert(!digit_at(t@, pi + h3.len()));
            lemma_constant_text(c0);
            lemma_no_occurrence(t@, pi + h2.len(), ct, "\n"@, '\n');
        }
    }
    let q = lit_at(t, p, "# [")?;
    proof {
        if hyp {
            assert(q == pi + 3);
            assert(holds_at(t@, q as int, d0));
        }
    }
    let rn = read_number(t, q);
    proof {
        if hyp {
            assert(rn == Some((k as u64, (q + d0.len()) as usize)));
        }
    }
    let (_, q) = rn?;
    proof {
        if hyp {
            reveal_strlit("# [");
            assert(h1.len() == 3 + d0.len());
            assert(t@.len() == t.len());
            assert(pi + h4.len() <= t@.len());
            assert(q == pi + h1.len());
        }
    }
    let q = lit_at(t, q, "] ")?;
    proof {
        if hyp {
            reveal_strlit("] ");
            assert(q == pi + h2.len());
        }
    }
    let (_, end) = read_until(t, q, "\n")?;
    proof {
        if hyp {
            assert(end == pi + h3.len());
        }
    }
    let c = read_constant(t, q, end, Ghost(c0))?;
    let q = lit_at(t, end, "\n")?;
    proof {
        if hyp {
            assert(constant_entry(k, c) =~= constant_entry(k, c0));
        }
    }
    Some((c, q))
}

/// The entries of the first `i` constants start the entries of the first
/// `n`.
proof fn lemma_constant_entries_prefix(xs: Seq<Constant>, i: nat, n: nat)
    requires
        i <= n,
    ensures
        constant_entries(xs, i).len() <= constant_entries(xs, n).len(),
        constant_entries(xs, n).subrange(0, constant_entries(xs, i).len() as int) == constant_entries(xs, i),
    decreases n - i,
{
    if i < n {
        lemma_constant_entries_prefix(xs, i, (n - 1) as nat);
        let a = constant_entries(xs, (n - 1) as nat);
        let b = constant_entry((n - 1) as nat, xs[n - 1]);
        assert(constant_entries(xs, n) == a + b);
        assert((a + b).subrange(0, constant_entries(xs, i).len() as int) =~= a.subrange(0, constant_entries(xs, i).len() as int));
    } else {
        assert(constant_entries(xs, n).subrange(0, constant_entries(xs, n).len() as int) =~= constant_entries(xs, n));
    }
}

/// The entries of the first `n` constants depend on those alone.
proof fn lemma_constant_entries_same(xs: Seq<Constant>, ys: Seq<Constant>, n: nat)
    requires
        n <= xs.len(),
        n <= ys.len(),
        forall|j: int| 0 <= j < n ==> constant_entry(j as nat, #[trigger] xs[j]) == constant_entry(j as nat, ys[j]),
    ensures
        constant_entries(xs, n) == constant_entries(ys, n),
    decreases n,
{
    if n > 0 {
        lemma_constant_entries_same(xs, ys, (n - 1) as nat);
        assert(constant_entry((n - 1) as nat, xs[n - 1]) == constant_entry((n - 1) as nat, ys[n - 1]));
    }
}

/// Each constant entry starts with `# [`, so the entries of `n` of them
/// hold at least `n` characters.
proof fn lemma_constant_entries_len(xs: Seq<Constant>, n: nat)
    ensures
        constant_entries(xs, n).len() >= n,
    decreases n,
{
    reveal_strlit("# [");
    if n > 0 {
        lemma_constant_entries_len(xs, (n - 1) as nat);
    }
}

/// Reads constant entries from `pos` while lines start with `# [`. When `t`
/// holds, at `pos`, the entries of plain constants `xs` followed by a blank
/// line, the entries read are the same entries, appended to `out`, and the
/// position after them is returned.
fn read_constants(t: &Vec<char>, pos: usize, out: &mut Vec<Constant>, Ghost(xs): Ghost<Seq<Constant>>) -> (r: Option<usize>)
    ensures
        r matches Some(q) ==> pos <= q <= t@.len(),
        old(out)@.len() == 0 && (forall|j: int| 0 <= j < xs.len() ==> plain_constant(#[trigger] xs[j]))
            && holds_at(t@, pos as int, constant_entries(xs, xs.len()) + "\n"@)
            ==> (r == Some((pos + constant_entries(xs, xs.len()).len()) as usize)
                && final(out)@.len() == xs.len()
                && constant_entries(final(out)@, xs.len()) == constant_entries(xs, xs.len())),
{
    let ghost hyp = old(out)@.len() == 0 && (forall|j: int| 0 <= j < xs.len() ==> plain_constant(#[trigger] xs[j]))
        && holds_at(t@, pos as int, constant_entries(xs, xs.len()) + "\n"@);
    let ghost all = constant_entries(xs, xs.len());
    proof {
        reveal_strlit("# [");
        reveal_strlit("\n");
        if hyp {
            lemma_holds_split(t@, pos as int, all, "\n"@);
        }
    }
    let mut p = pos;
    if pos > t.len() {
        return None;
    }
    while p < t.len() && lit_at(t, p, "# [").is_some()
        invariant
            pos <= p <= t@.len(),
            hyp == (old(out)@.len() == 0 && (forall|j: int| 0 <= j < xs.len() ==> plain_constant(#[trigger] xs[j]))
                && holds_at(t@, pos as int, constant_entries(xs, xs.len()) + "\n"@)),
            all == constant_entries(xs, xs.len()),
            hyp ==> holds_at(t@, pos as int, all) && holds_at(t@, pos + all.len(), "\n"@),
            hyp ==> out@.len() <= xs.len(),
            hyp ==> p == pos + constant_entries(xs, out@.len()).len(),
            hyp ==> constant_entries(out@, out@.len()) == constant_entries(xs, out@.len()),
        decreases t@.len() - p,
    {
        let ghost i = out@.len();
        let ghost x = if i < xs.len() { xs[i as int] } else { xs[0] };
        proof {
            if hyp {
                let n = xs.len();
                reveal_strlit("\n");
                reveal_strlit("# [");
                if i == n {
                    lemma_holds_first(t@, p as int, "\n"@);
                    lemma_holds_first(t@, p as int, "# ["@);
                    assert(false);
                }
                lemma_constant_entries_prefix(xs, (i + 1) as nat, n);
                lemma_constant_entries_len(xs, i);
                let before = constant_entries(xs, i);
                let upto = constant_entries(xs, (i + 1) as nat);
                assert(upto == before + constant_entry(i, x));
                assert(holds_at(t@, pos as int, upto)) by {
                    assert(t@.subrange(pos as int, pos + upto.len()) =~= all.subrange(0, upto.len() as int));
                }
                lemma_holds_split(t@, pos as int, before, constant_entry(i, x));
                assert(plain_constant(x));
                assert(i <= p);
                assert(p <= t.len());
            }
        }
        let (g, q) = read_constant_entry(t, p, Ghost(i), Ghost(x))?;
        let ghost before_out = out@;
        out.push(g);
        p = q;
        proof {
            if hyp {
                assert(constant_entries(out@, out@.len()) == constant_entries(out@, i) + constant_entry(i, g));
                lemma_constant_entries_same(out@, before_out, i);
                assert(constant_entries(out@, out@.len()) == constant_entries(xs, out@.len()));
            }
        }
    }
    proof {
        if hyp {
            let n = xs.len();
            let i = out@.len();
            if i < n {
                lemma_constant_entries_prefix(xs, (i + 1) as nat, n);
                let before = constant_entries(xs, i);
                let x = xs[i as int];
                let upto = constant_entries(xs, (i + 1) as nat);
                assert(upto == before + constant_entry(i, x));
                assert(holds_at(t@, pos as int, upto)) by {
                    assert(t@.subrange(pos as int, pos + upto.len()) =~= all.subrange(0, upto.len() as int));
                }
                lemma_holds_split(t@, pos as int, before, constant_entry(i, x));
                let e = constant_entry(i, x);
                assert(e == "# ["@ + dec(i) + "] "@ + constant_text(x) + "\n"@);
                assert(e.subrange(0, 3) =~= "# ["@);
                assert(holds_at(t@, p as int, "# ["@)) by {
                    assert(t@.subrange(p as int, p + 3) =~= e.subrange(0, 3));
                }
                assert(false);
            }
        }
    }
    Some(p)
}

/// The line of field `f` in a struct type's entry.
pub open spec fn field_line(f: FieldMeta) -> Seq<char> {
    "#   "@ + f.name@ + ": offset="@ + dec(f.offset as nat) + ", slots="@ + dec(f.slot_count as nat) + "\n"@
}

/// The field lines of the first `i` fields start those of the first `n`,
/// and each adds one field's line.
proof fn lemma_field_lines_prefix(xs: Seq<FieldMeta>, i: nat, n: nat)
    requires
        i <= n,
    ensures
        field_lines(xs, i).len() <= field_lines(xs, n).len(),
        field_lines(xs, n).subrange(0, field_lines(xs, i).len() as int) == field_lines(xs, i),
        i < n ==> field_lines(xs, (i + 1) as nat) == field_lines(xs, i) + field_line(xs[i as int]),
    decreases n - i,
{
    if i < n {
        assert(field_lines(xs, (i + 1) as nat) =~= field_lines(xs, i) + field_line(xs[i as int]));
        lemma_field_lines_prefix(xs, i, (n - 1) as nat);
        let a = field_lines(xs, (n - 1) as nat);
        let b = field_line(xs[n - 1]);
        assert(field_lines(xs, n) =~= a + b);
        assert((a + b).subrange(0, field_lines(xs, i).len() as int) =~= a.subrange(0, field_lines(xs, i).len() as int));
    } else {
        assert(field_lines(xs, n).subrange(0, field_lines(xs, n).len() as int) =~= field_lines(xs, n));
    }
}

/// The field lines of the first `n` fields depend on those lines alone.
proof fn lemma_field_lines_same(xs: Seq<FieldMeta>, ys: Seq<FieldMeta>, n: nat)
    requires
        n <= xs.len(),
        n <= ys.len(),
        forall|j: int| 0 <= j < n ==> field_line(#[trigger] xs[j]) == field_line(ys[j]),
    ensures
        field_lines(xs, n) == field_lines(ys, n),
    decreases n,
{
    if n > 0 {
        lemma_field_lines_same(xs, ys, (n - 1) as nat);
        assert(field_line(xs[n - 1]) == field_line(ys[n - 1]));
        assert(field_lines(xs, n) =~= field_lines(xs, (n - 1) as nat) + field_line(xs[n - 1]));
        assert(field_lines(ys, n) =~= field_lines(ys, (n - 1) as nat) + field_line(ys[n - 1]));
    }
}

/// Reads one field line at `p`. When `t` holds the line of a field `f`
/// whose name holds no line break there, a field with the same line is
/// read, and the position after the line is returned. The name runs up to
/// the last `:` of the line.
#[verifier::spinoff_prover]
#[verifier::rlimit(80)]
fn read_field(t: &Vec<char>, p: usize, Ghost(f): Ghost<FieldMeta>) -> (r: Option<(FieldMeta, usize)>)
    ensures
        r matches Some((_, q)) ==> p < q <= t@.len(),
        lacks(f.name@, '\n') && holds_at(t@, p as int, field_line(f))
            ==> (r matches Some((g, q)) && q == p + field_line(f).len() && field_line(g) == field_line(f)),
{
    let ghost hyp = lacks(f.name@, '\n') && holds_at(t@, p as int, field_line(f));
    let ghost n = f.name@;
    let ghost d1 = dec(f.offset as nat);
    let ghost d2 = dec(f.slot_count as nat);
    let ghost h2 = "#   "@;
    let ghost h3 = h2 + n;
    let ghost h4 = h3 + ": offset="@;
    let ghost h5 = h4 + d1;
    let ghost h6 = h5 + ", slots="@;
    let ghost h7 = h6 + d2;
    let ghost h8 = h7 + "\n"@;
    let ghost pi = p as int;
    proof {
        reveal_strlit("#   ");
        reveal_strlit(": offset=");
        reveal_strlit(", slots=");
        reveal_strlit("\n");
        if hyp {
            assert(field_line(f) == h8);
            lemma_holds_split(t@, pi, h7, "\n"@);
            lemma_holds_split(t@, pi, h6, d2);
            lemma_holds_split(t@, pi, h5, ", slots="@);
            lemma_holds_split(t@, pi, h4, d1);
            lemma_holds_split(t@, pi, h3, ": offset="@);
            lemma_holds_split(t@, pi, h2, n);
            lemma_holds_first(t@, pi + h5.len(), ", slots="@);
            lemma_holds_first(t@, pi + h7.len(), "\n"@);
            lemma_holds_first(t@, pi + h3.len(), ": offset="@);
            lemma_dec_digits(f.offset as nat);
            lemma_dec_digits(f.slot_count as nat);
            assert(!digit_at(t@, pi + h5.len()));
            assert(!digit_at(t@, pi + h7.len()));
            assert forall|j: int| pi + h3.len() < j < pi + h7.len() implies t@[j] != ':' && t@[j] != '\n' by {
                if j < pi + h4.len() {
                    assert(t@[j] == t@.subrange(pi + h3.len(), pi + h4.len())[j - pi - h3.len()]);
                } else if j < pi + h5.len() {
                    assert(t@[j] == t@.subrange(pi + h4.len(), pi + h5.len())[j - pi - h4.len()]);
                    assert(digit(d1[j - pi - h4.len()]));
                } else if j < pi + h6.len() {
                    assert(t@[j] == t@.subrange(pi + h5.len(), pi + h6.len())[j - pi - h5.len()]);
                } else {
                    assert(t@[j] == t@.subrange(pi + h6.len(), pi + h7.len())[j - pi - h6.len()]);
                    assert(digit(d2[j - pi - h6.len()]));
                }
            }
            assert forall|j: int| pi + h2.len() <= j <= pi + h3.len() implies t@[j] != '\n' by {
                if j < pi + h3.len() {
                    assert(t@[j] == t@.subrange(pi + h2.len(), pi + h3.len())[j - pi - h2.len()]);
                }
            }
            assert forall|j: int| pi + h2.len() <= j < pi + h7.len() implies !holds_at(t@, j, "\n"@) by {
                if holds_at(t@, j, "\n"@) {
                    lemma_holds_first(t@, j, "\n"@);
                }
            }
        }
    }
    let q = lit_at(t, p, "#   ")?;
    proof {
        if hyp {
            assert(q == pi + h2.len());
            assert(t@.len() == t.len());
        }
    }
    let (_, end) = read_until(t, q, "\n")?;
    proof {
        if hyp {
            assert(end == pi + h7.len());
        }
    }
    let mut j = end;
    while j > q && t[j - 1] != ':'
        invariant
            q <= j <= end,
            end <= t@.len(),
            hyp == (lacks(f.name@, '\n') && holds_at(t@, p as int, field_line(f))),
            hyp ==> q == pi + h2.len() && end == pi + h7.len() && j >= pi + h3.len() + 1
                && t@[pi + h3.len()] == ':'
                && (forall|i: int| pi + h3.len() < i < pi + h7.len() ==> t@[i] != ':'),
        decreases j,
    {
        proof {
            if hyp {
                assert(t@[j - 1] != ':');
                assert(j - 1 != pi + h3.len());
            }
        }
        j = j - 1;
    }
    if j == q {
        return None;
    }
    proof {
        if hyp {
            assert(j == pi + h3.len() + 1);
        }
    }
    let name = collect(t, q, j - 1);
    let r = lit_at(t, j - 1, ": offset=")?;
    proof {
        if hyp {
            reveal_strlit(": offset=");
            assert(r == pi + h4.len());
            assert(holds_at(t@, r as int, d1));
        }
    }
    let (offset, r) = read_u32(t, r)?;
    proof {
        if hyp {
            assert(r == pi + h5.len() && offset == f.offset);
        }
    }
    let r = lit_at(t, r, ", slots=")?;
    proof {
        if hyp {
            reveal_strlit(", slots=");
            assert(r == pi + h6.len());
            assert(holds_at(t@, r as int, d2));
        }
    }
    let (slot_count, r) = read_u32(t, r)?;
    if r != end {
        return None;
    }
    let g = FieldMeta { name, offset, slot_count };
    let q = lit_at(t, r, "\n")?;
    proof {
        if hyp {
            assert(slot_count == f.slot_count);
            assert(g.name@ == n);
            assert(field_line(g) =~= field_line(f));
        }
    }
    Some((g, q))
}

/// A struct type whose entry is proved to read back: no field name holds a
/// line break.
pub open spec fn plain_struct(x: StructMeta) -> bool {
    forall|j: int| 0 <= j < x.fields@.len() ==> lacks(#[trigger] x.fields@[j].name@, '\n')
}

/// Reads one struct-type entry at `p`. When `t` holds, at `p`, the entry of
/// a plain struct type `x` under index `k`, and no field line follows it,
/// a struct type with the same entry is read, and the position after the
/// entry is returned.
#[verifier::spinoff_prover]
#[verifier::rlimit(80)]
fn read_struct(t: &Vec<char>, p: usize, Ghost(k): Ghost<nat>, Ghost(x): Ghost<StructMeta>) -> (r: Option<(StructMeta, usize)>)
    ensures
        r matches Some((_, q)) ==> p < q <= t@.len(),
        plain_struct(x) && k <= u64::MAX && holds_at(t@, p as int, struct_entry(k, x))
            && !holds_at(t@, p + struct_entry(k, x).len(), "#   "@)
            ==> (r matches Some((g, q)) && q == p + struct_entry(k, x).len()
                && struct_entry(k, g) == struct_entry(k, x)),
{
    let ghost hyp = plain_struct(x) && k <= u64::MAX && holds_at(t@, p as int, struct_entry(k, x))
        && !holds_at(t@, p + struct_entry(k, x).len(), "#   "@);
    let ghost fs = x.fields@;
    let ghost d0 = dec(k);
    let ghost d1 = dec(x.slot_count as nat);
    let ghost h1 = "# ["@ + d0;
    let ghost h2 = h1 + "] ("@;
    let ghost h3 = h2 + d1;
    let ghost h4 = h3 + " slots)\n"@;
    let ghost lines = field_lines(fs, fs.len());
    let ghost pi = p as int;
    let ghost base = pi + h4.len();
    proof {
        reveal_strlit("# [");
        reveal_strlit("] (");
        reveal_strlit(" slots)\n");
        reveal_strlit("] ");
        reveal_strlit("(");
        if hyp {
            assert(struct_entry(k, x) == h4 + lines);
            lemma_holds_split(t@, pi, h4, lines);
            lemma_holds_split(t@, pi, h3, " slots)\n"@);
            lemma_holds_split(t@, pi, h2, d1);
            lemma_holds_split(t@, pi, h1, "] ("@);
            lemma_holds_split(t@, pi, "# ["@, d0);
            lemma_holds_first(t@, pi + h1.len(), "] ("@);
            lemma_holds_first(t@, pi + h3.len(), " slots)\n"@);
            assert(!digit_at(t@, pi + h1.len()));
            assert(!digit_at(t@, pi + h3.len()));
            assert("] ("@ =~= "] "@ + "("@);
            lemma_holds_split(t@, pi + h1.len(), "] "@, "("@);
        }
    }
    let q = lit_at(t, p, "# [")?;
    proof {
        if hyp {
            assert(q == pi + 3);
            assert(holds_at(t@, q as int, d0));
        }
    }
    let rn = read_number(t, q);
    proof {
        if hyp {
            assert(rn == Some((k as u64, (q + d0.len()) as usize)));
        }
    }
    let (_, q) = rn?;
    proof {
        if hyp {
            reveal_strlit("# [");
            assert(h1.len() == 3 + d0.len());
            assert(t@.len() == t.len());
            assert(pi + h4.len() + lines.len() <= t@.len());
            assert(q == pi + h1.len());
        }
    }
    let q = lit_at(t, q, "] ")?;
    let q = lit_at(t, q, "(")?;
    proof {
        if hyp {
            reveal_strlit("] ");
            reveal_strlit("(");
            assert(q == pi + h2.len());
            assert(holds_at(t@, q as int, d1));
        }
    }
    let (slot_count, q) = read_u32(t, q)?;
    let mut q = lit_at(t, q, " slots)\n")?;
    proof {
        if hyp {
            reveal_strlit(" slots)\n");
            assert(slot_count == x.slot_count);
            assert(q == base);
        }
    }
    let mut fields: Vec<FieldMeta> = Vec::new();
    while q < t.len() && lit_at(t, q, "#   ").is_some()
        invariant
            p < q <= t@.len(),
            hyp == (plain_struct(x) && k <= u64::MAX && holds_at(t@, p as int, struct_entry(k, x))
                && !holds_at(t@, p + struct_entry(k, x).len(), "#   "@)),
            hyp ==> holds_at(t@, base, lines) && !holds_at(t@, base + lines.len(), "#   "@),
            hyp ==> lines == field_lines(fs, fs.len()) && fs == x.fields@,
            hyp ==> forall|j: int| 0 <= j < fs.len() ==> lacks(#[trigger] fs[j].name@, '\n'),
            hyp ==> fields@.len() <= fs.len(),
            hyp ==> q == base + field_lines(fs, fields@.len()).len(),
            hyp ==> field_lines(fields@, fields@.len()) == field_lines(fs, fields@.len()),
        decreases t@.len() - q,
    {
        let ghost i = fields@.len();
        let ghost f = if i < fs.len() { fs[i as int] } else { fs[0] };
        proof {
            if hyp {
                if i == fs.len() {
                    assert(false);
                }
                lemma_field_lines_prefix(fs, i, fs.len());
                let before = field_lines(fs, i);
                let upto = field_lines(fs, (i + 1) as nat);
                lemma_field_lines_prefix(fs, (i + 1) as nat, fs.len());
                assert(holds_at(t@, base, upto)) by {
                    assert(t@.subrange(base, base + upto.len()) =~= lines.subrange(0, upto.len() as int));
                }
                lemma_holds_split(t@, base, before, field_line(f));
                assert(lacks(f.name@, '\n'));
            }
        }
        let (g, r) = read_field(t, q, Ghost(f))?;
        let ghost before_fields = fields@;
        fields.push(g);
        q = r;
        proof {
            if hyp {
                lemma_field_lines_prefix(fields@, i, fields@.len());
                lemma_field_lines_same(fields@, before_fields, i);
                lemma_field_lines_prefix(fs, i, fs.len());
                assert(field_lines(fields@, fields@.len()) == field_lines(fs, fields@.len()));
            }
        }
    }
    let g = StructMeta { slot_count, fields };
    proof {
        if hyp {
            reveal_strlit("#   ");
            let i = g.fields@.len();
            if i < fs.len() {
                lemma_field_lines_prefix(fs, i, fs.len());
                let before = field_lines(fs, i);
                let upto = field_lines(fs, (i + 1) as nat);
                lemma_field_lines_prefix(fs, (i + 1) as nat, fs.len());
                assert(holds_at(t@, base, upto)) by {
                    assert(t@.subrange(base, base + upto.len()) =~= lines.subrange(0, upto.len() as int));
                }
                lemma_holds_split(t@, base, before, field_line(fs[i as int]));
                assert(field_line(fs[i as int]) =~= "#   "@ + (fs[i as int].name@ + ": offset="@
                    + dec(fs[i as int].offset as nat) + ", slots="@ + dec(fs[i as int].slot_count as nat) + "\n"@));
                lemma_holds_split(t@, q as int, "#   "@, fs[i as int].name@ + ": offset="@
                    + dec(fs[i as int].offset as nat) + ", slots="@ + dec(fs[i as int].slot_count as nat) + "\n"@);
                assert(false);
            }
            lemma_field_lines_prefix(fs, fs.len(), fs.len());
            assert(struct_entry(k, g) =~= struct_entry(k, x));
        }
    }
    Some((g, q))
}

/// The entries of the first `i` struct types start the entries of the
/// first `n`.
proof fn lemma_struct_entries_prefix(xs: Seq<StructMeta>, i: nat, n: nat)
    requires
        i <= n,
    ensures
        struct_entries(xs, i).len() <= struct_entries(xs, n).len(),
        struct_entries(xs, n).subrange(0, struct_entries(xs, i).len() as int) == struct_entries(xs, i),
    decreases n - i,
{
    if i < n {
        lemma_struct_entries_prefix(xs, i, (n - 1) as nat);
        let a = struct_entries(xs, (n - 1) as nat);
        let b = struct_entry((n - 1) as nat, xs[n - 1]);
        assert(struct_entries(xs, n) == a + b);
        assert((a + b).subrange(0, struct_entries(xs, i).len() as int) =~= a.subrange(0, struct_entries(xs, i).len() as int));
    } else {
        assert(struct_entries(xs, n).subrange(0, struct_entries(xs, n).len() as int) =~= struct_entries(xs, n));
    }
}

/// The entries of the first `n` struct types depend on those alone.
proof fn lemma_struct_entries_same(xs: Seq<StructMeta>, ys: Seq<StructMeta>, n: nat)
    requires
        n <= xs.len(),
        n <= ys.len(),
        forall|j: int| 0 <= j < n ==> struct_entry(j as nat, #[trigger] xs[j]) == struct_entry(j as nat, ys[j]),
    ensures
        struct_entries(xs, n) == struct_entries(ys, n),
    decreases n,
{
    if n > 0 {
        lemma_struct_entries_same(xs, ys, (n - 1) as nat);
        assert(struct_entry((n - 1) as nat, xs[n - 1]) == struct_entry((n - 1) as nat, ys[n - 1]));
    }
}

/// Each struct-type entry starts with `# [`, so the entries of `n` of them
/// hold at least `n` characters.
proof fn lemma_struct_entries_len(xs: Seq<StructMeta>, n: nat)
    ensures
        struct_entries(xs, n).len() >= n,
    decreases n,
{
    reveal_strlit("# [");
    if n > 0 {
        lemma_struct_entries_len(xs, (n - 1) as nat);
    }
}

/// Reads struct-type entries from `pos` while lines start with `# [`. When
/// `t` holds, at `pos`, the entries of plain struct types `xs` followed by
/// a blank line, the entries read are the same entries, appended to `out`,
/// and the position after them is returned.
fn read_struct_types(t: &Vec<char>, pos: usize, out: &mut Vec<StructMeta>, Ghost(xs): Ghost<Seq<StructMeta>>) -> (r: Option<usize>)
    ensures
        r matches Some(q) ==> pos <= q <= t@.len(),
        old(out)@.len() == 0 && (forall|j: int| 0 <= j < xs.len() ==> plain_struct(#[trigger] xs[j]))
            && holds_at(t@, pos as int, struct_entries(xs, xs.len()) + "\n"@)
            ==> (r == Some((pos + struct_entries(xs, xs.len()).len()) as usize)
                && final(out)@.len() == xs.len()
                && struct_entries(final(out)@, xs.len()) == struct_entries(xs, xs.len())),
{
    let ghost hyp = old(out)@.len() == 0 && (forall|j: int| 0 <= j < xs.len() ==> plain_struct(#[trigger] xs[j]))
        && holds_at(t@, pos as int, struct_entries(xs, xs.len()) + "\n"@);
    let ghost all = struct_entries(xs, xs.len());
    proof {
        reveal_strlit("# [");
        reveal_strlit("\n");
        if hyp {
            lemma_holds_split(t@, pos as int, all, "\n"@);
        }
    }
    let mut p = pos;
    if pos > t.len() {
        return None;
    }
    while p < t.len() && lit_at(t, p, "# [").is_some()
        invariant
            pos <= p <= t@.len(),
            hyp == (old(out)@.len() == 0 && (forall|j: int| 0 <= j < xs.len() ==> plain_struct(#[trigger] xs[j]))
                && holds_at(t@, pos as int, struct_entries(xs, xs.len()) + "\n"@)),
            all == struct_entries(xs, xs.len()),
            hyp ==> holds_at(t@, pos as int, all) && holds_at(t@, pos + all.len(), "\n"@),
            hyp ==> out@.len() <= xs.len(),
            hyp ==> p == pos + struct_entries(xs, out@.len()).len(),
            hyp ==> struct_entries(out@, out@.len()) == struct_entries(xs, out@.len()),
        decreases t@.len() - p,
    {
        let ghost i = out@.len();
        let ghost x = if i < xs.len() { xs[i as int] } else { xs[0] };
        proof {
            if hyp {
                let n = xs.len();
                reveal_strlit("\n");
                reveal_strlit("# [");
                if i == n {
                    lemma_holds_first(t@, p as int, "\n"@);
                    lemma_holds_first(t@, p as int, "# ["@);
                    assert(false);
                }
                lemma_struct_entries_prefix(xs, (i + 1) as nat, n);
                lemma_struct_entries_len(xs, i);
                let before = struct_entries(xs, i);
                let upto = struct_entries(xs, (i + 1) as nat);
                assert(upto == before + struct_entry(i, x));
                assert(holds_at(t@, pos as int, upto)) by {
                    assert(t@.subrange(pos as int, pos + upto.len()) =~= all.subrange(0, upto.len() as int));
                }
                lemma_holds_split(t@, pos as int, before, struct_entry(i, x));
                assert(plain_struct(x));
                let next = p + struct_entry(i, x).len();
                reveal_strlit("#   ");
                if i + 1 < n {
                    lemma_struct_entries_prefix(xs, (i + 2) as nat, n);
                    let upto2 = struct_entries(xs, (i + 2) as nat);
                    let x2 = xs[(i + 1) as int];
                    assert(upto2 == upto + struct_entry((i + 1) as nat, x2));
                    assert(holds_at(t@, pos as int, upto2)) by {
                        assert(t@.subrange(pos as int, pos + upto2.len()) =~= all.subrange(0, upto2.len() as int));
                    }
                    lemma_holds_split(t@, pos as int, upto, struct_entry((i + 1) as nat, x2));
                    let e2 = struct_entry((i + 1) as nat, x2);
                    assert(e2 == "# ["@ + dec((i + 1) as nat) + "] ("@ + dec(x2.slot_count as nat) + " slots)\n"@
                        + field_lines(x2.fields@, x2.fields@.len()));
                    lemma_holds_char(t@, next, e2, 2);
                    if holds_at(t@, next, "#   "@) {
                        lemma_holds_char(t@, next, "#   "@, 2);
                    }
                } else {
                    assert(next == pos + all.len());
                    lemma_holds_first(t@, next, "\n"@);
                    if holds_at(t@, next, "#   "@) {
                        lemma_holds_first(t@, next, "#   "@);
                    }
                }
                assert(i <= p);
                assert(p <= t.len());
            }
        }
        let (g, q) = read_struct(t, p, Ghost(i), Ghost(x))?;
        let ghost before_out = out@;
        out.push(g);
        p = q;
        proof {
            if hyp {
                assert(struct_entries(out@, out@.len()) == struct_entries(out@, i) + struct_entry(i, g));
                lemma_struct_entries_same(out@, before_out, i);
                assert(struct_entries(out@, out@.len()) == struct_entries(xs, out@.len()));
            }
        }
    }
    proof {
        if hyp {
            let n = xs.len();
            let i = out@.len();
            if i < n {
                lemma_struct_entries_prefix(xs, (i + 1) as nat, n);
                let before = struct_entries(xs, i);
                let x = xs[i as int];
                let upto = struct_entries(xs, (i + 1) as nat);
                assert(upto == before + struct_entry(i, x));
                assert(holds_at(t@, pos as int, upto)) by {
                    assert(t@.subrange(pos as int, pos + upto.len()) =~= all.subrange(0, upto.len() as int));
                }
                lemma_holds_split(t@, pos as int, before, struct_entry(i, x));
                let e = struct_entry(i, x);
                assert(e == "# ["@ + dec(i) + "] ("@ + dec(x.slot_count as nat) + " slots)\n"@
                    + field_lines(x.fields@, x.fields@.len()));
                assert(e.subrange(0, 3) =~= "# ["@);
                assert(holds_at(t@, p as int, "# ["@)) by {
                    assert(t@.subrange(p as int, p + 3) =~= e.subrange(0, 3));
                }
                assert(false);
            }
        }
    }
    Some(p)
}
/// What a method of a named type shows before `=func_`: a `*` for a
/// pointer receiver, then its name.
pub open spec fn method_piece(mi: (String, MethodInfo)) -> Seq<char> {
    (if mi.1.is_pointer_receiver { "*"@ } else { ""@ }) + mi.0@
}

/// The item that a method of a named type adds to its methods line.
pub open spec fn method_item(mi: (String, MethodInfo)) -> Seq<char> {
    " "@ + method_piece(mi) + "=func_"@ + dec(mi.1.func_id as nat)
}

/// The items of the first `i` methods start those of the first `n`, and
/// each adds one method's item.
proof fn lemma_method_lines_prefix(xs: Seq<(String, MethodInfo)>, i: nat, n: nat)
    requires
        i <= n,
    ensures
        method_lines(xs, i).len() <= method_lines(xs, n).len(),
        method_lines(xs, n).subrange(0, method_lines(xs, i).len() as int) == method_lines(xs, i),
        i < n ==> method_lines(xs, (i + 1) as nat) == method_lines(xs, i) + method_item(xs[i as int]),
    decreases n - i,
{
    if i < n {
        assert(method_lines(xs, (i + 1) as nat) =~= method_lines(xs, i) + method_item(xs[i as int]));
        lemma_method_lines_prefix(xs, i, (n - 1) as nat);
        let a = method_lines(xs, (n - 1) as nat);
        let b = method_item(xs[n - 1]);
        assert(method_lines(xs, n) =~= a + b);
        assert((a + b).subrange(0, method_lines(xs, i).len() as int) =~= a.subrange(0, method_lines(xs, i).len() as int));
    } else {
        assert(method_lines(xs, n).subrange(0, method_lines(xs, n).len() as int) =~= method_lines(xs, n));
    }
}

/// The items of the first `n` methods depend on those items alone.
proof fn lemma_method_lines_same(xs: Seq<(String, MethodInfo)>, ys: Seq<(String, MethodInfo)>, n: nat)
    requires
        n <= xs.len(),
        n <= ys.len(),
        forall|j: int| 0 <= j < n ==> method_item(#[trigger] xs[j]) == method_item(ys[j]),
    ensures
        method_lines(xs, n) == method_lines(ys, n),
    decreases n,
{
    if n > 0 {
        lemma_method_lines_same(xs, ys, (n - 1) as nat);
        assert(method_item(xs[n - 1]) == method_item(ys[n - 1]));
        assert(method_lines(xs, n) =~= method_lines(xs, (n - 1) as nat) + method_item(xs[n - 1]));
        assert(method_lines(ys, n) =~= method_lines(ys, (n - 1) as nat) + method_item(ys[n - 1]));
    }
}

/// A named type whose entry is proved to read back: its name holds no line
/// break and no method's name holds `=`.
pub open spec fn plain_named(x: NamedTypeMeta) -> bool {
    &&& lacks(x.name@, '\n')
    &&& forall|j: int| 0 <= j < x.methods@.len() ==> lacks(#[trigger] x.methods@[j].0@, '=')
}

/// The header line of named type `x` under index `k`.
pub open spec fn named_header(k: nat, x: NamedTypeMeta) -> Seq<char> {
    "# ["@ + dec(k) + "] "@ + x.name@ + " (underlying: meta_id="@ + dec(x.underlying_meta_id as nat)
        + ", vk="@ + dec(x.underlying_value_kind as nat) + ")\n"@
}

/// Reads the header line of a named type at `p`: its name, underlying meta
/// id and value kind, and the position after the line.
#[verifier::spinoff_prover]
#[verifier::rlimit(80)]
fn read_named_header(t: &Vec<char>, p: usize, Ghost(k): Ghost<nat>, Ghost(x): Ghost<NamedTypeMeta>) -> (r: Option<(String, u32, u8, usize)>)
    ensures
        r matches Some((_, _, _, q)) ==> p < q <= t@.len(),
        lacks(x.name@, '\n') && k <= u64::MAX && holds_at(t@, p as int, named_header(k, x))
            ==> (r matches Some((nm, meta, vk, q)) && nm@ == x.name@ && meta == x.underlying_meta_id
                && vk == x.underlying_value_kind && q == p + named_header(k, x).len()),
{
    let ghost hyp = lacks(x.name@, '\n') && k <= u64::MAX && holds_at(t@, p as int, named_header(k, x));
    let ghost n = x.name@;
    let ghost d0 = dec(k);
    let ghost d1 = dec(x.underlying_meta_id as nat);
    let ghost d2 = dec(x.underlying_value_kind as nat);
    let ghost h1 = "# ["@ + d0;
    let ghost h2 = h1 + "] "@;
    let ghost h3 = h2 + n;
    let ghost h4 = h3 + " (underlying: meta_id="@;
    let ghost h5 = h4 + d1;
    let ghost h6 = h5 + ", vk="@;
    let ghost h7 = h6 + d2;
    let ghost h8 = h7 + ")\n"@;
    let ghost pi = p as int;
    proof {
        reveal_strlit("# [");
        reveal_strlit("] ");
        reveal_strlit(" (underlying: meta_id=");
        reveal_strlit(", vk=");
        reveal_strlit(")\n");
        reveal_strlit("\n");
        if hyp {
            assert(named_header(k, x) == h8);
            lemma_holds_split(t@, pi, h7, ")\n"@);
            lemma_holds_split(t@, pi, h6, d2);
            lemma_holds_split(t@, pi, h5, ", vk="@);
            lemma_holds_split(t@, pi, h4, d1);
            lemma_holds_split(t@, pi, h3, " (underlying: meta_id="@);
            lemma_holds_split(t@, pi, h2, n);
            lemma_holds_split(t@, pi, h1, "] "@);
            lemma_holds_split(t@, pi, "# ["@, d0);
            lemma_holds_first(t@, pi + h1.len(), "] "@);
            lemma_holds_first(t@, pi + h5.len(), ", vk="@);
            lemma_holds_first(t@, pi + h7.len(), ")\n"@);
            lemma_holds_char(t@, pi + h3.len(), " (underlying: meta_id="@, 1);
            lemma_dec_digits(x.underlying_meta_id as nat);
            lemma_dec_digits(x.underlying_value_kind as nat);
            assert(!digit_at(t@, pi + h1.len()));
            assert(!digit_at(t@, pi + h5.len()));
            assert(!digit_at(t@, pi + h7.len()));
            reveal_strlit(")");
            assert(")\n"@ =~= ")"@ + "\n"@);
            lemma_holds_split(t@, pi + h7.len(), ")"@, "\n"@);
            // Past the name, the line holds no `(` but the one that opens
            // the underlying type, and no line break at all.
            assert forall|j: int| pi + h3.len() + 1 < j <= pi + h7.len() implies t@[j] != '(' && t@[j] != '\n' by {
                if j < pi + h4.len() {
                    assert(t@[j] == t@.subrange(pi + h3.len(), pi + h4.len())[j - pi - h3.len()]);
                } else if j < pi + h5.len() {
                    assert(t@[j] == t@.subrange(pi + h4.len(), pi + h5.len())[j - pi - h4.len()]);
                    assert(digit(d1[j - pi - h4.len()]));
                } else if j < pi + h6.len() {
                    assert(t@[j] == t@.subrange(pi + h5.len(), pi + h6.len())[j - pi - h5.len()]);
                } else if j < pi + h7.len() {
                    assert(t@[j] == t@.subrange(pi + h6.len(), pi + h7.len())[j - pi - h6.len()]);
                    assert(digit(d2[j - pi - h6.len()]));
                }
            }
            assert forall|j: int| pi + h2.len() <= j <= pi + h3.len() + 1 implies t@[j] != '\n' by {
                if j < pi + h3.len() {
                    assert(t@[j] == t@.subrange(pi + h2.len(), pi + h3.len())[j - pi - h2.len()]);
                } else {
                    assert(t@[j] == t@.subrange(pi + h3.len(), pi + h4.len())[j - pi - h3.len()]);
                }
            }
            assert forall|j: int| pi + h2.len() <= j < pi + h7.len() + 1 implies !holds_at(t@, j, "\n"@) by {
                if holds_at(t@, j, "\n"@) {
                    lemma_holds_first(t@, j, "\n"@);
                }
            }
        }
    }
    let q = lit_at(t, p, "# [")?;
    proof {
        if hyp {
            assert(q == pi + 3);
            assert(holds_at(t@, q as int, d0));
        }
    }
    let rn = read_number(t, q);
    proof {
        if hyp {
            assert(rn == Some((k as u64, (q + d0.len()) as usize)));
        }
    }
    let (_, q) = rn?;
    proof {
        if hyp {
            reveal_strlit("# [");
            assert(h1.len() == 3 + d0.len());
            assert(t@.len() == t.len());
            assert(pi + h8.len() <= t@.len());
            assert(q == pi + h1.len());
        }
    }
    let q = lit_at(t, q, "] ")?;
    proof {
        if hyp {
            reveal_strlit("] ");
            assert(q == pi + h2.len());
        }
    }
    let (_, end) = read_until(t, q, "\n")?;
    proof {
        if hyp {
            assert(end == pi + h7.len() + 1);
        }
    }
    let mut j = end;
    while j > q && t[j - 1] != '('
        invariant
            q <= j <= end,
            end <= t@.len(),
            hyp == (lacks(x.name@, '\n') && k <= u64::MAX && holds_at(t@, p as int, named_header(k, x))),
            hyp ==> q == pi + h2.len() && end == pi + h7.len() + 1 && j >= pi + h3.len() + 2
                && t@[pi + h3.len() + 1] == '('
                && (forall|i: int| pi + h3.len() + 1 < i <= pi + h7.len() ==> t@[i] != '('),
        decreases j,
    {
        proof {
            if hyp {
                assert(t@[j - 1] != '(');
                assert(j - 1 != pi + h3.len() + 1);
            }
        }
        j = j - 1;
    }
    if j < 2 || j - 2 < q {
        return None;
    }
    proof {
        if hyp {
            assert(j == pi + h3.len() + 2);
        }
    }
    let name = collect(t, q, j - 2);
    let r = lit_at(t, j - 2, " (underlying: meta_id=")?;
    proof {
        if hyp {
            reveal_strlit(" (underlying: meta_id=");
            assert(r == pi + h4.len());
            assert(holds_at(t@, r as int, d1));
        }
    }
    let (meta, r) = read_u32(t, r)?;
    let r = lit_at(t, r, ", vk=")?;
    proof {
        if hyp {
            reveal_strlit(", vk=");
            assert(r == pi + h6.len());
            assert(holds_at(t@, r as int, d2));
        }
    }
    let (vk, r) = read_u8(t, r)?;
    let r = lit_at(t, r, ")\n")?;
    proof {
        if hyp {
            reveal_strlit(")\n");
            assert(name@ == n);
        }
    }
    Some((name, meta, vk, r))
}

/// Reads one named-type entry at `p`. When `t` holds, at `p`, the entry of
/// a plain named type `x` under index `k`, and no methods line follows it,
/// a named type with the same entry is read, and the position after the
/// entry is returned.
#[verifier::spinoff_prover]
#[verifier::rlimit(100)]
fn read_named(t: &Vec<char>, p: usize, Ghost(k): Ghost<nat>, Ghost(x): Ghost<NamedTypeMeta>) -> (r: Option<(NamedTypeMeta, usize)>)
    ensures
        r matches Some((_, q)) ==> p < q <= t@.len(),
        plain_named(x) && k <= u64::MAX && holds_at(t@, p as int, named_entry(k, x))
            && !holds_at(t@, p + named_entry(k, x).len(), "#   methods:"@)
            ==> (r matches Some((g, q)) && q == p + named_entry(k, x).len()
                && named_entry(k, g) == named_entry(k, x)),
{
    let ghost hyp = plain_named(x) && k <= u64::MAX && holds_at(t@, p as int, named_entry(k, x))
        && !holds_at(t@, p + named_entry(k, x).len(), "#   methods:"@);
    let ghost ms = x.methods@;
    let ghost head = named_header(k, x);
    let ghost lines = method_lines(ms, ms.len());
    let ghost tail = if ms.len() > 0 { "#   methods:"@ + lines + "\n"@ } else { Seq::<char>::empty() };
    let ghost pi = p as int;
    let ghost base = pi + head.len() + 12;
    proof {
        reveal_strlit("#   methods:");
        reveal_strlit("\n");
        if hyp {
            assert(named_entry(k, x) =~= head + tail);
            lemma_holds_split(t@, pi, head, tail);
            if ms.len() > 0 {
                assert(tail =~= "#   methods:"@ + (lines + "\n"@));
                lemma_holds_split(t@, pi + head.len(), "#   methods:"@, lines + "\n"@);
                lemma_holds_split(t@, base, lines, "\n"@);
            } else {
                assert(tail =~= Seq::<char>::empty());
            }
        }
    }
    let (name, meta, vk, q) = read_named_header(t, p, Ghost(k), Ghost(x))?;
    let mut methods: Vec<(String, MethodInfo)> = Vec::new();
    let mut q = q;
    if let Some(r0) = lit_at(t, q, "#   methods:") {
        proof {
            if hyp {
                assert(ms.len() > 0);
                assert(r0 == base);
                assert(t@.len() == t.len());
            }
        }
        let mut r = r0;
        while r < t.len() && lit_at(t, r, " ").is_some()
            invariant
                p < r <= t@.len(),
                hyp == (plain_named(x) && k <= u64::MAX && holds_at(t@, p as int, named_entry(k, x))
                    && !holds_at(t@, p + named_entry(k, x).len(), "#   methods:"@)),
                hyp ==> holds_at(t@, base, lines) && holds_at(t@, base + lines.len(), "\n"@),
                hyp ==> lines == method_lines(ms, ms.len()) && ms == x.methods@,
                hyp ==> forall|j: int| 0 <= j < ms.len() ==> lacks(#[trigger] ms[j].0@, '='),
                hyp ==> methods@.len() <= ms.len(),
                hyp ==> r == base + method_lines(ms, methods@.len()).len(),
                hyp ==> method_lines(methods@, methods@.len()) == method_lines(ms, methods@.len()),
            decreases t@.len() - r,
        {
            let ghost i = methods@.len();
            let ghost mi = if i < ms.len() { ms[i as int] } else { ms[0] };
            let ghost piece = method_piece(mi);
            let ghost d = dec(mi.1.func_id as nat);
            let ghost ri = r as int;
            proof {
                reveal_strlit(" ");
                reveal_strlit("\n");
                reveal_strlit("=func_");
                reveal_strlit("*");
                reveal_strlit("");
                if hyp {
                    if i == ms.len() {
                        lemma_holds_first(t@, ri, " "@);
                        lemma_holds_first(t@, ri, "\n"@);
                        assert(false);
                    }
                    lemma_method_lines_prefix(ms, i, ms.len());
                    lemma_method_lines_prefix(ms, (i + 1) as nat, ms.len());
                    let before = method_lines(ms, i);
                    let upto = method_lines(ms, (i + 1) as nat);
                    assert(holds_at(t@, base, upto)) by {
                        assert(t@.subrange(base, base + upto.len()) =~= lines.subrange(0, upto.len() as int));
                    }
                    lemma_holds_split(t@, base, before, method_item(mi));
                    assert(method_item(mi) =~= " "@ + (piece + ("=func_"@ + d)));
                    lemma_holds_split(t@, ri, " "@, piece + ("=func_"@ + d));
                    lemma_holds_split(t@, ri + 1, piece, "=func_"@ + d);
                    lemma_holds_split(t@, ri + 1 + piece.len(), "=func_"@, d);
                    lemma_holds_first(t@, ri + 1 + piece.len(), "=func_"@);
                    assert(lacks(mi.0@, '='));
                    assert(lacks(piece, '=')) by {
                        assert forall|c: int| 0 <= c < piece.len() implies piece[c] != '=' by {
                            if mi.1.is_pointer_receiver {
                                if c > 0 {
                                    assert(piece[c] == mi.0@[c - 1]);
                                }
                            } else {
                                assert(piece[c] == mi.0@[c]);
                            }
                        }
                    }
                    lemma_no_occurrence(t@, ri + 1, piece, "=func_"@, '=');
                    lemma_dec_digits(mi.1.func_id as nat);
                    let after = ri + 1 + piece.len() + 6 + d.len();
                    if i + 1 < ms.len() {
                        lemma_method_lines_prefix(ms, (i + 2) as nat, ms.len());
                        let upto2 = method_lines(ms, (i + 2) as nat);
                        assert(upto2 == upto + method_item(ms[(i + 1) as int]));
                        assert(t@[after] == upto2[upto.len() as int]) by {
                            assert(t@.subrange(base, base + upto2.len()) =~= lines.subrange(0, upto2.len() as int));
                        }
                    } else {
                        assert(after == base + lines.len());
                        lemma_holds_first(t@, after, "\n"@);
                    }
                    assert(!digit_at(t@, after));
                }
            }
            let s = lit_at(t, r, " ")?;
            let mut s2 = s;
            let pointer = match lit_at(t, s, "*") {
                Some(after) => {
                    s2 = after;
                    true
                },
                None => false,
            };
            let (mname, u) = read_until(t, s2, "=func_")?;
            let u = lit_at(t, u, "=func_")?;
            let (func_id, u) = read_u32(t, u)?;
            let item = (mname, MethodInfo { func_id, is_pointer_receiver: pointer });
            proof {
                if hyp {
                    reveal_strlit("*");
                    reveal_strlit("");
                    assert(u == ri + method_item(mi).len());
                    assert(func_id == mi.1.func_id);
                    assert(method_piece(item) =~= t@.subrange(ri + 1, ri + 1 + piece.len()));
                    assert(method_piece(item) == piece);
                    assert(method_item(item) =~= method_item(mi));
                }
            }
            let ghost before_methods = methods@;
            methods.push(item);
            r = u;
            proof {
                if hyp {
                    lemma_method_lines_prefix(methods@, i, methods@.len());
                    lemma_method_lines_same(methods@, before_methods, i);
                    lemma_method_lines_prefix(ms, i, ms.len());
                    assert(method_lines(methods@, methods@.len()) == method_lines(ms, methods@.len()));
                }
            }
        }
        proof {
            reveal_strlit(" ");
            if hyp {
                let i = methods@.len();
                if i < ms.len() {
                    lemma_method_lines_prefix(ms, i, ms.len());
                    lemma_method_lines_prefix(ms, (i + 1) as nat, ms.len());
                    let before = method_lines(ms, i);
                    let upto = method_lines(ms, (i + 1) as nat);
                    assert(holds_at(t@, base, upto)) by {
                        assert(t@.subrange(base, base + upto.len()) =~= lines.subrange(0, upto.len() as int));
                    }
                    lemma_holds_split(t@, base, before, method_item(ms[i as int]));
                    let piece = method_piece(ms[i as int]);
                    let d = dec(ms[i as int].1.func_id as nat);
                    assert(method_item(ms[i as int]) =~= " "@ + (piece + "=func_"@ + d));
                    lemma_holds_split(t@, r as int, " "@, piece + "=func_"@ + d);
                    assert(false);
                }
                lemma_method_lines_prefix(ms, ms.len(), ms.len());
            }
        }
        q = lit_at(t, r, "\n")?;
    } else {
        proof {
            reveal_strlit("#   methods:");
            if hyp {
                assert(ms.len() == 0);
            }
        }
    }
    let g = NamedTypeMeta { name, underlying_meta_id: meta, underlying_value_kind: vk, methods };
    proof {
        if hyp {
            assert(named_header(k, g) == head);
            assert(named_entry(k, g) =~= named_entry(k, x));
        }
    }
    Some((g, q))
}

/// The entries of the first `i` named types start the entries of the
/// first `n`.
proof fn lemma_named_entries_prefix(xs: Seq<NamedTypeMeta>, i: nat, n: nat)
    requires
        i <= n,
    ensures
        named_entries(xs, i).len() <= named_entries(xs, n).len(),
        named_entries(xs, n).subrange(0, named_entries(xs, i).len() as int) == named_entries(xs, i),
    decreases n - i,
{
    if i < n {
        lemma_named_entries_prefix(xs, i, (n - 1) as nat);
        let a = named_entries(xs, (n - 1) as nat);
        let b = named_entry((n - 1) as nat, xs[n - 1]);
        assert(named_entries(xs, n) == a + b);
        assert((a + b).subrange(0, named_entries(xs, i).len() as int) =~= a.subrange(0, named_entries(xs, i).len() as int));
    } else {
        assert(named_entries(xs, n).subrange(0, named_entries(xs, n).len() as int) =~= named_entries(xs, n));
    }
}

/// The entries of the first `n` named types depend on those alone.
proof fn lemma_named_entries_same(xs: Seq<NamedTypeMeta>, ys: Seq<NamedTypeMeta>, n: nat)
    requires
        n <= xs.len(),
        n <= ys.len(),
        forall|j: int| 0 <= j < n ==> named_entry(j as nat, #[trigger] xs[j]) == named_entry(j as nat, ys[j]),
    ensures
        named_entries(xs, n) == named_entries(ys, n),
    decreases n,
{
    if n > 0 {
        lemma_named_entries_same(xs, ys, (n - 1) as nat);
        assert(named_entry((n - 1) as nat, xs[n - 1]) == named_entry((n - 1) as nat, ys[n - 1]));
    }
}

/// Each named-type entry starts with `# [`, so the entries of `n` of them
/// hold at least `n` characters.
proof fn lemma_named_entries_len(xs: Seq<NamedTypeMeta>, n: nat)
    ensures
        named_entries(xs, n).len() >= n,
    decreases n,
{
    reveal_strlit("# [");
    if n > 0 {
        lemma_named_entries_len(xs, (n - 1) as nat);
    }
}

/// Reads named-type entries from `pos` while lines start with `# [`. When
/// `t` holds, at `pos`, the entries of plain named types `xs` followed by a
/// blank line, the entries read are the same entries, appended to `out`,
/// and the position after them is returned.
fn read_named_types(t: &Vec<char>, pos: usize, out: &mut Vec<NamedTypeMeta>, Ghost(xs): Ghost<Seq<NamedTypeMeta>>) -> (r: Option<usize>)
    ensures
        r matches Some(q) ==> pos <= q <= t@.len(),
        old(out)@.len() == 0 && (forall|j: int| 0 <= j < xs.len() ==> plain_named(#[trigger] xs[j]))
            && holds_at(t@, pos as int, named_entries(xs, xs.len()) + "\n"@)
            ==> (r == Some((pos + named_entries(xs, xs.len()).len()) as usize)
                && final(out)@.len() == xs.len()
                && named_entries(final(out)@, xs.len()) == named_entries(xs, xs.len())),
{
    let ghost hyp = old(out)@.len() == 0 && (forall|j: int| 0 <= j < xs.len() ==> plain_named(#[trigger] xs[j]))
        && holds_at(t@, pos as int, named_entries(xs, xs.len()) + "\n"@);
    let ghost all = named_entries(xs, xs.len());
    proof {
        reveal_strlit("# [");
        reveal_strlit("\n");
        if hyp {
            lemma_holds_split(t@, pos as int, all, "\n"@);
        }
    }
    let mut p = pos;
    if pos > t.len() {
        return None;
    }
    while p < t.len() && lit_at(t, p, "# [").is_some()
        invariant
            pos <= p <= t@.len(),
            hyp == (old(out)@.len() == 0 && (forall|j: int| 0 <= j < xs.len() ==> plain_named(#[trigger] xs[j]))
                && holds_at(t@, pos as int, named_entries(xs, xs.len()) + "\n"@)),
            all == named_entries(xs, xs.len()),
            hyp ==> holds_at(t@, pos as int, all) && holds_at(t@, pos + all.len(), "\n"@),
            hyp ==> out@.len() <= xs.len(),
            hyp ==> p == pos + named_entries(xs, out@.len()).len(),
            hyp ==> named_entries(out@, out@.len()) == named_entries(xs, out@.len()),
        decreases t@.len() - p,
    {
        let ghost i = out@.len();
        let ghost x = if i < xs.len() { xs[i as int] } else { xs[0] };
        proof {
            if hyp {
                let n = xs.len();
                reveal_strlit("\n");
                reveal_strlit("# [");
                if i == n {
                    lemma_holds_first(t@, p as int, "\n"@);
                    lemma_holds_first(t@, p as int, "# ["@);
                    assert(false);
                }
                lemma_named_entries_prefix(xs, (i + 1) as nat, n);
                lemma_named_entries_len(xs, i);
                let before = named_entries(xs, i);
                let upto = named_entries(xs, (i + 1) as nat);
                assert(upto == before + named_entry(i, x));
                assert(holds_at(t@, pos as int, upto)) by {
                    assert(t@.subrange(pos as int, pos + upto.len()) =~= all.subrange(0, upto.len() as int));
                }
                lemma_holds_split(t@, pos as int, before, named_entry(i, x));
                assert(plain_named(x));
                let next = p + named_entry(i, x).len();
                reveal_strlit("#   methods:");
                if i + 1 < n {
                    lemma_named_entries_prefix(xs, (i + 2) as nat, n);
                    let upto2 = named_entries(xs, (i + 2) as nat);
                    let x2 = xs[(i + 1) as int];
                    assert(upto2 == upto + named_entry((i + 1) as nat, x2));
                    assert(holds_at(t@, pos as int, upto2)) by {
                        assert(t@.subrange(pos as int, pos + upto2.len()) =~= all.subrange(0, upto2.len() as int));
                    }
                    lemma_holds_split(t@, pos as int, upto, named_entry((i + 1) as nat, x2));
                    let e2 = named_entry((i + 1) as nat, x2);
                    assert(e2 == named_header((i + 1) as nat, x2) + (if x2.methods@.len() > 0 {
                        "#   methods:"@ + method_lines(x2.methods@, x2.methods@.len()) + "\n"@
                    } else {
                        Seq::empty()
                    }));
                    lemma_holds_char(t@, next, e2, 2);
                    if holds_at(t@, next, "#   methods:"@) {
                        lemma_holds_char(t@, next, "#   methods:"@, 2);
                    }
                } else {
                    assert(next == pos + all.len());
                    lemma_holds_first(t@, next, "\n"@);
                    if holds_at(t@, next, "#   methods:"@) {
                        lemma_holds_first(t@, next, "#   methods:"@);
                    }
                }
                assert(i <= p);
                assert(p <= t.len());
            }
        }
        let (g, q) = read_named(t, p, Ghost(i), Ghost(x))?;
        let ghost before_out = out@;
        out.push(g);
        p = q;
        proof {
            if hyp {
                assert(named_entries(out@, out@.len()) == named_entries(out@, i) + named_entry(i, g));
                lemma_named_entries_same(out@, before_out, i);
                assert(named_entries(out@, out@.len()) == named_entries(xs, out@.len()));
            }
        }
    }
    proof {
        if hyp {
            let n = xs.len();
            let i = out@.len();
            if i < n {
                lemma_named_entries_prefix(xs, (i + 1) as nat, n);
                let before = named_entries(xs, i);
                let x = xs[i as int];
                let upto = named_entries(xs, (i + 1) as nat);
                assert(upto == before + named_entry(i, x));
                assert(holds_at(t@, pos as int, upto)) by {
                    assert(t@.subrange(pos as int, pos + upto.len()) =~= all.subrange(0, upto.len() as int));
                }
                lemma_holds_split(t@, pos as int, before, named_entry(i, x));
                let e = named_entry(i, x);
                assert(e == named_header(i, x) + (if x.methods@.len() > 0 {
                    "#   methods:"@ + method_lines(x.methods@, x.methods@.len()) + "\n"@
                } else {
                    Seq::empty()
                }));
                assert(e.subrange(0, 3) =~= "# ["@);
                assert(holds_at(t@, p as int, "# ["@)) by {
                    assert(t@.subrange(p as int, p + 3) =~= e.subrange(0, 3));
                }
                assert(false);
            }
        }
    }
    Some(p)
}
/// An interface type whose entry is proved to read back: neither its name
/// nor a method's name holds a line break.
pub open spec fn plain_interface(x: InterfaceMeta) -> bool {
    &&& lacks(x.name@, '\n')
    &&& forall|j: int| 0 <= j < x.method_names@.len() ==> lacks(#[trigger] x.method_names@[j]@, '\n')
}

/// The method lines of the first `i` names start those of the first `n`.
proof fn lemma_method_names_prefix(xs: Seq<String>, i: nat, n: nat)
    requires
        i <= n,
    ensures
        interface_method_lines(xs, i).len() <= interface_method_lines(xs, n).len(),
        interface_method_lines(xs, n).subrange(0, interface_method_lines(xs, i).len() as int) == interface_method_lines(xs, i),
    decreases n - i,
{
    if i < n {
        lemma_method_names_prefix(xs, i, (n - 1) as nat);
        let a = interface_method_lines(xs, (n - 1) as nat);
        let b = "#   method "@ + xs[n - 1]@ + "\n"@;
        assert(interface_method_lines(xs, n) == a + b);
        assert((a + b).subrange(0, interface_method_lines(xs, i).len() as int) =~= a.subrange(0, interface_method_lines(xs, i).len() as int));
    } else {
        assert(interface_method_lines(xs, n).subrange(0, interface_method_lines(xs, n).len() as int) =~= interface_method_lines(xs, n));
    }
}

/// The method lines of the first `n` names depend on those names' text
/// alone.
proof fn lemma_method_names_same(xs: Seq<String>, ys: Seq<String>, n: nat)
    requires
        n <= xs.len(),
        n <= ys.len(),
        forall|j: int| 0 <= j < n ==> (#[trigger] xs[j])@ == ys[j]@,
    ensures
        interface_method_lines(xs, n) == interface_method_lines(ys, n),
    decreases n,
{
    if n > 0 {
        lemma_method_names_same(xs, ys, (n - 1) as nat);
        assert(xs[n - 1]@ == ys[n - 1]@);
    }
}

/// Reads one interface entry at `p`. When `t` holds, at `p`, the entry of a
/// plain interface `x` under index `k`, and no method line follows it, the
/// entry read is that same entry, and the position after it is returned.
#[verifier::spinoff_prover]
#[verifier::rlimit(80)]
fn read_interface(t: &Vec<char>, p: usize, Ghost(k): Ghost<nat>, Ghost(x): Ghost<InterfaceMeta>) -> (r: Option<(InterfaceMeta, usize)>)
    ensures
        r matches Some((_, q)) ==> p < q <= t@.len(),
        plain_interface(x) && k <= u64::MAX && holds_at(t@, p as int, interface_entry(k, x))
            && !holds_at(t@, p + interface_entry(k, x).len(), "#   method "@)
            ==> (r matches Some((g, q)) && q == p + interface_entry(k, x).len()
                && interface_entry(k, g) == interface_entry(k, x)),
{
    let ghost hyp = plain_interface(x) && k <= u64::MAX && holds_at(t@, p as int, interface_entry(k, x))
        && !holds_at(t@, p + interface_entry(k, x).len(), "#   method "@);
    let ghost n = x.name@;
    let ghost ms = x.method_names@;
    let ghost d0 = dec(k);
    let ghost h1 = "# ["@ + d0;
    let ghost h2 = h1 + "] "@;
    let ghost h3 = h2 + n;
    let ghost h4 = h3 + "\n"@;
    let ghost lines = interface_method_lines(ms, ms.len());
    let ghost pi = p as int;
    let ghost base = pi + h4.len();
    proof {
        reveal_strlit("# [");
        reveal_strlit("] ");
        reveal_strlit("\n");
        if hyp {
            assert(interface_entry(k, x) == h4 + lines);
            lemma_holds_split(t@, pi, h4, lines);
            lemma_holds_split(t@, pi, h3, "\n"@);
            lemma_holds_split(t@, pi, h2, n);
            lemma_holds_split(t@, pi, h1, "] "@);
            lemma_holds_split(t@, pi, "# ["@, d0);
            lemma_holds_first(t@, pi + h1.len(), "] "@);
            lemma_holds_first(t@, pi + h3.len(), "\n"@);
            assert(!digit_at(t@, pi + h1.len()));
            lemma_no_occurrence(t@, pi + h2.len(), n, "\n"@, '\n');
        }
    }
    let q = lit_at(t, p, "# [")?;
    proof {
        if hyp {
            assert(q == pi + 3);
            assert(holds_at(t@, q as int, d0));
        }
    }
    let rn = read_number(t, q);
    proof {
        if hyp {
            assert(rn == Some((k as u64, (q + d0.len()) as usize)));
        }
    }
    let (_, q) = rn?;
    proof {
        if hyp {
            reveal_strlit("# [");
            assert(h1.len() == 3 + d0.len());
            assert(t@.len() == t.len());
            assert(pi + h4.len() + lines.len() <= t@.len());
            assert(q == pi + h1.len());
        }
    }
    let q = lit_at(t, q, "] ")?;
    proof {
        if hyp {
            reveal_strlit("] ");
            assert(q == pi + h2.len());
        }
    }
    let (name, q) = read_until(t, q, "\n")?;
    let mut q = lit_at(t, q, "\n")?;
    proof {
        if hyp {
            reveal_strlit("\n");
            assert(q == base);
            assert(name@ == n);
        }
    }
    let mut method_names: Vec<String> = Vec::new();
    while q < t.len() && lit_at(t, q, "#   method ").is_some()
        invariant
            p < q <= t@.len(),
            hyp == (plain_interface(x) && k <= u64::MAX && holds_at(t@, p as int, interface_entry(k, x))
                && !holds_at(t@, p + interface_entry(k, x).len(), "#   method "@)),
            hyp ==> holds_at(t@, base, lines) && !holds_at(t@, base + lines.len(), "#   method "@),
            hyp ==> lines == interface_method_lines(ms, ms.len()) && ms == x.method_names@,
            hyp ==> forall|j: int| 0 <= j < ms.len() ==> lacks(#[trigger] ms[j]@, '\n'),
            hyp ==> method_names@.len() <= ms.len(),
            hyp ==> q == base + interface_method_lines(ms, method_names@.len()).len(),
            hyp ==> interface_method_lines(method_names@, method_names@.len()) == interface_method_lines(ms, method_names@.len()),
        decreases t@.len() - q,
    {
        let ghost i = method_names@.len();
        let ghost mn = if i < ms.len() { ms[i as int]@ } else { Seq::<char>::empty() };
        let ghost line = "#   method "@ + mn + "\n"@;
        let ghost qi = q as int;
        proof {
            reveal_strlit("#   method ");
            reveal_strlit("\n");
            if hyp {
                if i == ms.len() {
                    assert(false);
                }
                lemma_method_names_prefix(ms, (i + 1) as nat, ms.len());
                let before = interface_method_lines(ms, i);
                let upto = interface_method_lines(ms, (i + 1) as nat);
                assert(upto == before + line);
                assert(holds_at(t@, base, upto)) by {
                    assert(t@.subrange(base, base + upto.len()) =~= lines.subrange(0, upto.len() as int));
                }
                lemma_holds_split(t@, base, before, line);
                lemma_holds_split(t@, qi, "#   method "@ + mn, "\n"@);
                lemma_holds_split(t@, qi, "#   method "@, mn);
                lemma_holds_first(t@, qi + 11 + mn.len(), "\n"@);
                lemma_no_occurrence(t@, qi + 11, mn, "\n"@, '\n');
            }
        }
        let r = lit_at(t, q, "#   method ")?;
        let (mname, r) = read_until(t, r, "\n")?;
        q = lit_at(t, r, "\n")?;
        let ghost before_names = method_names@;
        method_names.push(mname);
        proof {
            if hyp {
                assert(mname@ == mn);
                assert(q == qi + line.len());
                assert(interface_method_lines(method_names@, method_names@.len())
                    == interface_method_lines(method_names@, i) + "#   method "@ + method_names@[i as int]@ + "\n"@);
                lemma_method_names_same(method_names@, before_names, i);
                assert(interface_method_lines(method_names@, method_names@.len()) =~= interface_method_lines(ms, method_names@.len()));
            }
        }
    }
    let g = InterfaceMeta { name, method_names };
    proof {
        if hyp {
            reveal_strlit("#   method ");
            let i = g.method_names@.len();
            if i < ms.len() {
                lemma_method_names_prefix(ms, (i + 1) as nat, ms.len());
                let before = interface_method_lines(ms, i);
                let line = "#   method "@ + ms[i as int]@ + "\n"@;
                let upto = interface_method_lines(ms, (i + 1) as nat);
                assert(upto == before + line);
                assert(holds_at(t@, base, upto)) by {
                    assert(t@.subrange(base, base + upto.len()) =~= lines.subrange(0, upto.len() as int));
                }
                lemma_holds_split(t@, base, before, line);
                assert(line =~= "#   method "@ + (ms[i as int]@ + "\n"@));
                lemma_holds_split(t@, q as int, "#   method "@, ms[i as int]@ + "\n"@);
                assert(false);
            }
            lemma_method_names_prefix(ms, ms.len(), ms.len());
            assert(interface_entry(k, g) =~= interface_entry(k, x));
        }
    }
    Some((g, q))
}

/// The entries of the first `i` interface types start the entries of the
/// first `n`.
proof fn lemma_interface_entries_prefix(xs: Seq<InterfaceMeta>, i: nat, n: nat)
    requires
        i <= n,
    ensures
        interface_entries(xs, i).len() <= interface_entries(xs, n).len(),
        interface_entries(xs, n).subrange(0, interface_entries(xs, i).len() as int) == interface_entries(xs, i),
    decreases n - i,
{
    if i < n {
        lemma_interface_entries_prefix(xs, i, (n - 1) as nat);
        let a = interface_entries(xs, (n - 1) as nat);
        let b = interface_entry((n - 1) as nat, xs[n - 1]);
        assert(interface_entries(xs, n) == a + b);
        assert((a + b).subrange(0, interface_entries(xs, i).len() as int) =~= a.subrange(0, interface_entries(xs, i).len() as int));
    } else {
        assert(interface_entries(xs, n).subrange(0, interface_entries(xs, n).len() as int) =~= interface_entries(xs, n));
    }
}

/// The entries of the first `n` interface types depend on those alone.
proof fn lemma_interface_entries_same(xs: Seq<InterfaceMeta>, ys: Seq<InterfaceMeta>, n: nat)
    requires
        n <= xs.len(),
        n <= ys.len(),
        forall|j: int| 0 <= j < n ==> interface_entry(j as nat, #[trigger] xs[j]) == interface_entry(j as nat, ys[j]),
    ensures
        interface_entries(xs, n) == interface_entries(ys, n),
    decreases n,
{
    if n > 0 {
        lemma_interface_entries_same(xs, ys, (n - 1) as nat);
        assert(interface_entry((n - 1) as nat, xs[n - 1]) == interface_entry((n - 1) as nat, ys[n - 1]));
    }
}

/// Each interface entry starts with `# [`, so the entries of `n` of them
/// hold at least `n` characters.
proof fn lemma_interface_entries_len(xs: Seq<InterfaceMeta>, n: nat)
    ensures
        interface_entries(xs, n).len() >= n,
    decreases n,
{
    reveal_strlit("# [");
    if n > 0 {
        lemma_interface_entries_len(xs, (n - 1) as nat);
    }
}

/// Reads interface entries from `pos` while lines start with `# [`. When
/// `t` holds, at `pos`, the entries of plain interfaces `xs` followed by a
/// blank line, the entries read are the same entries, appended to `out`,
/// and the position after them is returned.
fn read_interface_types(t: &Vec<char>, pos: usize, out: &mut Vec<InterfaceMeta>, Ghost(xs): Ghost<Seq<InterfaceMeta>>) -> (r: Option<usize>)
    ensures
        r matches Some(q) ==> pos <= q <= t@.len(),
        old(out)@.len() == 0 && (forall|j: int| 0 <= j < xs.len() ==> plain_interface(#[trigger] xs[j]))
            && holds_at(t@, pos as int, interface_entries(xs, xs.len()) + "\n"@)
            ==> (r == Some((pos + interface_entries(xs, xs.len()).len()) as usize)
                && final(out)@.len() == xs.len()
                && interface_entries(final(out)@, xs.len()) == interface_entries(xs, xs.len())),
{
    let ghost hyp = old(out)@.len() == 0 && (forall|j: int| 0 <= j < xs.len() ==> plain_interface(#[trigger] xs[j]))
        && holds_at(t@, pos as int, interface_entries(xs, xs.len()) + "\n"@);
    let ghost all = interface_entries(xs, xs.len());
    proof {
        reveal_strlit("# [");
        reveal_strlit("\n");
        if hyp {
            lemma_holds_split(t@, pos as int, all, "\n"@);
        }
    }
    let mut p = pos;
    if pos > t.len() {
        return None;
    }
    while p < t.len() && lit_at(t, p, "# [").is_some()
        invariant
            pos <= p <= t@.len(),
            hyp == (old(out)@.len() == 0 && (forall|j: int| 0 <= j < xs.len() ==> plain_interface(#[trigger] xs[j]))
                && holds_at(t@, pos as int, interface_entries(xs, xs.len()) + "\n"@)),
            all == interface_entries(xs, xs.len()),
            hyp ==> holds_at(t@, pos as int, all) && holds_at(t@, pos + all.len(), "\n"@),
            hyp ==> out@.len() <= xs.len(),
            hyp ==> p == pos + interface_entries(xs, out@.len()).len(),
            hyp ==> interface_entries(out@, out@.len()) == interface_entries(xs, out@.len()),
        decreases t@.len() - p,
    {
        let ghost i = out@.len();
        let ghost x = if i < xs.len() { xs[i as int] } else { xs[0] };
        proof {
            if hyp {
                let n = xs.len();
                reveal_strlit("\n");
                reveal_strlit("# [");
                if i == n {
                    lemma_holds_first(t@, p as int, "\n"@);
                    lemma_holds_first(t@, p as int, "# ["@);
                    assert(false);
                }
                lemma_interface_entries_prefix(xs, (i + 1) as nat, n);
                lemma_interface_entries_len(xs, i);
                let before = interface_entries(xs, i);
                let upto = interface_entries(xs, (i + 1) as nat);
                assert(upto == before + interface_entry(i, x));
                assert(holds_at(t@, pos as int, upto)) by {
                    assert(t@.subrange(pos as int, pos + upto.len()) =~= all.subrange(0, upto.len() as int));
                }
                lemma_holds_split(t@, pos as int, before, interface_entry(i, x));
                assert(plain_interface(x));
                let next = p + interface_entry(i, x).len();
                reveal_strlit("#   method ");
                if i + 1 < n {
                    lemma_interface_entries_prefix(xs, (i + 2) as nat, n);
                    let upto2 = interface_entries(xs, (i + 2) as nat);
                    let x2 = xs[(i + 1) as int];
                    assert(upto2 == upto + interface_entry((i + 1) as nat, x2));
                    assert(holds_at(t@, pos as int, upto2)) by {
                        assert(t@.subrange(pos as int, pos + upto2.len()) =~= all.subrange(0, upto2.len() as int));
                    }
                    lemma_holds_split(t@, pos as int, upto, interface_entry((i + 1) as nat, x2));
                    let e2 = interface_entry((i + 1) as nat, x2);
                    assert(e2 == "# ["@ + dec((i + 1) as nat) + "] "@ + x2.name@ + "\n"@
                        + interface_method_lines(x2.method_names@, x2.method_names@.len()));
                    lemma_holds_char(t@, next, e2, 2);
                    if holds_at(t@, next, "#   method "@) {
                        lemma_holds_char(t@, next, "#   method "@, 2);
                    }
                } else {
                    assert(next == pos + all.len());
                    lemma_holds_first(t@, next, "\n"@);
                    if holds_at(t@, next, "#   method "@) {
                        lemma_holds_first(t@, next, "#   method "@);
                    }
                }
                assert(i <= p);
                assert(p <= t.len());
            }
        }
        let (g, q) = read_interface(t, p, Ghost(i), Ghost(x))?;
        let ghost before_out = out@;
        out.push(g);
        p = q;
        proof {
            if hyp {
                assert(interface_entries(out@, out@.len()) == interface_entries(out@, i) + interface_entry(i, g));
                lemma_interface_entries_same(out@, before_out, i);
                assert(interface_entries(out@, out@.len()) == interface_entries(xs, out@.len()));
            }
        }
    }
    proof {
        if hyp {
            let n = xs.len();
            let i = out@.len();
            if i < n {
                lemma_interface_entries_prefix(xs, (i + 1) as nat, n);
                let before = interface_entries(xs, i);
                let x = xs[i as int];
                let upto = interface_entries(xs, (i + 1) as nat);
                assert(upto == before + interface_entry(i, x));
                assert(holds_at(t@, pos as int, upto)) by {
                    assert(t@.subrange(pos as int, pos + upto.len()) =~= all.subrange(0, upto.len() as int));
                }
                lemma_holds_split(t@, pos as int, before, interface_entry(i, x));
                let e = interface_entry(i, x);
                assert(e == "# ["@ + dec(i) + "] "@ + x.name@ + "\n"@
                    + interface_method_lines(x.method_names@, x.method_names@.len()));
                assert(e.subrange(0, 3) =~= "# ["@);
                assert(holds_at(t@, p as int, "# ["@)) by {
                    assert(t@.subrange(p as int, p + 3) =~= e.subrange(0, 3));
                }
                assert(false);
            }
        }
    }
    Some(p)
}

/// The ids of the first `i` methods start the ids of the first `n`, each
/// further id after a `, `.
proof fn lemma_id_items_prefix(xs: Seq<u32>, i: nat, n: nat)
    requires
        1 <= i <= n,
    ensures
        id_items(xs, i).len() <= id_items(xs, n).len(),
        id_items(xs, n).subrange(0, id_items(xs, i).len() as int) == id_items(xs, i),
    decreases n - i,
{
    if i < n {
        lemma_id_items_prefix(xs, i, (n - 1) as nat);
        let a = id_items(xs, (n - 1) as nat);
        let b = ", "@ + dec(xs[n - 1] as nat);
        assert(id_items(xs, n) == a + b);
        assert((a + b).subrange(0, id_items(xs, i).len() as int) =~= a.subrange(0, id_items(xs, i).len() as int));
    } else {
        assert(id_items(xs, n).subrange(0, id_items(xs, n).len() as int) =~= id_items(xs, n));
    }
}

/// Reads one method-table entry at `p`. When `t` holds, at `p`, the entry
/// of `x` under index `k`, the same method table is read, and the position
/// after its entry is returned.
#[verifier::spinoff_prover]
#[verifier::rlimit(80)]
fn read_itab(t: &Vec<char>, p: usize, Ghost(k): Ghost<nat>, Ghost(x): Ghost<Itab>) -> (r: Option<(Itab, usize)>)
    ensures
        r matches Some((_, q)) ==> p < q <= t@.len(),
        k <= u64::MAX && holds_at(t@, p as int, itab_entry(k, x))
            ==> (r matches Some((g, q)) && q == p + itab_entry(k, x).len() && g.methods@ == x.methods@),
{
    let ghost hyp = k <= u64::MAX && holds_at(t@, p as int, itab_entry(k, x));
    let ghost ms = x.methods@;
    let ghost d0 = dec(k);
    let ghost items = id_items(ms, ms.len());
    let ghost h1 = "# ["@ + d0;
    let ghost h2 = h1 + "] methods: ["@;
    let ghost h3 = h2 + items;
    let ghost h4 = h3 + "]\n"@;
    let ghost pi = p as int;
    let ghost base = pi + h2.len();
    proof {
        reveal_strlit("# [");
        reveal_strlit("] methods: [");
        reveal_strlit("]\n");
        reveal_strlit("] ");
        reveal_strlit("methods: [");
        reveal_strlit("] methods: ");
        reveal_strlit("[");
        reveal_strlit("]");
        reveal_strlit("\n");
        if hyp {
            assert(itab_entry(k, x) =~= h4);
            lemma_holds_split(t@, pi, h3, "]\n"@);
            lemma_holds_split(t@, pi, h2, items);
            lemma_holds_split(t@, pi, h1, "] methods: ["@);
            lemma_holds_split(t@, pi, "# ["@, d0);
            lemma_holds_first(t@, pi + h1.len(), "] methods: ["@);
            lemma_holds_first(t@, pi + h3.len(), "]\n"@);
            assert(!digit_at(t@, pi + h1.len()));
            assert("] methods: ["@ =~= "] "@ + "methods: ["@);
            lemma_holds_split(t@, pi + h1.len(), "] "@, "methods: ["@);
        }
    }
    let q = lit_at(t, p, "# [")?;
    proof {
        if hyp {
            assert(q == pi + 3);
            assert(holds_at(t@, q as int, d0));
        }
    }
    let rn = read_number(t, q);
    proof {
        if hyp {
            assert(rn == Some((k as u64, (q + d0.len()) as usize)));
        }
    }
    let (_, q) = rn?;
    proof {
        if hyp {
            reveal_strlit("# [");
            assert(h1.len() == 3 + d0.len());
            assert(t@.len() == t.len());
            assert(pi + h4.len() <= t@.len());
            assert(q == pi + h1.len());
        }
    }
    let q = lit_at(t, q, "] ")?;
    let mut q = lit_at(t, q, "methods: [")?;
    proof {
        if hyp {
            reveal_strlit("] ");
            reveal_strlit("methods: [");
            assert(q == base);
        }
    }
    let mut methods: Vec<u32> = Vec::new();
    if lit_at(t, q, "]").is_none() {
        proof {
            reveal_strlit("]");
            if hyp {
                if ms.len() == 0 {
                    assert(items =~= Seq::<char>::empty());
                    assert("]\n"@ =~= "]"@ + "\n"@);
                    lemma_holds_split(t@, base, "]"@, "\n"@);
                }
                assert(ms.len() >= 1);
                lemma_id_items_prefix(ms, 1, ms.len());
                assert(id_items(ms, 1) == dec(ms[0] as nat));
                assert(holds_at(t@, base, dec(ms[0] as nat))) by {
                    assert(t@.subrange(base, base + id_items(ms, 1).len()) =~= items.subrange(0, id_items(ms, 1).len() as int));
                }
                lemma_dec_digits(ms[0] as nat);
                if ms.len() > 1 {
                    lemma_id_items_prefix(ms, 2, ms.len());
                    let two = id_items(ms, 2);
                    assert(two == dec(ms[0] as nat) + ", "@ + dec(ms[1] as nat));
                    reveal_strlit(", ");
                    assert(t@[base + dec(ms[0] as nat).len()] == two[dec(ms[0] as nat).len() as int]) by {
                        assert(t@.subrange(base, base + two.len()) =~= items.subrange(0, two.len() as int));
                    }
                    assert(!digit_at(t@, base + dec(ms[0] as nat).len()));
                } else {
                    lemma_holds_first(t@, pi + h3.len(), "]\n"@);
                    assert(!digit_at(t@, base + dec(ms[0] as nat).len()));
                }
            }
        }
        let (first, r) = read_u32(t, q)?;
        methods.push(first);
        q = r;
        proof {
            if hyp {
                assert(methods@ =~= ms.subrange(0, 1));
                assert(q == base + id_items(ms, 1).len());
            }
        }
        while q < t.len() && lit_at(t, q, ", ").is_some()
            invariant
                p < q <= t@.len(),
                hyp == (k <= u64::MAX && holds_at(t@, p as int, itab_entry(k, x))),
                hyp ==> holds_at(t@, base, items) && holds_at(t@, base + items.len(), "]\n"@),
                hyp ==> items == id_items(ms, ms.len()) && ms == x.methods@,
                hyp ==> 1 <= methods@.len() <= ms.len(),
                hyp ==> q == base + id_items(ms, methods@.len()).len(),
                hyp ==> methods@ == ms.subrange(0, methods@.len() as int),
            decreases t@.len() - q,
        {
            let ghost i = methods@.len();
            proof {
                reveal_strlit(", ");
                reveal_strlit("]\n");
                if hyp {
                    if i == ms.len() {
                        lemma_holds_first(t@, q as int, ", "@);
                        lemma_holds_first(t@, q as int, "]\n"@);
                        assert(false);
                    }
                    lemma_id_items_prefix(ms, (i + 1) as nat, ms.len());
                    let before = id_items(ms, i);
                    let d = dec(ms[i as int] as nat);
                    let upto = id_items(ms, (i + 1) as nat);
                    assert(upto == before + ", "@ + d);
                    assert(holds_at(t@, base, upto)) by {
                        assert(t@.subrange(base, base + upto.len()) =~= items.subrange(0, upto.len() as int));
                    }
                    assert(upto =~= before + (", "@ + d));
                    lemma_holds_split(t@, base, before, ", "@ + d);
                    lemma_holds_split(t@, q as int, ", "@, d);
                    lemma_dec_digits(ms[i as int] as nat);
                    let after = q + 2 + d.len();
                    if i + 1 < ms.len() {
                        lemma_id_items_prefix(ms, (i + 2) as nat, ms.len());
                        let upto2 = id_items(ms, (i + 2) as nat);
                        assert(upto2 == upto + ", "@ + dec(ms[(i + 1) as int] as nat));
                        assert(t@[after] == upto2[upto.len() as int]) by {
                            assert(t@.subrange(base, base + upto2.len()) =~= items.subrange(0, upto2.len() as int));
                        }
                    } else {
                        assert(after == base + items.len());
                        lemma_holds_first(t@, after, "]\n"@);
                    }
                    assert(!digit_at(t@, after));
                }
            }
            let r = lit_at(t, q, ", ")?;
            let (id, r) = read_u32(t, r)?;
            methods.push(id);
            q = r;
            proof {
                if hyp {
                    assert(methods@ =~= ms.subrange(0, methods@.len() as int));
                }
            }
        }
        proof {
            reveal_strlit(", ");
            if hyp {
                let i = methods@.len();
                if i < ms.len() {
                    lemma_id_items_prefix(ms, (i + 1) as nat, ms.len());
                    let before = id_items(ms, i);
                    let d = dec(ms[i as int] as nat);
                    let upto = id_items(ms, (i + 1) as nat);
                    assert(upto =~= before + (", "@ + d));
                    assert(holds_at(t@, base, upto)) by {
                        assert(t@.subrange(base, base + upto.len()) =~= items.subrange(0, upto.len() as int));
                    }
                    lemma_holds_split(t@, base, before, ", "@ + d);
                    lemma_holds_split(t@, q as int, ", "@, d);
                    assert(false);
                }
                assert(methods@ =~= ms);
            }
        }
    } else {
        proof {
            reveal_strlit("]");
            if hyp {
                if ms.len() > 0 {
                    lemma_id_items_prefix(ms, 1, ms.len());
                    lemma_dec_digits(ms[0] as nat);
                    assert(id_items(ms, 1) == dec(ms[0] as nat));
                    assert(items[0] == items.subrange(0, id_items(ms, 1).len() as int)[0]);
                    assert(digit(dec(ms[0] as nat)[0]));
                    assert(t@[base] == items[0]) by {
                        assert(t@.subrange(base, base + items.len()) == items);
                    }
                    lemma_holds_first(t@, base, "]"@);
                    assert(false);
                }
                assert(methods@ =~= ms);
                assert(items =~= Seq::<char>::empty());
            }
        }
    }
    let q = lit_at(t, q, "]\n")?;
    let g = Itab { methods };
    proof {
        if hyp {
            reveal_strlit("]\n");
        }
    }
    Some((g, q))
}

/// The entries of the first `i` method tables start the entries of the
/// first `n`.
proof fn lemma_itab_entries_prefix(xs: Seq<Itab>, i: nat, n: nat)
    requires
        i <= n,
    ensures
        itab_entries(xs, i).len() <= itab_entries(xs, n).len(),
        itab_entries(xs, n).subrange(0, itab_entries(xs, i).len() as int) == itab_entries(xs, i),
    decreases n - i,
{
    if i < n {
        lemma_itab_entries_prefix(xs, i, (n - 1) as nat);
        let a = itab_entries(xs, (n - 1) as nat);
        let b = itab_entry((n - 1) as nat, xs[n - 1]);
        assert(itab_entries(xs, n) == a + b);
        assert((a + b).subrange(0, itab_entries(xs, i).len() as int) =~= a.subrange(0, itab_entries(xs, i).len() as int));
    } else {
        assert(itab_entries(xs, n).subrange(0, itab_entries(xs, n).len() as int) =~= itab_entries(xs, n));
    }
}

/// The entries of the first `n` method tables depend on those alone.
proof fn lemma_itab_entries_same(xs: Seq<Itab>, ys: Seq<Itab>, n: nat)
    requires
        n <= xs.len(),
        n <= ys.len(),
        forall|j: int| 0 <= j < n ==> itab_entry(j as nat, #[trigger] xs[j]) == itab_entry(j as nat, ys[j]),
    ensures
        itab_entries(xs, n) == itab_entries(ys, n),
    decreases n,
{
    if n > 0 {
        lemma_itab_entries_same(xs, ys, (n - 1) as nat);
        assert(itab_entry((n - 1) as nat, xs[n - 1]) == itab_entry((n - 1) as nat, ys[n - 1]));
    }
}

/// Each method-table entry starts with `# [`, so the entries of `n` of
/// them hold at least `n` characters.
proof fn lemma_itab_entries_len(xs: Seq<Itab>, n: nat)
    ensures
        itab_entries(xs, n).len() >= n,
    decreases n,
{
    reveal_strlit("# [");
    if n > 0 {
        lemma_itab_entries_len(xs, (n - 1) as nat);
    }
}

/// Reads method-table entries from `pos` while lines start with `# [`. When
/// `t` holds, at `pos`, the entries of `xs` followed by a blank line, the
/// entries read are the same entries, appended to `out`, and the position
/// after them is returned.
fn read_itabs(t: &Vec<char>, pos: usize, out: &mut Vec<Itab>, Ghost(xs): Ghost<Seq<Itab>>) -> (r: Option<usize>)
    ensures
        r matches Some(q) ==> pos <= q <= t@.len(),
        old(out)@.len() == 0
            && holds_at(t@, pos as int, itab_entries(xs, xs.len()) + "\n"@)
            ==> (r == Some((pos + itab_entries(xs, xs.len()).len()) as usize)
                && final(out)@.len() == xs.len()
                && itab_entries(final(out)@, xs.len()) == itab_entries(xs, xs.len())),
{
    let ghost hyp = old(out)@.len() == 0
        && holds_at(t@, pos as int, itab_entries(xs, xs.len()) + "\n"@);
    let ghost all = itab_entries(xs, xs.len());
    proof {
        reveal_strlit("# [");
        reveal_strlit("\n");
        if hyp {
            lemma_holds_split(t@, pos as int, all, "\n"@);
        }
    }
    let mut p = pos;
    if pos > t.len() {
        return None;
    }
    while p < t.len() && lit_at(t, p, "# [").is_some()
        invariant
            pos <= p <= t@.len(),
            hyp == (old(out)@.len() == 0
                && holds_at(t@, pos as int, itab_entries(xs, xs.len()) + "\n"@)),
            all == itab_entries(xs, xs.len()),
            hyp ==> holds_at(t@, pos as int, all) && holds_at(t@, pos + all.len(), "\n"@),
            hyp ==> out@.len() <= xs.len(),
            hyp ==> p == pos + itab_entries(xs, out@.len()).len(),
            hyp ==> itab_entries(out@, out@.len()) == itab_entries(xs, out@.len()),
        decreases t@.len() - p,
    {
        let ghost i = out@.len();
        let ghost x = if i < xs.len() { xs[i as int] } else { xs[0] };
        proof {
            if hyp {
                let n = xs.len();
                reveal_strlit("\n");
                reveal_strlit("# [");
                if i == n {
                    lemma_holds_first(t@, p as int, "\n"@);
                    lemma_holds_first(t@, p as int, "# ["@);
                    assert(false);
                }
                lemma_itab_entries_prefix(xs, (i + 1) as nat, n);
                lemma_itab_entries_len(xs, i);
                let before = itab_entries(xs, i);
                let upto = itab_entries(xs, (i + 1) as nat);
                assert(upto == before + itab_entry(i, x));
                assert(holds_at(t@, pos as int, upto)) by {
                    assert(t@.subrange(pos as int, pos + upto.len()) =~= all.subrange(0, upto.len() as int));
                }
                lemma_holds_split(t@, pos as int, before, itab_entry(i, x));
                assert(i <= p);
                assert(p <= t.len());
            }
        }
        let (g, q) = read_itab(t, p, Ghost(i), Ghost(x))?;
        let ghost before_out = out@;
        out.push(g);
        p = q;
        proof {
            if hyp {
                assert(itab_entry(i, g) == itab_entry(i, x));
                assert(itab_entries(out@, out@.len()) == itab_entries(out@, i) + itab_entry(i, g));
                lemma_itab_entries_same(out@, before_out, i);
                assert(itab_entries(out@, out@.len()) == itab_entries(xs, out@.len()));
            }
        }
    }
    proof {
        if hyp {
            let n = xs.len();
            let i = out@.len();
            if i < n {
                lemma_itab_entries_prefix(xs, (i + 1) as nat, n);
                let before = itab_entries(xs, i);
                let x = xs[i as int];
                let upto = itab_entries(xs, (i + 1) as nat);
                assert(upto == before + itab_entry(i, x));
                assert(holds_at(t@, pos as int, upto)) by {
                    assert(t@.subrange(pos as int, pos + upto.len()) =~= all.subrange(0, upto.len() as int));
                }
                lemma_holds_split(t@, pos as int, before, itab_entry(i, x));
                let e = itab_entry(i, x);
                assert(e == "# ["@ + dec(i) + "] methods: "@ + id_list(x.methods@) + "\n"@);
                assert(e.subrange(0, 3) =~= "# ["@);
                assert(holds_at(t@, p as int, "# ["@)) by {
                    assert(t@.subrange(p as int, p + 3) =~= e.subrange(0, 3));
                }
                assert(false);
            }
        }
    }
    Some(p)
}

/// Reads one global entry at `p`. When `t` holds, at `p`, the entry of `x`
/// under index `k`, with a name free of line breaks, the entry read is that
/// same entry, and the position after it is returned. The name runs up to
/// the last `:` of the line, so it may itself hold `:`.
#[verifier::spinoff_prover]
#[verifier::rlimit(80)]
fn read_global(t: &Vec<char>, p: usize, Ghost(k): Ghost<nat>, Ghost(x): Ghost<GlobalDef>) -> (r: Option<(GlobalDef, usize)>)
    ensures
        r matches Some((_, q)) ==> p < q <= t@.len(),
        lacks(x.name@, '\n') && k <= u64::MAX && holds_at(t@, p as int, global_entry(k, x))
            ==> (r matches Some((g, q)) && q == p + global_entry(k, x).len()
                && global_entry(k, g) == global_entry(k, x)),
{
    let ghost hyp = lacks(x.name@, '\n') && k <= u64::MAX && holds_at(t@, p as int, global_entry(k, x));
    let ghost n = x.name@;
    let ghost d0 = dec(k);
    let ghost d1 = dec(x.slots as nat);
    let ghost d2 = dec(x.value_kind as nat);
    let ghost d3 = dec(x.meta_id as nat);
    let ghost h1 = "# ["@ + d0;
    let ghost h2 = h1 + "] "@;
    let ghost h3 = h2 + n;
    let ghost h4 = h3 + ": "@;
    let ghost h5 = h4 + d1;
    let ghost h6 = h5 + " slot(s), vk="@;
    let ghost h7 = h6 + d2;
    let ghost h8 = h7 + ", meta="@;
    let ghost h9 = h8 + d3;
    let ghost h10 = h9 + "\n"@;
    let ghost pi = p as int;
    proof {
        reveal_strlit("# [");
        reveal_strlit("] ");
        reveal_strlit(": ");
        reveal_strlit(" slot(s), vk=");
        reveal_strlit(", meta=");
        reveal_strlit("\n");
        if hyp {
            assert(global_entry(k, x) == h10);
            lemma_holds_split(t@, pi, h9, "\n"@);
            lemma_holds_split(t@, pi, h8, d3);
            lemma_holds_split(t@, pi, h7, ", meta="@);
            lemma_holds_split(t@, pi, h6, d2);
            lemma_holds_split(t@, pi, h5, " slot(s), vk="@);
            lemma_holds_split(t@, pi, h4, d1);
            lemma_holds_split(t@, pi, h3, ": "@);
            lemma_holds_split(t@, pi, h2, n);
            lemma_holds_split(t@, pi, h1, "] "@);
            lemma_holds_split(t@, pi, "# ["@, d0);
            lemma_holds_first(t@, pi + h1.len(), "] "@);
            lemma_holds_first(t@, pi + h5.len(), " slot(s), vk="@);
            lemma_holds_first(t@, pi + h7.len(), ", meta="@);
            lemma_holds_first(t@, pi + h9.len(), "\n"@);
            lemma_holds_first(t@, pi + h3.len(), ": "@);
            lemma_dec_digits(x.slots as nat);
            lemma_dec_digits(x.value_kind as nat);
            lemma_dec_digits(x.meta_id as nat);
            assert(!digit_at(t@, pi + h1.len()));
            assert(!digit_at(t@, pi + h5.len()));
            assert(!digit_at(t@, pi + h7.len()));
            assert(!digit_at(t@, pi + h9.len()));
            // Past the name, the line holds no `:` but the one that ends
            // the name, and no line break at all.
            assert forall|j: int| pi + h3.len() < j < pi + h9.len() implies t@[j] != ':' && t@[j] != '\n' by {
                if j < pi + h4.len() {
                    assert(t@[j] == t@.subrange(pi + h3.len(), pi + h4.len())[j - pi - h3.len()]);
                } else if j < pi + h5.len() {
                    assert(t@[j] == t@.subrange(pi + h4.len(), pi + h5.len())[j - pi - h4.len()]);
                    assert(digit(d1[j - pi - h4.len()]));
                } else if j < pi + h6.len() {
                    assert(t@[j] == t@.subrange(pi + h5.len(), pi + h6.len())[j - pi - h5.len()]);
                } else if j < pi + h7.len() {
                    assert(t@[j] == t@.subrange(pi + h6.len(), pi + h7.len())[j - pi - h6.len()]);
                    assert(digit(d2[j - pi - h6.len()]));
                } else if j < pi + h8.len() {
                    assert(t@[j] == t@.subrange(pi + h7.len(), pi + h8.len())[j - pi - h7.len()]);
                } else {
                    assert(t@[j] == t@.subrange(pi + h8.len(), pi + h9.len())[j - pi - h8.len()]);
                    assert(digit(d3[j - pi - h8.len()]));
                }
            }
            assert forall|j: int| pi + h2.len() <= j <= pi + h3.len() implies t@[j] != '\n' by {
                if j < pi + h3.len() {
                    assert(t@[j] == t@.subrange(pi + h2.len(), pi + h3.len())[j - pi - h2.len()]);
                }
            }
            assert forall|j: int| pi + h2.len() <= j < pi + h9.len() implies !holds_at(t@, j, "\n"@) by {
                if holds_at(t@, j, "\n"@) {
                    lemma_holds_first(t@, j, "\n"@);
                }
            }
        }
    }
    let q = lit_at(t, p, "# [")?;
    proof {
        if hyp {
            assert(q == pi + 3);
            assert(holds_at(t@, q as int, d0));
        }
    }
    let rn = read_number(t, q);
    proof {
        if hyp {
            assert(rn == Some((k as u64, (q + d0.len()) as usize)));
        }
    }
    let (_, q) = rn?;
    proof {
        if hyp {
            reveal_strlit("# [");
            assert(h1.len() == 3 + d0.len());
            assert(t@.len() == t.len());
            assert(pi + h10.len() <= t@.len());
            assert(q == pi + h1.len());
        }
    }
    let q = lit_at(t, q, "] ")?;
    proof {
        if hyp {
            reveal_strlit("] ");
            assert(q == pi + h2.len());
        }
    }
    let (_, end) = read_until(t, q, "\n")?;
    proof {
        if hyp {
            assert(end == pi + h9.len());
        }
    }
    let mut j = end;
    while j > q && t[j - 1] != ':'
        invariant
            q <= j <= end,
            end <= t@.len(),
            hyp == (lacks(x.name@, '\n') && k <= u64::MAX && holds_at(t@, p as int, global_entry(k, x))),
            hyp ==> q == pi + h2.len() && end == pi + h9.len() && j >= pi + h3.len() + 1
                && t@[pi + h3.len()] == ':'
                && (forall|i: int| pi + h3.len() < i < pi + h9.len() ==> t@[i] != ':'),
        decreases j,
    {
        proof {
            if hyp {
                assert(t@[j - 1] != ':');
                assert(j - 1 != pi + h3.len());
            }
        }
        j = j - 1;
    }
    if j == q {
        return None;
    }
    proof {
        if hyp {
            assert(j == pi + h3.len() + 1);
        }
    }
    let name = collect(t, q, j - 1);
    let r = lit_at(t, j - 1, ": ")?;
    proof {
        if hyp {
            reveal_strlit(": ");
            assert(r == pi + h4.len());
            assert(holds_at(t@, r as int, d1));
        }
    }
    let (slots, r) = read_u32(t, r)?;
    proof {
        if hyp {
            assert(r == pi + h5.len() && slots == x.slots);
        }
    }
    let r = lit_at(t, r, " slot(s), vk=")?;
    proof {
        if hyp {
            reveal_strlit(" slot(s), vk=");
            assert(r == pi + h6.len());
            assert(holds_at(t@, r as int, d2));
        }
    }
    let (value_kind, r) = read_u8(t, r)?;
    proof {
        if hyp {
            assert(r == pi + h7.len() && value_kind == x.value_kind);
        }
    }
    let r = lit_at(t, r, ", meta=")?;
    proof {
        if hyp {
            reveal_strlit(", meta=");
            assert(r == pi + h8.len());
            assert(holds_at(t@, r as int, d3));
        }
    }
    let (meta_id, r) = read_u32(t, r)?;
    if r != end {
        return None;
    }
    let g = GlobalDef { name, slots, value_kind, meta_id };
    let q = lit_at(t, r, "\n")?;
    proof {
        if hyp {
            assert(meta_id == x.meta_id);
            assert(g.name@ == n);
            assert(global_entry(k, g) =~= global_entry(k, x));
        }
    }
    Some((g, q))
}

/// The entries of the first `i` globals start the entries of the first
/// `n`.
proof fn lemma_global_entries_prefix(xs: Seq<GlobalDef>, i: nat, n: nat)
    requires
        i <= n,
    ensures
        global_entries(xs, i).len() <= global_entries(xs, n).len(),
        global_entries(xs, n).subrange(0, global_entries(xs, i).len() as int) == global_entries(xs, i),
    decreases n - i,
{
    if i < n {
        lemma_global_entries_prefix(xs, i, (n - 1) as nat);
        let a = global_entries(xs, (n - 1) as nat);
        let b = global_entry((n - 1) as nat, xs[n - 1]);
        assert(global_entries(xs, n) == a + b);
        assert((a + b).subrange(0, global_entries(xs, i).len() as int) =~= a.subrange(0, global_entries(xs, i).len() as int));
    } else {
        assert(global_entries(xs, n).subrange(0, global_entries(xs, n).len() as int) =~= global_entries(xs, n));
    }
}

/// The entries of the first `n` globals depend on those alone.
proof fn lemma_global_entries_same(xs: Seq<GlobalDef>, ys: Seq<GlobalDef>, n: nat)
    requires
        n <= xs.len(),
        n <= ys.len(),
        forall|j: int| 0 <= j < n ==> global_entry(j as nat, #[trigger] xs[j]) == global_entry(j as nat, ys[j]),
    ensures
        global_entries(xs, n) == global_entries(ys, n),
    decreases n,
{
    if n > 0 {
        lemma_global_entries_same(xs, ys, (n - 1) as nat);
        assert(global_entry((n - 1) as nat, xs[n - 1]) == global_entry((n - 1) as nat, ys[n - 1]));
    }
}

/// Each global entry starts with `# [`, so the entries of `n` of them hold
/// at least `n` characters.
proof fn lemma_global_entries_len(xs: Seq<GlobalDef>, n: nat)
    ensures
        global_entries(xs, n).len() >= n,
    decreases n,
{
    reveal_strlit("# [");
    if n > 0 {
        lemma_global_entries_len(xs, (n - 1) as nat);
    }
}

/// Reads global entries from `pos` while lines start with `# [`. When `t`
/// holds, at `pos`, the entries of `xs` (names free of line breaks)
/// followed by a blank line, the entries read are the same entries,
/// appended to `out`, and the position after them is returned.
fn read_globals(t: &Vec<char>, pos: usize, out: &mut Vec<GlobalDef>, Ghost(xs): Ghost<Seq<GlobalDef>>) -> (r: Option<usize>)
    ensures
        r matches Some(q) ==> pos <= q <= t@.len(),
        old(out)@.len() == 0 && (forall|j: int| 0 <= j < xs.len() ==> lacks(#[trigger] xs[j].name@, '\n'))
            && holds_at(t@, pos as int, global_entries(xs, xs.len()) + "\n"@)
            ==> (r == Some((pos + global_entries(xs, xs.len()).len()) as usize)
                && final(out)@.len() == xs.len()
                && global_entries(final(out)@, xs.len()) == global_entries(xs, xs.len())),
{
    let ghost hyp = old(out)@.len() == 0 && (forall|j: int| 0 <= j < xs.len() ==> lacks(#[trigger] xs[j].name@, '\n'))
        && holds_at(t@, pos as int, global_entries(xs, xs.len()) + "\n"@);
    let ghost all = global_entries(xs, xs.len());
    proof {
        reveal_strlit("# [");
        reveal_strlit("\n");
        if hyp {
            lemma_holds_split(t@, pos as int, all, "\n"@);
        }
    }
    let mut p = pos;
    if pos > t.len() {
        return None;
    }
    while p < t.len() && lit_at(t, p, "# [").is_some()
        invariant
            pos <= p <= t@.len(),
            hyp == (old(out)@.len() == 0 && (forall|j: int| 0 <= j < xs.len() ==> lacks(#[trigger] xs[j].name@, '\n'))
                && holds_at(t@, pos as int, global_entries(xs, xs.len()) + "\n"@)),
            all == global_entries(xs, xs.len()),
            hyp ==> holds_at(t@, pos as int, all) && holds_at(t@, pos + all.len(), "\n"@),
            hyp ==> out@.len() <= xs.len(),
            hyp ==> p == pos + global_entries(xs, out@.len()).len(),
            hyp ==> global_entries(out@, out@.len()) == global_entries(xs, out@.len()),
        decreases t@.len() - p,
    {
        let ghost i = out@.len();
        let ghost x = if i < xs.len() { xs[i as int] } else { xs[0] };
        proof {
            if hyp {
                let n = xs.len();
                reveal_strlit("\n");
                reveal_strlit("# [");
                if i == n {
                    lemma_holds_first(t@, p as int, "\n"@);
                    lemma_holds_first(t@, p as int, "# ["@);
                    assert(false);
                }
                lemma_global_entries_prefix(xs, (i + 1) as nat, n);
                lemma_global_entries_len(xs, i);
                let before = global_entries(xs, i);
                let upto = global_entries(xs, (i + 1) as nat);
                assert(upto == before + global_entry(i, x));
                assert(holds_at(t@, pos as int, upto)) by {
                    assert(t@.subrange(pos as int, pos + upto.len()) =~= all.subrange(0, upto.len() as int));
                }
                lemma_holds_split(t@, pos as int, before, global_entry(i, x));
                assert(lacks(x.name@, '\n'));
                assert(i <= p);
                assert(p <= t.len());
            }
        }
        let (g, q) = read_global(t, p, Ghost(i), Ghost(x))?;
        let ghost before_out = out@;
        out.push(g);
        p = q;
        proof {
            if hyp {
                assert(global_entries(out@, out@.len()) == global_entries(out@, i) + global_entry(i, g));
                lemma_global_entries_same(out@, before_out, i);
                assert(global_entries(out@, out@.len()) == global_entries(xs, out@.len()));
            }
        }
    }
    proof {
        if hyp {
            let n = xs.len();
            let i = out@.len();
            if i < n {
                lemma_global_entries_prefix(xs, (i + 1) as nat, n);
                let before = global_entries(xs, i);
                let x = xs[i as int];
                let upto = global_entries(xs, (i + 1) as nat);
                assert(upto == before + global_entry(i, x));
                assert(holds_at(t@, pos as int, upto)) by {
                    assert(t@.subrange(pos as int, pos + upto.len()) =~= all.subrange(0, upto.len() as int));
                }
                lemma_holds_split(t@, pos as int, before, global_entry(i, x));
                let e = global_entry(i, x);
                assert(e == "# ["@ + dec(i) + "] "@ + x.name@ + ": "@ + dec(x.slots as nat) + " slot(s), vk="@
                    + dec(x.value_kind as nat) + ", meta="@ + dec(x.meta_id as nat) + "\n"@);
                assert(e.subrange(0, 3) =~= "# ["@);
                assert(holds_at(t@, p as int, "# ["@)) by {
                    assert(t@.subrange(p as int, p + 3) =~= e.subrange(0, 3));
                }
                assert(false);
            }
        }
    }
    Some(p)
}

/// Reads one host-function entry at `p`. When `t` holds, at `p`, the entry
/// of `x` under index `k`, with a name free of line breaks, the entry read
/// is that same entry, and the position after it is returned. The name
/// runs up to the last `(` of the line, so it may itself hold `(`.
#[verifier::spinoff_prover]
#[verifier::rlimit(50)]
fn read_extern(t: &Vec<char>, p: usize, Ghost(k): Ghost<nat>, Ghost(x): Ghost<ExternDef>) -> (r: Option<(ExternDef, usize)>)
    ensures
        r matches Some((_, q)) ==> p < q <= t@.len(),
        lacks(x.name@, '\n') && k <= u64::MAX && holds_at(t@, p as int, extern_entry(k, x))
            ==> (r matches Some((g, q)) && q == p + extern_entry(k, x).len()
                && extern_entry(k, g) == extern_entry(k, x)),
{
    let ghost hyp = lacks(x.name@, '\n') && k <= u64::MAX && holds_at(t@, p as int, extern_entry(k, x));
    let ghost n = x.name@;
    let ghost d0 = dec(k);
    let ghost d1 = dec(x.param_slots as nat);
    let ghost d2 = dec(x.ret_slots as nat);
    let ghost h1 = "# ["@ + d0;
    let ghost h2 = h1 + "] "@;
    let ghost h3 = h2 + n;
    let ghost h4 = h3 + "("@;
    let ghost h5 = h4 + d1;
    let ghost h6 = h5 + ") -> "@;
    let ghost h7 = h6 + d2;
    let ghost h8 = h7 + "\n"@;
    let ghost pi = p as int;
    proof {
        reveal_strlit("# [");
        reveal_strlit("] ");
        reveal_strlit("(");
        reveal_strlit(") -> ");
        reveal_strlit("\n");
        if hyp {
            assert(extern_entry(k, x) == h8);
            lemma_holds_split(t@, pi, h7, "\n"@);
            lemma_holds_split(t@, pi, h6, d2);
            lemma_holds_split(t@, pi, h5, ") -> "@);
            lemma_holds_split(t@, pi, h4, d1);
            lemma_holds_split(t@, pi, h3, "("@);
            lemma_holds_split(t@, pi, h2, n);
            lemma_holds_split(t@, pi, h1, "] "@);
            lemma_holds_split(t@, pi, "# ["@, d0);
            lemma_holds_first(t@, pi + h1.len(), "] "@);
            lemma_holds_first(t@, pi + h5.len(), ") -> "@);
            lemma_holds_first(t@, pi + h7.len(), "\n"@);
            lemma_holds_first(t@, pi + h3.len(), "("@);
            lemma_dec_digits(x.param_slots as nat);
            lemma_dec_digits(x.ret_slots as nat);
            assert(!digit_at(t@, pi + h1.len()));
            assert(!digit_at(t@, pi + h5.len()));
            assert(!digit_at(t@, pi + h7.len()));
            // Nothing between the name and the end of the line is a line
            // break or a `(`.
            assert forall|j: int| pi + h2.len() <= j < pi + h7.len() implies t@[j] != '\n' by {
                if j < pi + h3.len() {
                    assert(t@[j] == t@.subrange(pi + h2.len(), pi + h3.len())[j - pi - h2.len()]);
                } else if j == pi + h3.len() {
                } else if j < pi + h5.len() {
                    assert(t@[j] == t@.subrange(pi + h4.len(), pi + h5.len())[j - pi - h4.len()]);
                    assert(digit(d1[j - pi - h4.len()]));
                } else if j < pi + h6.len() {
                    assert(t@[j] == t@.subrange(pi + h5.len(), pi + h6.len())[j - pi - h5.len()]);
                } else {
                    assert(t@[j] == t@.subrange(pi + h6.len(), pi + h7.len())[j - pi - h6.len()]);
                    assert(digit(d2[j - pi - h6.len()]));
                }
            }
            assert forall|j: int| pi + h4.len() <= j < pi + h7.len() implies t@[j] != '(' by {
                if j < pi + h5.len() {
                    assert(t@[j] == t@.subrange(pi + h4.len(), pi + h5.len())[j - pi - h4.len()]);
                    assert(digit(d1[j - pi - h4.len()]));
                } else if j < pi + h6.len() {
                    assert(t@[j] == t@.subrange(pi + h5.len(), pi + h6.len())[j - pi - h5.len()]);
                } else {
                    assert(t@[j] == t@.subrange(pi + h6.len(), pi + h7.len())[j - pi - h6.len()]);
                    assert(digit(d2[j - pi - h6.len()]));
                }
            }
            assert forall|j: int| pi + h2.len() <= j < pi + h7.len() implies !holds_at(t@, j, "\n"@) by {
                if holds_at(t@, j, "\n"@) {
                    lemma_holds_first(t@, j, "\n"@);
                }
            }
        }
    }
    let q = lit_at(t, p, "# [")?;
    proof {
        if hyp {
            assert(q == pi + 3);
            assert(holds_at(t@, q as int, d0));
        }
    }
    let rn = read_number(t, q);
    proof {
        if hyp {
            assert(rn == Some((k as u64, (q + d0.len()) as usize)));
        }
    }
    let (_, q) = rn?;
    proof {
        if hyp {
            reveal_strlit("# [");
            assert(h1.len() == 3 + d0.len());
            assert(t@.len() == t.len());
            assert(pi + h8.len() <= t@.len());
            assert(q == pi + h1.len());
        }
    }
    let q = lit_at(t, q, "] ")?;
    proof {
        if hyp {
            reveal_strlit("] ");
            assert(q == pi + h2.len());
        }
    }
    let (_, end) = read_until(t, q, "\n")?;
    proof {
        if hyp {
            assert(end == pi + h7.len());
        }
    }
    let mut j = end;
    while j > q && t[j - 1] != '('
        invariant
            q <= j <= end,
            end <= t@.len(),
            hyp == (lacks(x.name@, '\n') && k <= u64::MAX && holds_at(t@, p as int, extern_entry(k, x))),
            hyp ==> h4.len() == h3.len() + 1,
            hyp ==> q == pi + h2.len() && end == pi + h7.len() && j >= pi + h4.len()
                && t@[pi + h3.len()] == '('
                && (forall|i: int| pi + h4.len() <= i < pi + h7.len() ==> t@[i] != '('),
        decreases j,
    {
        proof {
            reveal_strlit("(");
            if hyp {
                assert(t@[j - 1] != '(');
                assert(j - 1 != pi + h3.len());
            }
        }
        j = j - 1;
    }
    if j == q {
        return None;
    }
    proof {
        if hyp {
            assert(j == pi + h4.len());
        }
    }
    let name = collect(t, q, j - 1);
    let (param_slots, r) = read_u32(t, j)?;
    proof {
        if hyp {
            assert(holds_at(t@, j as int, d1));
            assert(r == pi + h5.len() && param_slots == x.param_slots);
        }
    }
    let r = lit_at(t, r, ") -> ")?;
    proof {
        if hyp {
            assert(r == pi + h6.len());
            assert(holds_at(t@, r as int, d2));
        }
    }
    let (ret_slots, r) = read_u32(t, r)?;
    if r != end {
        return None;
    }
    let g = ExternDef { name, param_slots, ret_slots };
    let q = lit_at(t, r, "\n")?;
    proof {
        if hyp {
            assert(ret_slots == x.ret_slots);
            assert(g.name@ == n);
            assert(extern_entry(k, g) =~= extern_entry(k, x));
        }
    }
    Some((g, q))
}

/// The entries of the first `i` host functions start the entries of the
/// first `n`.
proof fn lemma_extern_entries_prefix(xs: Seq<ExternDef>, i: nat, n: nat)
    requires
        i <= n,
    ensures
        extern_entries(xs, i).len() <= extern_entries(xs, n).len(),
        extern_entries(xs, n).subrange(0, extern_entries(xs, i).len() as int) == extern_entries(xs, i),
    decreases n - i,
{
    if i < n {
        lemma_extern_entries_prefix(xs, i, (n - 1) as nat);
        let a = extern_entries(xs, (n - 1) as nat);
        let b = extern_entry((n - 1) as nat, xs[n - 1]);
        assert(extern_entries(xs, n) == a + b);
        assert((a + b).subrange(0, extern_entries(xs, i).len() as int) =~= a.subrange(0, extern_entries(xs, i).len() as int));
    } else {
        assert(extern_entries(xs, n).subrange(0, extern_entries(xs, n).len() as int) =~= extern_entries(xs, n));
    }
}

/// The entries of the first `n` host functions depend on those alone.
proof fn lemma_extern_entries_same(xs: Seq<ExternDef>, ys: Seq<ExternDef>, n: nat)
    requires
        n <= xs.len(),
        n <= ys.len(),
        forall|j: int| 0 <= j < n ==> extern_entry(j as nat, #[trigger] xs[j]) == extern_entry(j as nat, ys[j]),
    ensures
        extern_entries(xs, n) == extern_entries(ys, n),
    decreases n,
{
    if n > 0 {
        lemma_extern_entries_same(xs, ys, (n - 1) as nat);
        assert(extern_entry((n - 1) as nat, xs[n - 1]) == extern_entry((n - 1) as nat, ys[n - 1]));
    }
}

/// Each host-function entry starts with `# [` and ends with a line break,
/// so the entries of `n` of them hold at least `n` characters.
proof fn lemma_extern_entries_len(xs: Seq<ExternDef>, n: nat)
    ensures
        extern_entries(xs, n).len() >= n,
    decreases n,
{
    reveal_strlit("# [");
    if n > 0 {
        lemma_extern_entries_len(xs, (n - 1) as nat);
    }
}

/// Reads host-function entries from `pos` while lines start with `# [`.
/// When `t` holds, at `pos`, the entries of `xs` (names free of line
/// breaks) followed by a blank line, the entries read are the same entries,
/// appended to `out`, and the position after them is returned.
fn read_externs(t: &Vec<char>, pos: usize, out: &mut Vec<ExternDef>, Ghost(xs): Ghost<Seq<ExternDef>>) -> (r: Option<usize>)
    ensures
        r matches Some(q) ==> pos <= q <= t@.len(),
        old(out)@.len() == 0 && (forall|j: int| 0 <= j < xs.len() ==> lacks(#[trigger] xs[j].name@, '\n'))
            && holds_at(t@, pos as int, extern_entries(xs, xs.len()) + "\n"@)
            ==> (r == Some((pos + extern_entries(xs, xs.len()).len()) as usize)
                && final(out)@.len() == xs.len()
                && extern_entries(final(out)@, xs.len()) == extern_entries(xs, xs.len())),
{
    let ghost hyp = old(out)@.len() == 0 && (forall|j: int| 0 <= j < xs.len() ==> lacks(#[trigger] xs[j].name@, '\n'))
        && holds_at(t@, pos as int, extern_entries(xs, xs.len()) + "\n"@);
    let ghost all = extern_entries(xs, xs.len());
    proof {
        reveal_strlit("# [");
        reveal_strlit("\n");
        if hyp {
            lemma_holds_split(t@, pos as int, all, "\n"@);
        }
    }
    let mut p = pos;
    if pos > t.len() {
        return None;
    }
    while p < t.len() && lit_at(t, p, "# [").is_some()
        invariant
            pos <= p <= t@.len(),
            hyp == (old(out)@.len() == 0 && (forall|j: int| 0 <= j < xs.len() ==> lacks(#[trigger] xs[j].name@, '\n'))
                && holds_at(t@, pos as int, extern_entries(xs, xs.len()) + "\n"@)),
            all == extern_entries(xs, xs.len()),
            hyp ==> holds_at(t@, pos as int, all) && holds_at(t@, pos + all.len(), "\n"@),
            hyp ==> out@.len() <= xs.len(),
            hyp ==> p == pos + extern_entries(xs, out@.len()).len(),
            hyp ==> extern_entries(out@, out@.len()) == extern_entries(xs, out@.len()),
        decreases t@.len() - p,
    {
        let ghost i = out@.len();
        let ghost x = if i < xs.len() { xs[i as int] } else { xs[0] };
        proof {
            if hyp {
                let n = xs.len();
                reveal_strlit("\n");
                reveal_strlit("# [");
                if i == n {
                    lemma_holds_first(t@, p as int, "\n"@);
                    lemma_holds_first(t@, p as int, "# ["@);
                    assert(false);
                }
                lemma_extern_entries_prefix(xs, (i + 1) as nat, n);
                lemma_extern_entries_len(xs, i);
                let before = extern_entries(xs, i);
                let upto = extern_entries(xs, (i + 1) as nat);
                assert(upto == before + extern_entry(i, x));
                assert(holds_at(t@, pos as int, upto)) by {
                    assert(t@.subrange(pos as int, pos + upto.len()) =~= all.subrange(0, upto.len() as int));
                }
                lemma_holds_split(t@, pos as int, before, extern_entry(i, x));
                assert(lacks(x.name@, '\n'));
                assert(i <= p);
                assert(p <= t.len());
            }
        }
        let (g, q) = read_extern(t, p, Ghost(i), Ghost(x))?;
        let ghost before_out = out@;
        out.push(g);
        p = q;
        proof {
            if hyp {
                assert(extern_entries(out@, out@.len()) == extern_entries(out@, i) + extern_entry(i, g));
                lemma_extern_entries_same(out@, before_out, i);
                assert(extern_entries(out@, out@.len()) == extern_entries(xs, out@.len()));
            }
        }
    }
    proof {
        if hyp {
            let n = xs.len();
            let i = out@.len();
            if i < n {
                lemma_extern_entries_prefix(xs, (i + 1) as nat, n);
                let before = extern_entries(xs, i);
                let x = xs[i as int];
                let upto = extern_entries(xs, (i + 1) as nat);
                assert(upto == before + extern_entry(i, x));
                assert(holds_at(t@, pos as int, upto)) by {
                    assert(t@.subrange(pos as int, pos + upto.len()) =~= all.subrange(0, upto.len() as int));
                }
                lemma_holds_split(t@, pos as int, before, extern_entry(i, x));
                let e = extern_entry(i, x);
                assert(e == "# ["@ + dec(i) + "] "@ + x.name@ + "("@ + dec(x.param_slots as nat) + ") -> "@
                    + dec(x.ret_slots as nat) + "\n"@);
                assert(e.subrange(0, 3) =~= "# ["@);
                assert(holds_at(t@, p as int, "# ["@)) by {
                    assert(t@.subrange(p as int, p + 3) =~= e.subrange(0, 3));
                }
                assert(false);
            }
        }
    }
    Some(p)
}

/// `c` does not occur in `s`.
pub open spec fn lacks(s: Seq<char>, c: char) -> bool {
    forall|k: int| 0 <= k < s.len() ==> s[k] != c
}

/// A function whose text is proved to read back: it has no code and its
/// name holds no line break.
pub open spec fn plain_function(f: FunctionDef) -> bool {
    f.code@.len() == 0 && lacks(f.name@, '\n')
}

/// `t` holds `a + b` at `p`, so it holds `a` at `p` and `b` right after.
proof fn lemma_holds_split(t: Seq<char>, p: int, a: Seq<char>, b: Seq<char>)
    requires
        holds_at(t, p, a + b),
    ensures
        holds_at(t, p, a),
        holds_at(t, p + a.len(), b),
{
    let ab = a + b;
    assert(t.subrange(p, p + ab.len()) == ab);
    assert forall|i: int| 0 <= i < a.len() implies t.subrange(p, p + a.len())[i] == a[i] by {
        assert(t[p + i] == t.subrange(p, p + ab.len())[i]);
        assert(ab[i] == a[i]);
    }
    assert(t.subrange(p, p + a.len()) =~= a);
    assert forall|i: int| 0 <= i < b.len() implies t.subrange(p + a.len(), p + a.len() + b.len())[i] == b[i] by {
        assert(t[p + a.len() + i] == t.subrange(p, p + ab.len())[a.len() + i]);
        assert(ab[a.len() + i] == b[i]);
    }
    assert(t.subrange(p + a.len(), p + a.len() + b.len()) =~= b);
}

/// What `t` holds at `p` starts with the first character of `lit`.
proof fn lemma_holds_first(t: Seq<char>, p: int, lit: Seq<char>)
    requires
        holds_at(t, p, lit),
        lit.len() > 0,
    ensures
        t[p] == lit[0],
{
    assert(t[p] == t.subrange(p, p + lit.len())[0]);
}

/// No occurrence of a text starting with `c` begins inside a stretch of
/// `t` that lacks `c`.
proof fn lemma_no_occurrence(t: Seq<char>, from: int, s: Seq<char>, lit: Seq<char>, c: char)
    requires
        holds_at(t, from, s),
        lacks(s, c),
        lit.len() > 0,
        lit[0] == c,
    ensures
        forall|j: int| from <= j < from + s.len() ==> !holds_at(t, j, lit),
{
    assert forall|j: int| from <= j < from + s.len() implies !holds_at(t, j, lit) by {
        if holds_at(t, j, lit) {
            lemma_holds_first(t, j, lit);
            assert(t[j] == t.subrange(from, from + s.len())[j - from]);
        }
    }
}

/// Reads one function entry at `p`. When `t` holds, at `p`, the entry of a
/// plain function `f` under index `k`, the function read gives that same
/// entry, and the position after it is returned.
#[verifier::spinoff_prover]
#[verifier::rlimit(50)]
fn read_function(t: &Vec<char>, p: usize, Ghost(k): Ghost<nat>, Ghost(f): Ghost<FunctionDef>) -> (r: Option<(FunctionDef, usize)>)
    ensures
        r matches Some((_, q)) ==> p < q <= t@.len(),
        plain_function(f) && holds_at(t@, p as int, function_entry(k, f)) ==> (r matches Some((g, q))
            && q == p + function_entry(k, f).len() && function_entry(k, g) == function_entry(k, f)),
{
    let ghost hyp = plain_function(f) && holds_at(t@, p as int, function_entry(k, f));
    let ghost id = (k as u32) as nat;
    let ghost n = f.name@;
    let ghost d1 = dec(id);
    let ghost d2 = dec(f.param_count as nat);
    let ghost d3 = dec(f.param_slots as nat);
    let ghost d4 = dec(f.local_slots as nat);
    let ghost d5 = dec(f.ret_slots as nat);
    let ghost h1 = "func_"@ + d1;
    let ghost h2 = h1 + " "@;
    let ghost h3 = h2 + n;
    let ghost h4 = h3 + "(params="@;
    let ghost h5 = h4 + d2;
    let ghost h6 = h5 + ", param_slots="@;
    let ghost h7 = h6 + d3;
    let ghost h8 = h7 + ", locals="@;
    let ghost h9 = h8 + d4;
    let ghost h10 = h9 + ", ret="@;
    let ghost h11 = h10 + d5;
    let ghost h12 = h11 + "):\n"@;
    let ghost pi = p as int;
    proof {
        reveal_strlit("func_");
        reveal_strlit(" ");
        reveal_strlit("(params=");
        reveal_strlit(", param_slots=");
        reveal_strlit(", locals=");
        reveal_strlit(", ret=");
        reveal_strlit("):\n");
        reveal_strlit("\n");
        if hyp {
            assert(function_header(k as u32, f) == h12);
            assert(code_lines(f.code@, f.code@.len()) =~= Seq::<char>::empty());
            assert(function_entry(k, f) =~= h12 + "\n"@);
            lemma_holds_split(t@, pi, h12, "\n"@);
            lemma_holds_split(t@, pi, h11, "):\n"@);
            lemma_holds_split(t@, pi, h10, d5);
            lemma_holds_split(t@, pi, h9, ", ret="@);
            lemma_holds_split(t@, pi, h8, d4);
            lemma_holds_split(t@, pi, h7, ", locals="@);
            lemma_holds_split(t@, pi, h6, d3);
            lemma_holds_split(t@, pi, h5, ", param_slots="@);
            lemma_holds_split(t@, pi, h4, d2);
            lemma_holds_split(t@, pi, h3, "(params="@);
            lemma_holds_split(t@, pi, h2, n);
            lemma_holds_split(t@, pi, h1, " "@);
            lemma_holds_split(t@, pi, "func_"@, d1);
            lemma_holds_first(t@, pi + h1.len(), " "@);
            lemma_holds_first(t@, pi + h5.len(), ", param_slots="@);
            lemma_holds_first(t@, pi + h7.len(), ", locals="@);
            lemma_holds_first(t@, pi + h9.len(), ", ret="@);
            lemma_holds_first(t@, pi + h11.len(), "):\n"@);
            lemma_holds_first(t@, pi + h12.len(), "\n"@);
            lemma_holds_first(t@, pi + h3.len(), "(params="@);
            lemma_dec_digits(f.param_count as nat);
            lemma_dec_digits(f.param_slots as nat);
            lemma_dec_digits(f.local_slots as nat);
            lemma_dec_digits(f.ret_slots as nat);
            // Past the name, the header line holds no `(` but the one that
            // opens the counts, and no line break before its end.
            assert forall|j: int| pi + h3.len() < j < pi + h11.len() + 2 implies t@[j] != '(' && t@[j] != '\n' by {
                if j < pi + h4.len() {
                    assert(t@[j] == t@.subrange(pi + h3.len(), pi + h4.len())[j - pi - h3.len()]);
                } else if j < pi + h5.len() {
                    assert(t@[j] == t@.subrange(pi + h4.len(), pi + h5.len())[j - pi - h4.len()]);
                    assert(digit(d2[j - pi - h4.len()]));
                } else if j < pi + h6.len() {
                    assert(t@[j] == t@.subrange(pi + h5.len(), pi + h6.len())[j - pi - h5.len()]);
                } else if j < pi + h7.len() {
                    assert(t@[j] == t@.subrange(pi + h6.len(), pi + h7.len())[j - pi - h6.len()]);
                    assert(digit(d3[j - pi - h6.len()]));
                } else if j < pi + h8.len() {
                    assert(t@[j] == t@.subrange(pi + h7.len(), pi + h8.len())[j - pi - h7.len()]);
                } else if j < pi + h9.len() {
                    assert(t@[j] == t@.subrange(pi + h8.len(), pi + h9.len())[j - pi - h8.len()]);
                    assert(digit(d4[j - pi - h8.len()]));
                } else if j < pi + h10.len() {
                    assert(t@[j] == t@.subrange(pi + h9.len(), pi + h10.len())[j - pi - h9.len()]);
                } else if j < pi + h11.len() {
                    assert(t@[j] == t@.subrange(pi + h10.len(), pi + h11.len())[j - pi - h10.len()]);
                    assert(digit(d5[j - pi - h10.len()]));
                } else {
                    assert(t@[j] == t@.subrange(pi + h11.len(), pi + h12.len())[j - pi - h11.len()]);
                }
            }
            assert forall|j: int| pi + h2.len() <= j <= pi + h3.len() implies t@[j] != '\n' by {
                if j < pi + h3.len() {
                    assert(t@[j] == t@.subrange(pi + h2.len(), pi + h3.len())[j - pi - h2.len()]);
                }
            }
            assert forall|j: int| pi + h2.len() <= j < pi + h11.len() + 2 implies !holds_at(t@, j, "\n"@) by {
                if holds_at(t@, j, "\n"@) {
                    lemma_holds_first(t@, j, "\n"@);
                }
            }
            reveal_strlit("):");
            assert("):\n"@ =~= "):"@ + "\n"@);
            lemma_holds_split(t@, pi + h11.len(), "):"@, "\n"@);
            assert(!digit_at(t@, pi + h1.len()));
            assert(!digit_at(t@, pi + h5.len()));
            assert(!digit_at(t@, pi + h7.len()));
            assert(!digit_at(t@, pi + h9.len()));
            assert(!digit_at(t@, pi + h11.len()));
        }
    }
    let q = lit_at(t, p, "func_")?;
    proof {
        if hyp {
            assert(q == pi + 5);
            assert(holds_at(t@, q as int, d1));
            assert(!digit_at(t@, q + d1.len()));
        }
    }
    let rn = read_number(t, q);
    proof {
        if hyp {
            assert(id <= u64::MAX);
            assert(rn == Some((id as u64, (q + d1.len()) as usize)));
        }
    }
    let (_, q) = rn?;
    proof {
        if hyp {
            reveal_strlit("func_");
            assert(h1.len() == 5 + d1.len());
            assert(t@.len() == t.len());
            assert(pi + h12.len() <= t@.len());
            assert(q == pi + h1.len());
        }
    }
    let q = lit_at(t, q, " ")?;
    proof {
        if hyp {
            assert(q == pi + h2.len());
        }
    }
    let (_, end) = read_until(t, q, "\n")?;
    proof {
        if hyp {
            assert(end == pi + h11.len() + 2);
        }
    }
    let mut j = end;
    while j > q && t[j - 1] != '('
        invariant
            q <= j <= end,
            end <= t@.len(),
            hyp == (plain_function(f) && holds_at(t@, p as int, function_entry(k, f))),
            hyp ==> q == pi + h2.len() && end == pi + h11.len() + 2 && j >= pi + h3.len() + 1
                && t@[pi + h3.len()] == '('
                && (forall|i: int| pi + h3.len() < i < pi + h11.len() + 2 ==> t@[i] != '('),
        decreases j,
    {
        proof {
            if hyp {
                assert(t@[j - 1] != '(');
                assert(j - 1 != pi + h3.len());
            }
        }
        j = j - 1;
    }
    if j == q {
        return None;
    }
    let k2 = j - 1;
    let name = collect(t, q, k2);
    proof {
        if hyp {
            assert(k2 == pi + h3.len());
            assert(name@ == t@.subrange(pi + h2.len(), pi + h3.len()));
        }
    }
    let r = lit_at(t, k2, "(params=")?;
    proof {
        if hyp {
            assert(r == pi + h4.len());
            assert(holds_at(t@, r as int, d2));
            assert(!digit_at(t@, r + d2.len()));
        }
    }
    let (param_count, r) = read_u32(t, r)?;
    proof {
        if hyp {
            assert(r == pi + h5.len() && param_count == f.param_count);
        }
    }
    let r = lit_at(t, r, ", param_slots=")?;
    proof {
        if hyp {
            assert(r == pi + h6.len());
            assert(holds_at(t@, r as int, d3));
            assert(!digit_at(t@, r + d3.len()));
        }
    }
    let (param_slots, r) = read_u32(t, r)?;
    proof {
        if hyp {
            assert(r == pi + h7.len() && param_slots == f.param_slots);
        }
    }
    let r = lit_at(t, r, ", locals=")?;
    proof {
        if hyp {
            assert(r == pi + h8.len());
            assert(holds_at(t@, r as int, d4));
            assert(!digit_at(t@, r + d4.len()));
        }
    }
    let (local_slots, r) = read_u32(t, r)?;
    proof {
        if hyp {
            assert(r == pi + h9.len() && local_slots == f.local_slots);
        }
    }
    let r = lit_at(t, r, ", ret=")?;
    proof {
        if hyp {
            assert(r == pi + h10.len());
            assert(holds_at(t@, r as int, d5));
            assert(!digit_at(t@, r + d5.len()));
        }
    }
    let (ret_slots, r) = read_u32(t, r)?;
    proof {
        if hyp {
            assert(r == pi + h11.len() && ret_slots == f.ret_slots);
        }
    }
    let mut r = lit_at(t, r, "):\n")?;
    let mut code: Vec<Instruction> = Vec::new();
    loop
        invariant
            p < r <= t@.len(),
            hyp == (plain_function(f) && holds_at(t@, p as int, function_entry(k, f))),
            hyp ==> r == pi + h12.len() && t@[r as int] == '\n',
            hyp ==> code@.len() == 0,
        decreases t@.len() - r,
    {
        if r >= t.len() {
            break;
        }
        let s = match lit_at(t, r, "  ") {
            Some(s) => s,
            None => {
                break;
            },
        };
        proof {
            reveal_strlit("  ");
            if hyp {
                lemma_holds_first(t@, r as int, "  "@);
                assert(false);
            }
        }
        let (_, s) = read_number(t, s)?;
        let s = lit_at(t, s, ": ")?;
        let (_, e) = read_until(t, s, "\n")?;
        code.push(read_instruction(t, s, e)?);
        r = lit_at(t, e, "\n")?;
    }
    let g = FunctionDef { name, param_count, param_slots, local_slots, ret_slots, code };
    let q = lit_at(t, r, "\n")?;
    proof {
        if hyp {
            assert(g.name@ == n);
            assert(code_lines(g.code@, g.code@.len()) =~= Seq::<char>::empty());
            assert(function_header(k as u32, g) == h12);
            assert(function_entry(k, g) =~= function_entry(k, f));
        }
    }
    Some((g, q))
}

/// The entries of the first `k` functions start the entries of the first
/// `n`.
proof fn lemma_entries_prefix(fs: Seq<FunctionDef>, k: nat, n: nat)
    requires
        k <= n,
    ensures
        function_entries(fs, k).len() <= function_entries(fs, n).len(),
        function_entries(fs, n).subrange(0, function_entries(fs, k).len() as int) == function_entries(fs, k),
    decreases n - k,
{
    if k < n {
        lemma_entries_prefix(fs, k, (n - 1) as nat);
        let a = function_entries(fs, (n - 1) as nat);
        let b = function_entry((n - 1) as nat, fs[n - 1]);
        assert(function_entries(fs, n) == a + b);
        assert((a + b).subrange(0, function_entries(fs, k).len() as int) =~= a.subrange(0, function_entries(fs, k).len() as int));
    } else {
        assert(function_entries(fs, n).subrange(0, function_entries(fs, n).len() as int) =~= function_entries(fs, n));
    }
}

/// The entries of the first `n` functions depend on those functions alone.
proof fn lemma_entries_same(xs: Seq<FunctionDef>, ys: Seq<FunctionDef>, n: nat)
    requires
        n <= xs.len(),
        n <= ys.len(),
        forall|j: int| 0 <= j < n ==> function_entry(j as nat, #[trigger] xs[j]) == function_entry(j as nat, ys[j]),
    ensures
        function_entries(xs, n) == function_entries(ys, n),
    decreases n,
{
    if n > 0 {
        lemma_entries_same(xs, ys, (n - 1) as nat);
        assert(function_entry((n - 1) as nat, xs[n - 1]) == function_entry((n - 1) as nat, ys[n - 1]));
    }
}

/// Every function entry ends with a blank line, so it is never empty.
proof fn lemma_entry_nonempty(k: nat, f: FunctionDef)
    ensures
        function_entry(k, f).len() > 0,
{
    reveal_strlit("\n");
}

/// Reads the function entries from `pos` to the end of `t`. When the rest
/// of `t` is the entries of plain functions `fs`, the functions read give
/// the same entries.
fn read_functions(t: &Vec<char>, pos: usize, Ghost(fs): Ghost<Seq<FunctionDef>>) -> (r: Option<(Vec<FunctionDef>, usize)>)
    ensures
        r matches Some((_, q)) ==> pos <= q <= t@.len(),
        (forall|j: int| 0 <= j < fs.len() ==> plain_function(#[trigger] fs[j]))
            && pos <= t@.len() && t@.subrange(pos as int, t@.len() as int) == function_entries(fs, fs.len())
            ==> (r matches Some((gs, q)) && q == t@.len()
                && function_entries(gs@, gs@.len()) == function_entries(fs, fs.len())),
{
    let ghost hyp = (forall|j: int| 0 <= j < fs.len() ==> plain_function(#[trigger] fs[j]))
        && pos <= t@.len() && t@.subrange(pos as int, t@.len() as int) == function_entries(fs, fs.len());
    if pos > t.len() {
        return None;
    }
    let mut p = pos;
    let mut gs: Vec<FunctionDef> = Vec::new();
    proof {
        reveal_strlit("func_");
    }
    while p < t.len() && lit_at(t, p, "func_").is_some()
        invariant
            pos <= p <= t@.len(),
            hyp == ((forall|j: int| 0 <= j < fs.len() ==> plain_function(#[trigger] fs[j]))
                && pos <= t@.len() && t@.subrange(pos as int, t@.len() as int) == function_entries(fs, fs.len())),
            hyp ==> gs@.len() <= fs.len(),
            hyp ==> p == pos + function_entries(fs, gs@.len()).len(),
            hyp ==> function_entries(gs@, gs@.len()) == function_entries(fs, gs@.len()),
            hyp ==> forall|j: int| 0 <= j < fs.len() ==> plain_function(#[trigger] fs[j]),
            hyp ==> t@.subrange(pos as int, t@.len() as int) == function_entries(fs, fs.len()),
        decreases t@.len() - p,
    {
        let ghost k = gs@.len();
        let ghost f = if k < fs.len() { fs[k as int] } else { fs[0] };
        proof {
            if hyp {
                let n = fs.len();
                if k == n {
                    assert(p == t@.len());
                }
                assert(k < n);
                lemma_entries_prefix(fs, (k + 1) as nat, n);
                let all = function_entries(fs, n);
                let before = function_entries(fs, k);
                let upto = function_entries(fs, (k + 1) as nat);
                assert(upto == before + function_entry(k, f));
                assert(holds_at(t@, pos as int, upto)) by {
                    assert(t@.subrange(pos as int, pos + upto.len()) =~= all.subrange(0, upto.len() as int));
                }
                lemma_holds_split(t@, pos as int, before, function_entry(k, f));
                assert(plain_function(f));
            }
        }
        let (g, q) = read_function(t, p, Ghost(k), Ghost(f))?;
        let ghost gs_before = gs@;
        gs.push(g);
        p = q;
        proof {
            if hyp {
                assert(function_entries(gs@, gs@.len()) == function_entries(gs@, k) + function_entry(k, g));
                lemma_entries_same(gs@, gs_before, k);
                assert(function_entries(gs@, gs@.len()) == function_entries(fs, gs@.len()));
            }
        }
    }
    proof {
        if hyp {
            let n = fs.len();
            let k = gs@.len();
            if k < n {
                lemma_entries_prefix(fs, (k + 1) as nat, n);
                let all = function_entries(fs, n);
                let before = function_entries(fs, k);
                let f = fs[k as int];
                let upto = function_entries(fs, (k + 1) as nat);
                assert(upto == before + function_entry(k, f));
                assert(holds_at(t@, pos as int, upto)) by {
                    assert(t@.subrange(pos as int, pos + upto.len()) =~= all.subrange(0, upto.len() as int));
                }
                lemma_holds_split(t@, pos as int, before, function_entry(k, f));
                lemma_entry_nonempty(k, f);
                reveal_strlit(" ");
                let id = (k as u32) as nat;
                assert(function_entry(k, f) == function_header(k as u32, f) + code_lines(f.code@, f.code@.len()) + "\n"@);
                assert(function_header(k as u32, f) == "func_"@ + dec(id) + " "@ + f.name@ + "(params="@ + dec(f.param_count as nat)
                    + ", param_slots="@ + dec(f.param_slots as nat) + ", locals="@ + dec(f.local_slots as nat)
                    + ", ret="@ + dec(f.ret_slots as nat) + "):\n"@);
                assert(function_entry(k, f).subrange(0, 5) =~= "func_"@);
                assert(holds_at(t@, p as int, "func_"@)) by {
                    assert(t@.subrange(p as int, p + 5) =~= function_entry(k, f).subrange(0, 5));
                }
                assert(false);
            }
            lemma_entries_prefix(fs, n, n);
        }
    }
    Some((gs, p))
}

/// `t` holds `lit` at `p`, so its `i`-th character is that of `lit`.
proof fn lemma_holds_char(t: Seq<char>, p: int, lit: Seq<char>, i: int)
    requires
        holds_at(t, p, lit),
        0 <= i < lit.len(),
    ensures
        t[p + i] == lit[i],
{
    assert(t[p + i] == t.subrange(p, p + lit.len())[i]);
}

/// A module whose text is proved to read back: a name without line
/// breaks; plain struct types, named types, interface types and constants;
/// globals and host functions whose names hold no line break; any method
/// tables; and only plain functions.
pub open spec fn plain_module(m: Module) -> bool {
    &&& lacks(m.name@, '\n')
    &&& forall|j: int| 0 <= j < m.struct_metas@.len() ==> plain_struct(#[trigger] m.struct_metas@[j])
    &&& forall|j: int| 0 <= j < m.named_type_metas@.len() ==> plain_named(#[trigger] m.named_type_metas@[j])
    &&& forall|j: int| 0 <= j < m.interface_metas@.len() ==> plain_interface(#[trigger] m.interface_metas@[j])
    &&& forall|j: int| 0 <= j < m.constants@.len() ==> plain_constant(#[trigger] m.constants@[j])
    &&& forall|j: int| 0 <= j < m.globals@.len() ==> lacks(#[trigger] m.globals@[j].name@, '\n')
    &&& forall|j: int| 0 <= j < m.externs@.len() ==> lacks(#[trigger] m.externs@[j].name@, '\n')
    &&& forall|j: int| 0 <= j < m.functions@.len() ==> plain_function(#[trigger] m.functions@[j])
}

/// Reads the two header lines at the start of `t`. When `t` starts with
/// the header of a module named `name0` (without line breaks) whose entry
/// is `e0`, that name and entry are read, and the position after the
/// header is returned.
#[verifier::spinoff_prover]
#[verifier::rlimit(50)]
fn read_header(t: &Vec<char>, Ghost(name0): Ghost<Seq<char>>, Ghost(e0): Ghost<u32>) -> (r: Option<(String, u32, usize)>)
    ensures
        r matches Some((_, _, q)) ==> q <= t@.len(),
        lacks(name0, '\n') && holds_at(t@, 0, header_text(name0, e0))
            ==> (r matches Some((nm, e, q)) && nm@ == name0 && e == e0 && q == header_text(name0, e0).len()),
{
    let ghost hyp = lacks(name0, '\n') && holds_at(t@, 0, header_text(name0, e0));
    let ghost d = dec(e0 as nat);
    let ghost h1 = "# Module: "@ + name0;
    let ghost h2 = h1 + "\n"@;
    let ghost h3 = h2 + "# Entry: func_"@;
    let ghost h4 = h3 + d;
    let ghost h5 = h4 + "\n\n"@;
    proof {
        reveal_strlit("# Module: ");
        reveal_strlit("\n");
        reveal_strlit("# Entry: func_");
        reveal_strlit("\n\n");
        if hyp {
            assert(header_text(name0, e0) == h5);
            assert(t@.len() == t.len());
            lemma_holds_split(t@, 0, h4, "\n\n"@);
            lemma_holds_split(t@, 0, h3, d);
            lemma_holds_split(t@, 0, h2, "# Entry: func_"@);
            lemma_holds_split(t@, 0, h1, "\n"@);
            lemma_holds_split(t@, 0, "# Module: "@, name0);
            lemma_holds_first(t@, h4.len() as int, "\n\n"@);
            lemma_no_occurrence(t@, 10, name0, "\n"@, '\n');
            assert(!digit_at(t@, h4.len() as int));
        }
    }
    let p = lit_at(t, 0, "# Module: ")?;
    let (name, p) = read_until(t, p, "\n")?;
    let p = lit_at(t, p, "\n")?;
    let p = lit_at(t, p, "# Entry: func_")?;
    proof {
        if hyp {
            reveal_strlit("# Module: ");
            reveal_strlit("\n");
            reveal_strlit("# Entry: func_");
            assert(p == h3.len());
            assert(holds_at(t@, p as int, d));
            assert(!digit_at(t@, p + d.len()));
        }
    }
    let (entry, p) = read_u32(t, p)?;
    let p = lit_at(t, p, "\n\n")?;
    Some((name, entry, p))
}

/// The two header lines of a module named `name` whose entry is `entry`.
pub open spec fn header_text(name: Seq<char>, entry: u32) -> Seq<char> {
    "# Module: "@ + name + "\n"@ + "# Entry: func_"@ + dec(entry as nat) + "\n\n"@
}

/// `rest` starts with something other than `title`: they differ in the
/// fourth or fifth character.
pub open spec fn differs(rest: Seq<char>, title: Seq<char>) -> bool {
    rest.len() >= 5 && title.len() >= 5 && (rest[3] != title[3] || rest[4] != title[4])
}

/// The first five characters of a section followed by `rest` are those of
/// its title when it is shown, and those of `rest` when it is not.
proof fn lemma_section_start(nonempty: bool, title: Seq<char>, body: Seq<char>, rest: Seq<char>, i: int)
    requires
        title.len() >= 5,
        rest.len() >= 5,
        0 <= i < 5,
    ensures
        (section(nonempty, title, body) + rest).len() >= 5,
        (section(nonempty, title, body) + rest)[i] == if nonempty { title[i] } else { rest[i] },
{
    if nonempty {
        assert(section(nonempty, title, body) + rest =~= title + (body + "\n"@ + rest));
    } else {
        assert(section(nonempty, title, body) + rest =~= rest);
    }
}

/// Reads the struct-types section at `p`, if its title stands there, and the
/// blank line after it; otherwise reads nothing and returns `p`.
fn read_structs_section(t: &Vec<char>, p: usize, out: &mut Vec<StructMeta>, Ghost(xs): Ghost<Seq<StructMeta>>, Ghost(rest): Ghost<Seq<char>>) -> (r: Option<usize>)
    ensures
        r matches Some(q) ==> p <= q <= t@.len(),
        p <= t@.len() && !holds_at(t@, p as int, "## Struct Types\n"@) ==> r == Some(p) && final(out)@ == old(out)@,
        old(out)@.len() == 0 && (forall|j: int| 0 <= j < xs.len() ==> plain_struct(#[trigger] xs[j])) && holds_at(t@, p as int, structs_section(xs) + rest)
            && differs(rest, "## Struct Types\n"@)
            ==> (r == Some((p + structs_section(xs).len()) as usize) && final(out)@.len() == xs.len() && struct_entries(final(out)@, xs.len()) == struct_entries(xs, xs.len())),
{
    let ghost hyp = old(out)@.len() == 0 && (forall|j: int| 0 <= j < xs.len() ==> plain_struct(#[trigger] xs[j])) && holds_at(t@, p as int, structs_section(xs) + rest)
        && differs(rest, "## Struct Types\n"@);
    let ghost body = struct_entries(xs, xs.len());
    let ghost sec = structs_section(xs);
    let ghost pi = p as int;
    proof {
        reveal_strlit("## Struct Types\n");
        reveal_strlit("\n");
        if hyp {
            lemma_holds_split(t@, pi, sec, rest);
            if xs.len() > 0 {
                assert(sec =~= "## Struct Types\n"@ + (body + "\n"@));
                lemma_holds_split(t@, pi, "## Struct Types\n"@, body + "\n"@);
                lemma_holds_split(t@, pi + 16, body, "\n"@);
            } else {
                assert(sec =~= Seq::<char>::empty());
                if holds_at(t@, pi, "## Struct Types\n"@) {
                    lemma_holds_char(t@, pi, "## Struct Types\n"@, 3);
                    lemma_holds_char(t@, pi, "## Struct Types\n"@, 4);
                    lemma_holds_char(t@, pi, rest, 3);
                    lemma_holds_char(t@, pi, rest, 4);
                }
            }
        }
    }
    if p > t.len() {
        return None;
    }
    match lit_at(t, p, "## Struct Types\n") {
        None => Some(p),
        Some(q) => {
            proof {
                if hyp {
                    assert(xs.len() > 0);
                    assert(q == pi + 16);
                }
            }
            let q = read_struct_types(t, q, out, Ghost(xs))?;
            let q = lit_at(t, q, "\n")?;
            proof {
                if hyp {
                    assert(sec.len() == 16 + body.len() + 1);
                }
            }
            Some(q)
        },
    }
}

/// Reads the named-types section at `p`, if its title stands there, and the
/// blank line after it; otherwise reads nothing and returns `p`.
fn read_named_section(t: &Vec<char>, p: usize, out: &mut Vec<NamedTypeMeta>, Ghost(xs): Ghost<Seq<NamedTypeMeta>>, Ghost(rest): Ghost<Seq<char>>) -> (r: Option<usize>)
    ensures
        r matches Some(q) ==> p <= q <= t@.len(),
        p <= t@.len() && !holds_at(t@, p as int, "## Named Types\n"@) ==> r == Some(p) && final(out)@ == old(out)@,
        old(out)@.len() == 0 && (forall|j: int| 0 <= j < xs.len() ==> plain_named(#[trigger] xs[j])) && holds_at(t@, p as int, named_section(xs) + rest)
            && differs(rest, "## Named Types\n"@)
            ==> (r == Some((p + named_section(xs).len()) as usize) && final(out)@.len() == xs.len() && named_entries(final(out)@, xs.len()) == named_entries(xs, xs.len())),
{
    let ghost hyp = old(out)@.len() == 0 && (forall|j: int| 0 <= j < xs.len() ==> plain_named(#[trigger] xs[j])) && holds_at(t@, p as int, named_section(xs) + rest)
        && differs(rest, "## Named Types\n"@);
    let ghost body = named_entries(xs, xs.len());
    let ghost sec = named_section(xs);
    let ghost pi = p as int;
    proof {
        reveal_strlit("## Named Types\n");
        reveal_strlit("\n");
        if hyp {
            lemma_holds_split(t@, pi, sec, rest);
            if xs.len() > 0 {
                assert(sec =~= "## Named Types\n"@ + (body + "\n"@));
                lemma_holds_split(t@, pi, "## Named Types\n"@, body + "\n"@);
                lemma_holds_split(t@, pi + 15, body, "\n"@);
            } else {
                assert(sec =~= Seq::<char>::empty());
                if holds_at(t@, pi, "## Named Types\n"@) {
                    lemma_holds_char(t@, pi, "## Named Types\n"@, 3);
                    lemma_holds_char(t@, pi, "## Named Types\n"@, 4);
                    lemma_holds_char(t@, pi, rest, 3);
                    lemma_holds_char(t@, pi, rest, 4);
                }
            }
        }
    }
    if p > t.len() {
        return None;
    }
    match lit_at(t, p, "## Named Types\n") {
        None => Some(p),
        Some(q) => {
            proof {
                if hyp {
                    assert(xs.len() > 0);
                    assert(q == pi + 15);
                }
            }
            let q = read_named_types(t, q, out, Ghost(xs))?;
            let q = lit_at(t, q, "\n")?;
            proof {
                if hyp {
                    assert(sec.len() == 15 + body.len() + 1);
                }
            }
            Some(q)
        },
    }
}

/// Reads the interfaces section at `p`, if its title stands there, and the
/// blank line after it; otherwise reads nothing and returns `p`.
fn read_interfaces_section(t: &Vec<char>, p: usize, out: &mut Vec<InterfaceMeta>, Ghost(xs): Ghost<Seq<InterfaceMeta>>, Ghost(rest): Ghost<Seq<char>>) -> (r: Option<usize>)
    ensures
        r matches Some(q) ==> p <= q <= t@.len(),
        p <= t@.len() && !holds_at(t@, p as int, "## Interface Types\n"@) ==> r == Some(p) && final(out)@ == old(out)@,
        old(out)@.len() == 0 && (forall|j: int| 0 <= j < xs.len() ==> plain_interface(#[trigger] xs[j])) && holds_at(t@, p as int, interfaces_section(xs) + rest)
            && differs(rest, "## Interface Types\n"@)
            ==> (r == Some((p + interfaces_section(xs).len()) as usize) && final(out)@.len() == xs.len() && interface_entries(final(out)@, xs.len()) == interface_entries(xs, xs.len())),
{
    let ghost hyp = old(out)@.len() == 0 && (forall|j: int| 0 <= j < xs.len() ==> plain_interface(#[trigger] xs[j])) && holds_at(t@, p as int, interfaces_section(xs) + rest)
        && differs(rest, "## Interface Types\n"@);
    let ghost body = interface_entries(xs, xs.len());
    let ghost sec = interfaces_section(xs);
    let ghost pi = p as int;
    proof {
        reveal_strlit("## Interface Types\n");
        reveal_strlit("\n");
        if hyp {
            lemma_holds_split(t@, pi, sec, rest);
            if xs.len() > 0 {
                assert(sec =~= "## Interface Types\n"@ + (body + "\n"@));
                lemma_holds_split(t@, pi, "## Interface Types\n"@, body + "\n"@);
                lemma_holds_split(t@, pi + 19, body, "\n"@);
            } else {
                assert(sec =~= Seq::<char>::empty());
                if holds_at(t@, pi, "## Interface Types\n"@) {
                    lemma_holds_char(t@, pi, "## Interface Types\n"@, 3);
                    lemma_holds_char(t@, pi, "## Interface Types\n"@, 4);
                    lemma_holds_char(t@, pi, rest, 3);
                    lemma_holds_char(t@, pi, rest, 4);
                }
            }
        }
    }
    if p > t.len() {
        return None;
    }
    match lit_at(t, p, "## Interface Types\n") {
        None => Some(p),
        Some(q) => {
            proof {
                if hyp {
                    assert(xs.len() > 0);
                    assert(q == pi + 19);
                }
            }
            let q = read_interface_types(t, q, out, Ghost(xs))?;
            let q = lit_at(t, q, "\n")?;
            proof {
                if hyp {
                    assert(sec.len() == 19 + body.len() + 1);
                }
            }
            Some(q)
        },
    }
}

/// Reads the itabs section at `p`, if its title stands there, and the
/// blank line after it; otherwise reads nothing and returns `p`.
fn read_itabs_section(t: &Vec<char>, p: usize, out: &mut Vec<Itab>, Ghost(xs): Ghost<Seq<Itab>>, Ghost(rest): Ghost<Seq<char>>) -> (r: Option<usize>)
    ensures
        r matches Some(q) ==> p <= q <= t@.len(),
        p <= t@.len() && !holds_at(t@, p as int, "## Itabs\n"@) ==> r == Some(p) && final(out)@ == old(out)@,
        old(out)@.len() == 0 && holds_at(t@, p as int, itabs_section(xs) + rest)
            && differs(rest, "## Itabs\n"@)
            ==> (r == Some((p + itabs_section(xs).len()) as usize) && final(out)@.len() == xs.len() && itab_entries(final(out)@, xs.len()) == itab_entries(xs, xs.len())),
{
    let ghost hyp = old(out)@.len() == 0 && holds_at(t@, p as int, itabs_section(xs) + rest)
        && differs(rest, "## Itabs\n"@);
    let ghost body = itab_entries(xs, xs.len());
    let ghost sec = itabs_section(xs);
    let ghost pi = p as int;
    proof {
        reveal_strlit("## Itabs\n");
        reveal_strlit("\n");
        if hyp {
            lemma_holds_split(t@, pi, sec, rest);
            if xs.len() > 0 {
                assert(sec =~= "## Itabs\n"@ + (body + "\n"@));
                lemma_holds_split(t@, pi, "## Itabs\n"@, body + "\n"@);
                lemma_holds_split(t@, pi + 9, body, "\n"@);
            } else {
                assert(sec =~= Seq::<char>::empty());
                if holds_at(t@, pi, "## Itabs\n"@) {
                    lemma_holds_char(t@, pi, "## Itabs\n"@, 3);
                    lemma_holds_char(t@, pi, "## Itabs\n"@, 4);
                    lemma_holds_char(t@, pi, rest, 3);
                    lemma_holds_char(t@, pi, rest, 4);
                }
            }
        }
    }
    if p > t.len() {
        return None;
    }
    match lit_at(t, p, "## Itabs\n") {
        None => Some(p),
        Some(q) => {
            proof {
                if hyp {
                    assert(xs.len() > 0);
                    assert(q == pi + 9);
                }
            }
            let q = read_itabs(t, q, out, Ghost(xs))?;
            let q = lit_at(t, q, "\n")?;
            proof {
                if hyp {
                    assert(sec.len() == 9 + body.len() + 1);
                }
            }
            Some(q)
        },
    }
}

/// Reads the constants section at `p`, if its title stands there, and the
/// blank line after it; otherwise reads nothing and returns `p`.
fn read_constants_section(t: &Vec<char>, p: usize, out: &mut Vec<Constant>, Ghost(xs): Ghost<Seq<Constant>>, Ghost(rest): Ghost<Seq<char>>) -> (r: Option<usize>)
    ensures
        r matches Some(q) ==> p <= q <= t@.len(),
        p <= t@.len() && !holds_at(t@, p as int, "## Constants\n"@) ==> r == Some(p) && final(out)@ == old(out)@,
        old(out)@.len() == 0 && (forall|j: int| 0 <= j < xs.len() ==> plain_constant(#[trigger] xs[j])) && holds_at(t@, p as int, constants_section(xs) + rest)
            && differs(rest, "## Constants\n"@)
            ==> (r == Some((p + constants_section(xs).len()) as usize) && final(out)@.len() == xs.len() && constant_entries(final(out)@, xs.len()) == constant_entries(xs, xs.len())),
{
    let ghost hyp = old(out)@.len() == 0 && (forall|j: int| 0 <= j < xs.len() ==> plain_constant(#[trigger] xs[j])) && holds_at(t@, p as int, constants_section(xs) + rest)
        && differs(rest, "## Constants\n"@);
    let ghost body = constant_entries(xs, xs.len());
    let ghost sec = constants_section(xs);
    let ghost pi = p as int;
    proof {
        reveal_strlit("## Constants\n");
        reveal_strlit("\n");
        if hyp {
            lemma_holds_split(t@, pi, sec, rest);
            if xs.len() > 0 {
                assert(sec =~= "## Constants\n"@ + (body + "\n"@));
                lemma_holds_split(t@, pi, "## Constants\n"@, body + "\n"@);
                lemma_holds_split(t@, pi + 13, body, "\n"@);
            } else {
                assert(sec =~= Seq::<char>::empty());
                if holds_at(t@, pi, "## Constants\n"@) {
                    lemma_holds_char(t@, pi, "## Constants\n"@, 3);
                    lemma_holds_char(t@, pi, "## Constants\n"@, 4);
                    lemma_holds_char(t@, pi, rest, 3);
                    lemma_holds_char(t@, pi, rest, 4);
                }
            }
        }
    }
    if p > t.len() {
        return None;
    }
    match lit_at(t, p, "## Constants\n") {
        None => Some(p),
        Some(q) => {
            proof {
                if hyp {
                    assert(xs.len() > 0);
                    assert(q == pi + 13);
                }
            }
            let q = read_constants(t, q, out, Ghost(xs))?;
            let q = lit_at(t, q, "\n")?;
            proof {
                if hyp {
                    assert(sec.len() == 13 + body.len() + 1);
                }
            }
            Some(q)
        },
    }
}

/// Reads the globals section at `p`, if its title stands there, and the
/// blank line after it; otherwise reads nothing and returns `p`.
fn read_globals_section(t: &Vec<char>, p: usize, out: &mut Vec<GlobalDef>, Ghost(xs): Ghost<Seq<GlobalDef>>, Ghost(rest): Ghost<Seq<char>>) -> (r: Option<usize>)
    ensures
        r matches Some(q) ==> p <= q <= t@.len(),
        p <= t@.len() && !holds_at(t@, p as int, "## Globals\n"@) ==> r == Some(p) && final(out)@ == old(out)@,
        old(out)@.len() == 0 && (forall|j: int| 0 <= j < xs.len() ==> lacks(#[trigger] xs[j].name@, '\n')) && holds_at(t@, p as int, globals_section(xs) + rest)
            && differs(rest, "## Globals\n"@)
            ==> (r == Some((p + globals_section(xs).len()) as usize) && final(out)@.len() == xs.len() && global_entries(final(out)@, xs.len()) == global_entries(xs, xs.len())),
{
    let ghost hyp = old(out)@.len() == 0 && (forall|j: int| 0 <= j < xs.len() ==> lacks(#[trigger] xs[j].name@, '\n')) && holds_at(t@, p as int, globals_section(xs) + rest)
        && differs(rest, "## Globals\n"@);
    let ghost body = global_entries(xs, xs.len());
    let ghost sec = globals_section(xs);
    let ghost pi = p as int;
    proof {
        reveal_strlit("## Globals\n");
        reveal_strlit("\n");
        if hyp {
            lemma_holds_split(t@, pi, sec, rest);
            if xs.len() > 0 {
                assert(sec =~= "## Globals\n"@ + (body + "\n"@));
                lemma_holds_split(t@, pi, "## Globals\n"@, body + "\n"@);
                lemma_holds_split(t@, pi + 11, body, "\n"@);
            } else {
                assert(sec =~= Seq::<char>::empty());
                if holds_at(t@, pi, "## Globals\n"@) {
                    lemma_holds_char(t@, pi, "## Globals\n"@, 3);
                    lemma_holds_char(t@, pi, "## Globals\n"@, 4);
                    lemma_holds_char(t@, pi, rest, 3);
                    lemma_holds_char(t@, pi, rest, 4);
                }
            }
        }
    }
    if p > t.len() {
        return None;
    }
    match lit_at(t, p, "## Globals\n") {
        None => Some(p),
        Some(q) => {
            proof {
                if hyp {
                    assert(xs.len() > 0);
                    assert(q == pi + 11);
                }
            }
            let q = read_globals(t, q, out, Ghost(xs))?;
            let q = lit_at(t, q, "\n")?;
            proof {
                if hyp {
                    assert(sec.len() == 11 + body.len() + 1);
                }
            }
            Some(q)
        },
    }
}

/// Reads the externs section at `p`, if its title stands there, and the
/// blank line after it; otherwise reads nothing and returns `p`.
fn read_externs_section(t: &Vec<char>, p: usize, out: &mut Vec<ExternDef>, Ghost(xs): Ghost<Seq<ExternDef>>, Ghost(rest): Ghost<Seq<char>>) -> (r: Option<usize>)
    ensures
        r matches Some(q) ==> p <= q <= t@.len(),
        p <= t@.len() && !holds_at(t@, p as int, "## Externs\n"@) ==> r == Some(p) && final(out)@ == old(out)@,
        old(out)@.len() == 0 && (forall|j: int| 0 <= j < xs.len() ==> lacks(#[trigger] xs[j].name@, '\n')) && holds_at(t@, p as int, externs_section(xs) + rest)
            && differs(rest, "## Externs\n"@)
            ==> (r == Some((p + externs_section(xs).len()) as usize) && final(out)@.len() == xs.len() && extern_entries(final(out)@, xs.len()) == extern_entries(xs, xs.len())),
{
    let ghost hyp = old(out)@.len() == 0 && (forall|j: int| 0 <= j < xs.len() ==> lacks(#[trigger] xs[j].name@, '\n')) && holds_at(t@, p as int, externs_section(xs) + rest)
        && differs(rest, "## Externs\n"@);
    let ghost body = extern_entries(xs, xs.len());
    let ghost sec = externs_section(xs);
    let ghost pi = p as int;
    proof {
        reveal_strlit("## Externs\n");
        reveal_strlit("\n");
        if hyp {
            lemma_holds_split(t@, pi, sec, rest);
            if xs.len() > 0 {
                assert(sec =~= "## Externs\n"@ + (body + "\n"@));
                lemma_holds_split(t@, pi, "## Externs\n"@, body + "\n"@);
                lemma_holds_split(t@, pi + 11, body, "\n"@);
            } else {
                assert(sec =~= Seq::<char>::empty());
                if holds_at(t@, pi, "## Externs\n"@) {
                    lemma_holds_char(t@, pi, "## Externs\n"@, 3);
                    lemma_holds_char(t@, pi, "## Externs\n"@, 4);
                    lemma_holds_char(t@, pi, rest, 3);
                    lemma_holds_char(t@, pi, rest, 4);
                }
            }
        }
    }
    if p > t.len() {
        return None;
    }
    match lit_at(t, p, "## Externs\n") {
        None => Some(p),
        Some(q) => {
            proof {
                if hyp {
                    assert(xs.len() > 0);
                    assert(q == pi + 11);
                }
            }
            let q = read_externs(t, q, out, Ghost(xs))?;
            let q = lit_at(t, q, "\n")?;
            proof {
                if hyp {
                    assert(sec.len() == 11 + body.len() + 1);
                }
            }
            Some(q)
        },
    }
}

/// Reads the sections of struct types, named types, interface types and
/// method tables that stand at `p`. When the sections of plain struct types
/// `ss`, plain named types `ns`, plain interface types `is` and method
/// tables `its` stand there,
/// each shown only when it has entries, followed by text `rest` that starts
/// no such section, those entries are read into `m`, which otherwise stays
/// as it was.
#[verifier::spinoff_prover]
#[verifier::rlimit(100)]
fn read_type_tables(
    t: &Vec<char>,
    p: usize,
    m: &mut Module,
    Ghost(ss): Ghost<Seq<StructMeta>>,
    Ghost(ns): Ghost<Seq<NamedTypeMeta>>,
    Ghost(is): Ghost<Seq<InterfaceMeta>>,
    Ghost(its): Ghost<Seq<Itab>>,
    Ghost(rest): Ghost<Seq<char>>,
) -> (r: Option<usize>)
    ensures
        r matches Some(q) ==> q <= t@.len(),
        old(m).struct_metas@.len() == 0 && old(m).named_type_metas@.len() == 0 && old(m).interface_metas@.len() == 0 && old(m).itabs@.len() == 0
            && (forall|j: int| 0 <= j < ss.len() ==> plain_struct(#[trigger] ss[j]))
        && (forall|j: int| 0 <= j < ns.len() ==> plain_named(#[trigger] ns[j]))
            && (forall|j: int| 0 <= j < ns.len() ==> plain_named(#[trigger] ns[j]))
            && (forall|j: int| 0 <= j < is.len() ==> plain_interface(#[trigger] is[j]))
            && rest.len() >= 5 && rest[3] != 'S' && rest[3] != 'N' && rest[3] != 'I'
            && holds_at(t@, p as int, type_tables_text(ss, ns, is, its) + rest)
            ==> (r == Some((p + type_tables_text(ss, ns, is, its).len()) as usize)
                && final(m).struct_metas@.len() == ss.len()
                && struct_entries(final(m).struct_metas@, ss.len()) == struct_entries(ss, ss.len())
                && final(m).named_type_metas@.len() == ns.len()
                && named_entries(final(m).named_type_metas@, ns.len()) == named_entries(ns, ns.len())
                && final(m).interface_metas@.len() == is.len()
                && interface_entries(final(m).interface_metas@, is.len()) == interface_entries(is, is.len())
                && final(m).itabs@.len() == its.len()
                && itab_entries(final(m).itabs@, its.len()) == itab_entries(its, its.len())
                && final(m).name == old(m).name && final(m).entry_func == old(m).entry_func
                && final(m).constants == old(m).constants && final(m).globals == old(m).globals
                && final(m).externs == old(m).externs && final(m).functions == old(m).functions),
{
    let ghost hyp = old(m).struct_metas@.len() == 0 && old(m).named_type_metas@.len() == 0 && old(m).interface_metas@.len() == 0 && old(m).itabs@.len() == 0
        && (forall|j: int| 0 <= j < ss.len() ==> plain_struct(#[trigger] ss[j]))
        && (forall|j: int| 0 <= j < ns.len() ==> plain_named(#[trigger] ns[j]))
        && (forall|j: int| 0 <= j < is.len() ==> plain_interface(#[trigger] is[j]))
        && rest.len() >= 5 && rest[3] != 'S' && rest[3] != 'N' && rest[3] != 'I'
        && holds_at(t@, p as int, type_tables_text(ss, ns, is, its) + rest);
    let ghost ssec = structs_section(ss);
    let ghost nsec = named_section(ns);
    let ghost isec = interfaces_section(is);
    let ghost tsec = itabs_section(its);
    let ghost r2 = rest;
    let ghost r1 = tsec + r2;
    let ghost rn = isec + r1;
    let ghost r0 = nsec + rn;
    let ghost pi = p as int;
    proof {
        reveal_strlit("## Interface Types\n");
        reveal_strlit("## Itabs\n");
        reveal_strlit("## Struct Types\n");
        reveal_strlit("## Named Types\n");
        if hyp {
            lemma_section_start(its.len() > 0, "## Itabs\n"@, itab_entries(its, its.len()), r2, 3);
            lemma_section_start(its.len() > 0, "## Itabs\n"@, itab_entries(its, its.len()), r2, 4);
            lemma_section_start(is.len() > 0, "## Interface Types\n"@, interface_entries(is, is.len()), r1, 3);
            lemma_section_start(is.len() > 0, "## Interface Types\n"@, interface_entries(is, is.len()), r1, 4);
            lemma_section_start(ns.len() > 0, "## Named Types\n"@, named_entries(ns, ns.len()), rn, 3);
            lemma_section_start(ss.len() > 0, "## Struct Types\n"@, struct_entries(ss, ss.len()), r0, 3);
            assert(differs(r2, "## Itabs\n"@));
            assert(differs(r1, "## Interface Types\n"@));
            assert(differs(rn, "## Named Types\n"@));
            assert(differs(r0, "## Struct Types\n"@));
            assert(type_tables_text(ss, ns, is, its) + rest =~= ssec + r0);
            assert(t@.len() == t.len());
            lemma_holds_split(t@, pi, ssec, r0);
        }
    }
    if p > t.len() {
        return None;
    }
    let p = read_structs_section(t, p, &mut m.struct_metas, Ghost(ss), Ghost(r0))?;
    proof {
        if hyp {
            lemma_holds_split(t@, pi, ssec, r0);
        }
    }
    let p = read_named_section(t, p, &mut m.named_type_metas, Ghost(ns), Ghost(rn))?;
    proof {
        if hyp {
            lemma_holds_split(t@, pi + ssec.len(), nsec, rn);
        }
    }
    let p = read_interfaces_section(t, p, &mut m.interface_metas, Ghost(is), Ghost(r1))?;
    proof {
        if hyp {
            lemma_holds_split(t@, pi + ssec.len() + nsec.len(), isec, r1);
        }
    }
    let p = read_itabs_section(t, p, &mut m.itabs, Ghost(its), Ghost(r2))?;
    Some(p)
}

/// Reads the sections of constants, globals and host functions that stand
/// at `p`. When the sections of plain constants `cs`, globals `gs` and host
/// functions `xs` (names free of line breaks) stand there, each shown only
/// when it has entries, followed by the functions section, those entries
/// are read into `m`, which otherwise stays as it was.
#[verifier::spinoff_prover]
#[verifier::rlimit(100)]
fn read_data_tables(
    t: &Vec<char>,
    p: usize,
    m: &mut Module,
    Ghost(cs): Ghost<Seq<Constant>>,
    Ghost(gs): Ghost<Seq<GlobalDef>>,
    Ghost(xs): Ghost<Seq<ExternDef>>,
) -> (r: Option<usize>)
    ensures
        r matches Some(q) ==> q <= t@.len(),
        old(m).constants@.len() == 0 && old(m).globals@.len() == 0 && old(m).externs@.len() == 0
            && (forall|j: int| 0 <= j < cs.len() ==> plain_constant(#[trigger] cs[j]))
            && (forall|j: int| 0 <= j < gs.len() ==> lacks(#[trigger] gs[j].name@, '\n'))
            && (forall|j: int| 0 <= j < xs.len() ==> lacks(#[trigger] xs[j].name@, '\n'))
            && holds_at(t@, p as int, data_tables_text(cs, gs, xs) + "## Functions\n\n"@)
            ==> (r == Some((p + data_tables_text(cs, gs, xs).len()) as usize)
                && final(m).constants@.len() == cs.len()
                && constant_entries(final(m).constants@, cs.len()) == constant_entries(cs, cs.len())
                && final(m).globals@.len() == gs.len()
                && global_entries(final(m).globals@, gs.len()) == global_entries(gs, gs.len())
                && final(m).externs@.len() == xs.len()
                && extern_entries(final(m).externs@, xs.len()) == extern_entries(xs, xs.len())
                && final(m).name == old(m).name && final(m).entry_func == old(m).entry_func
                && final(m).struct_metas == old(m).struct_metas
                && final(m).named_type_metas == old(m).named_type_metas
                && final(m).interface_metas == old(m).interface_metas
                && final(m).itabs == old(m).itabs && final(m).functions == old(m).functions),
{
    let ghost hyp = old(m).constants@.len() == 0 && old(m).globals@.len() == 0 && old(m).externs@.len() == 0
        && (forall|j: int| 0 <= j < cs.len() ==> plain_constant(#[trigger] cs[j]))
        && (forall|j: int| 0 <= j < gs.len() ==> lacks(#[trigger] gs[j].name@, '\n'))
        && (forall|j: int| 0 <= j < xs.len() ==> lacks(#[trigger] xs[j].name@, '\n'))
        && holds_at(t@, p as int, data_tables_text(cs, gs, xs) + "## Functions\n\n"@);
    let ghost csec = constants_section(cs);
    let ghost gsec = globals_section(gs);
    let ghost xsec = externs_section(xs);
    let ghost r5 = "## Functions\n\n"@;
    let ghost r4 = xsec + r5;
    let ghost r3 = gsec + r4;
    let ghost pi = p as int;
    proof {
        reveal_strlit("## Functions\n\n");
        reveal_strlit("## Constants\n");
        reveal_strlit("## Globals\n");
        reveal_strlit("## Externs\n");
        if hyp {
            lemma_section_start(xs.len() > 0, "## Externs\n"@, extern_entries(xs, xs.len()), r5, 3);
            lemma_section_start(gs.len() > 0, "## Globals\n"@, global_entries(gs, gs.len()), r4, 3);
            assert(differs(r5, "## Externs\n"@));
            assert(differs(r4, "## Globals\n"@));
            assert(differs(r3, "## Constants\n"@));
            assert(data_tables_text(cs, gs, xs) + r5 =~= csec + r3);
            assert(t@.len() == t.len());
        }
    }
    if p > t.len() {
        return None;
    }
    let p = read_constants_section(t, p, &mut m.constants, Ghost(cs), Ghost(r3))?;
    proof {
        if hyp {
            lemma_holds_split(t@, pi, csec, r3);
        }
    }
    let p = read_globals_section(t, p, &mut m.globals, Ghost(gs), Ghost(r4))?;
    proof {
        if hyp {
            lemma_holds_split(t@, pi + csec.len(), gsec, r4);
        }
    }
    let p = read_externs_section(t, p, &mut m.externs, Ghost(xs), Ghost(r5))?;
    Some(p)
}

/// The sections of struct types, named types, interface types and method
/// tables that a module shows.
pub open spec fn type_tables_text(ss: Seq<StructMeta>, ns: Seq<NamedTypeMeta>, is: Seq<InterfaceMeta>, its: Seq<Itab>) -> Seq<char> {
    structs_section(ss) + named_section(ns) + interfaces_section(is) + itabs_section(its)
}

/// The section of named types `ns`, as the text form of a module shows it:
/// nothing when there are none.
pub open spec fn named_section(ns: Seq<NamedTypeMeta>) -> Seq<char> {
    section(ns.len() > 0, "## Named Types\n"@, named_entries(ns, ns.len()))
}

/// The sections of constants, globals and host functions that a module
/// shows.
pub open spec fn data_tables_text(cs: Seq<Constant>, gs: Seq<GlobalDef>, xs: Seq<ExternDef>) -> Seq<char> {
    constants_section(cs) + globals_section(gs) + externs_section(xs)
}

/// The text after the type tables of a module starts with the title of a
/// data section or of the functions section.
proof fn lemma_data_tables_start(cs: Seq<Constant>, gs: Seq<GlobalDef>, xs: Seq<ExternDef>)
    ensures
        (data_tables_text(cs, gs, xs) + "## Functions\n\n"@).len() >= 5,
        (data_tables_text(cs, gs, xs) + "## Functions\n\n"@)[3] != 'S',
        (data_tables_text(cs, gs, xs) + "## Functions\n\n"@)[3] != 'N',
        (data_tables_text(cs, gs, xs) + "## Functions\n\n"@)[3] != 'I',
{
    reveal_strlit("## Functions\n\n");
    reveal_strlit("## Constants\n");
    reveal_strlit("## Globals\n");
    reveal_strlit("## Externs\n");
    let r5 = "## Functions\n\n"@;
    let r4 = externs_section(xs) + r5;
    let r3 = globals_section(gs) + r4;
    lemma_section_start(xs.len() > 0, "## Externs\n"@, extern_entries(xs, xs.len()), r5, 3);
    lemma_section_start(gs.len() > 0, "## Globals\n"@, global_entries(gs, gs.len()), r4, 3);
    lemma_section_start(cs.len() > 0, "## Constants\n"@, constant_entries(cs, cs.len()), r3, 3);
    assert(data_tables_text(cs, gs, xs) + r5 =~= constants_section(cs) + r3);
}

/// Regrouping the pieces of a module's text.
proof fn lemma_regroup(
    h: Seq<char>,
    s: Seq<char>,
    n: Seq<char>,
    i: Seq<char>,
    t: Seq<char>,
    c: Seq<char>,
    g: Seq<char>,
    x: Seq<char>,
    f: Seq<char>,
    b: Seq<char>,
)
    ensures
        h + s + n + i + t + c + g + x + f + b == h + (s + n + i + t) + (c + g + x) + f + b,
{
    assert(h + s + n + i + t + c + g + x + f + b =~= h + (s + n + i + t) + (c + g + x) + f + b);
}

/// The text of a module taken apart: header, type tables, data tables,
/// then the functions section.
proof fn lemma_module_text_parts(m: Module)
    ensures
        module_text(m) == header_text(m.name@, m.entry_func)
            + type_tables_text(m.struct_metas@, m.named_type_metas@, m.interface_metas@, m.itabs@)
            + data_tables_text(m.constants@, m.globals@, m.externs@)
            + "## Functions\n\n"@ + function_entries(m.functions@, m.functions@.len()),
{
    assert(module_header(m) == header_text(m.name@, m.entry_func));
    lemma_regroup(
        module_header(m),
        structs_section(m.struct_metas@),
        named_section(m.named_type_metas@),
        interfaces_section(m.interface_metas@),
        itabs_section(m.itabs@),
        constants_section(m.constants@),
        globals_section(m.globals@),
        externs_section(m.externs@),
        "## Functions\n\n"@,
        function_entries(m.functions@, m.functions@.len()),
    );
}

/// The section of struct types `ss`, as the text form of a module shows
/// it: nothing when there are none.
pub open spec fn structs_section(ss: Seq<StructMeta>) -> Seq<char> {
    section(ss.len() > 0, "## Struct Types\n"@, struct_entries(ss, ss.len()))
}

/// The section of interface types `is`, as the text form of a module shows
/// it: nothing when there are none.
pub open spec fn interfaces_section(is: Seq<InterfaceMeta>) -> Seq<char> {
    section(is.len() > 0, "## Interface Types\n"@, interface_entries(is, is.len()))
}

/// The section of method tables `its`, as the text form of a module shows
/// it: nothing when there are none.
pub open spec fn itabs_section(its: Seq<Itab>) -> Seq<char> {
    section(its.len() > 0, "## Itabs\n"@, itab_entries(its, its.len()))
}

/// The section of constants `cs`, as the text form of a module shows it:
/// nothing when there are none.
pub open spec fn constants_section(cs: Seq<Constant>) -> Seq<char> {
    section(cs.len() > 0, "## Constants\n"@, constant_entries(cs, cs.len()))
}

/// The section of globals `gs`, as the text form of a module shows it:
/// nothing when there are none.
pub open spec fn globals_section(gs: Seq<GlobalDef>) -> Seq<char> {
    section(gs.len() > 0, "## Globals\n"@, global_entries(gs, gs.len()))
}

/// The section of host functions `xs`, as the text form of a module shows
/// it: nothing when there are none.
pub open spec fn externs_section(xs: Seq<ExternDef>) -> Seq<char> {
    section(xs.len() > 0, "## Externs\n"@, extern_entries(xs, xs.len()))
}

/// Takes the text form of a module apart into a candidate module. Whether
/// the candidate formats back to `input` is checked by `parse_text`; for
/// the text of a plain module, the candidate is proved to do so.
#[verifier::spinoff_prover]
#[verifier::rlimit(100)]
pub fn read_module(input: &str) -> (r: Option<Module>)
    ensures
        (exists|m: Module| plain_module(m) && input@ == module_text(m))
            ==> (r matches Some(m2) && module_text(m2) == input@),
{
    let ghost hyp = exists|m: Module| plain_module(m) && input@ == module_text(m);
    let ghost m0 = choose|m: Module| plain_module(m) && input@ == module_text(m);
    let ghost fs = m0.functions@;
    let ghost head = header_text(m0.name@, m0.entry_func);
    let ghost types = type_tables_text(m0.struct_metas@, m0.named_type_metas@, m0.interface_metas@, m0.itabs@);
    let ghost data = data_tables_text(m0.constants@, m0.globals@, m0.externs@);
    let ghost fx = "## Functions\n\n"@;
    let ghost body = function_entries(fs, fs.len());
    let t = chars_of(input);
    proof {
        reveal_strlit("## Functions\n\n");
        if hyp {
            lemma_module_text_parts(m0);
            lemma_data_tables_start(m0.constants@, m0.globals@, m0.externs@);
            assert(t@ =~= head + (types + (data + fx)) + body);
            assert(t@.subrange(0, t@.len() as int) =~= t@);
            lemma_holds_split(t@, 0, head + (types + (data + fx)), body);
            lemma_holds_split(t@, 0, head, types + (data + fx));
            lemma_holds_split(t@, head.len() as int, types, data + fx);
            lemma_holds_split(t@, (head.len() + types.len()) as int, data, fx);
            assert(t@.subrange((head.len() + types.len() + data.len() + 14) as int, t@.len() as int) == body) by {
                assert(t@.len() == head.len() + types.len() + data.len() + 14 + body.len());
            }
        }
    }
    let (name, entry, p) = read_header(&t, Ghost(m0.name@), Ghost(m0.entry_func))?;
    let mut m = Module {
        name,
        entry_func: entry,
        struct_metas: Vec::new(),
        named_type_metas: Vec::new(),
        interface_metas: Vec::new(),
        itabs: Vec::new(),
        constants: Vec::new(),
        globals: Vec::new(),
        externs: Vec::new(),
        functions: Vec::new(),
    };
    proof {
        if hyp {
            assert(p == head.len());
            assert(t@.len() == t.len());
        }
    }
    let p = read_type_tables(&t, p, &mut m, Ghost(m0.struct_metas@), Ghost(m0.named_type_metas@), Ghost(m0.interface_metas@), Ghost(m0.itabs@), Ghost(data + fx))?;
    let p = read_data_tables(&t, p, &mut m, Ghost(m0.constants@), Ghost(m0.globals@), Ghost(m0.externs@))?;
    proof {
        if hyp {
            assert(p == head.len() + types.len() + data.len());
        }
    }
    let p = lit_at(&t, p, "## Functions\n\n")?;
    let (gs, p) = read_functions(&t, p, Ghost(fs))?;
    m.functions = gs;
    if p == t.len() {
        proof {
            if hyp {
                lemma_module_text_parts(m);
                assert(m.name@ == m0.name@);
                assert(externs_section(m.externs@) == externs_section(m0.externs@));
                assert(globals_section(m.globals@) == globals_section(m0.globals@));
                assert(constants_section(m.constants@) == constants_section(m0.constants@));
                assert(interfaces_section(m.interface_metas@) == interfaces_section(m0.interface_metas@));
                assert(structs_section(m.struct_metas@) == structs_section(m0.struct_metas@));
                assert(itabs_section(m.itabs@) == itabs_section(m0.itabs@));
                assert(named_section(m.named_type_metas@) == named_section(m0.named_type_metas@));
                assert(module_text(m) =~= head + types + data + fx + body);
            }
        }
        Some(m)
    } else {
        None
    }
}


} // verus!
