//! The operand order of instruction lines.
//!
//! Each instruction line is its mnemonic in a column fourteen characters
//! wide, then its operands. For the instructions whose operands are
//! registers, the registers appear in the order of the instruction's
//! fields: `a`, then `b`, then `c`. So `SubI` with `a = 1`, `b = 2`,
//! `c = 3` reads `SubI          r1, r2, r3`: `r1 = r2 - r3`.

use vstd::prelude::*;

use crate::bytecode::{imm32_unsigned_of, Instruction, Opcode};
use crate::format::instruction_text;
use crate::text::{dec, sdec};
use crate::text_layout::opcode_name;

verus! {

/// `n` spaces.
pub open spec fn spaces(n: nat) -> Seq<char> {
    Seq::new(n, |_k: int| ' ')
}

/// The mnemonic column of an instruction line: the mnemonic, padded with
/// spaces to fourteen characters.
pub open spec fn column(op: Opcode) -> Seq<char> {
    opcode_name(op) + spaces((14 - opcode_name(op).len()) as nat)
}

/// The opcodes whose operands are the three registers `a`, `b`, `c`, in that order: `r<a>, r<b>, r<c>`.
pub open spec fn three_register(op: Opcode) -> bool {
    op is PtrAdd || op is AddI || op is SubI || op is MulI || op is DivI || op is DivU || op is ModI || op is ModU || op is AddF || op is SubF || op is MulF || op is DivF || op is EqI || op is NeI || op is LtI || op is LeI || op is GtI || op is GeI || op is LtU || op is LeU || op is GtU || op is GeU || op is EqF || op is NeF || op is LtF || op is LeF || op is GtF || op is GeF || op is And || op is Or || op is Xor || op is AndNot || op is Shl || op is ShrS || op is ShrU || op is StrIndex || op is StrConcat || op is StrEq || op is StrNe || op is StrLt || op is StrLe || op is StrGt || op is StrGe || op is StrDecodeRune || op is IfaceEq
}

/// The opcodes whose operands are the registers `a` and `b`, in that order: `r<a>, r<b>`.
pub open spec fn two_register(op: Opcode) -> bool {
    op is Copy || op is NegI || op is NegF || op is Not || op is BoolNot || op is StrLen || op is SliceLen || op is SliceCap || op is MapLen || op is MapIterInit || op is ChanLen || op is ChanCap || op is SelectSend || op is SelectRecv || op is ConvI2F || op is ConvF2I || op is ConvF64F32 || op is ConvF32F64 || op is IndexCheck || op is PortLen || op is PortCap
}

/// The opcodes whose operands are the register `a` alone: `r<a>`.
pub open spec fn one_register(op: Opcode) -> bool {
    op is MapNew || op is ChanClose || op is SelectExec || op is Panic || op is Recover || op is IslandNew || op is PortClose
}

/// The opcodes whose operands are register `a`, then register `b` indexed by register `c`: `r<a>, r<b>[r<c>]`.
pub open spec fn indexed_load(op: Opcode) -> bool {
    op is SlotGet || op is MapGet
}

/// The opcodes whose operands are register `a` indexed by register `b`, then register `c`: `r<a>[r<b>], r<c>`.
pub open spec fn indexed_store(op: Opcode) -> bool {
    op is SlotSet || op is MapSet
}

#[verifier::spinoff_prover]
proof fn lemma_three_register_0(i: Instruction)
    requires
        i.opcode is PtrAdd || i.opcode is AddI || i.opcode is SubI || i.opcode is MulI || i.opcode is DivI || i.opcode is DivU || i.opcode is ModI || i.opcode is ModU,
    ensures
        instruction_text(i) == column(i.opcode) + "r"@ + dec(i.a as nat) + ", r"@ + dec(i.b as nat) + ", r"@ + dec(i.c as nat),
{
    reveal_strlit("r");
    match i.opcode {
        Opcode::PtrAdd => {
            reveal_strlit("PtrAdd");
            reveal_strlit("PtrAdd        r");
            assert(column(Opcode::PtrAdd) + "r"@ =~= "PtrAdd        r"@);
        },
        Opcode::AddI => {
            reveal_strlit("AddI");
            reveal_strlit("AddI          r");
            assert(column(Opcode::AddI) + "r"@ =~= "AddI          r"@);
        },
        Opcode::SubI => {
            reveal_strlit("SubI");
            reveal_strlit("SubI          r");
            assert(column(Opcode::SubI) + "r"@ =~= "SubI          r"@);
        },
        Opcode::MulI => {
            reveal_strlit("MulI");
            reveal_strlit("MulI          r");
            assert(column(Opcode::MulI) + "r"@ =~= "MulI          r"@);
        },
        Opcode::DivI => {
            reveal_strlit("DivI");
            reveal_strlit("DivI          r");
            assert(column(Opcode::DivI) + "r"@ =~= "DivI          r"@);
        },
        Opcode::DivU => {
            reveal_strlit("DivU");
            reveal_strlit("DivU          r");
            assert(column(Opcode::DivU) + "r"@ =~= "DivU          r"@);
        },
        Opcode::ModI => {
            reveal_strlit("ModI");
            reveal_strlit("ModI          r");
            assert(column(Opcode::ModI) + "r"@ =~= "ModI          r"@);
        },
        Opcode::ModU => {
            reveal_strlit("ModU");
            reveal_strlit("ModU          r");
            assert(column(Opcode::ModU) + "r"@ =~= "ModU          r"@);
        },
        _ => {},
    }
}

#[verifier::spinoff_prover]
proof fn lemma_three_register_1(i: Instruction)
    requires
        i.opcode is AddF || i.opcode is SubF || i.opcode is MulF || i.opcode is DivF || i.opcode is EqI || i.opcode is NeI || i.opcode is LtI || i.opcode is LeI,
    ensures
        instruction_text(i) == column(i.opcode) + "r"@ + dec(i.a as nat) + ", r"@ + dec(i.b as nat) + ", r"@ + dec(i.c as nat),
{
    reveal_strlit("r");
    match i.opcode {
        Opcode::AddF => {
            reveal_strlit("AddF");
            reveal_strlit("AddF          r");
            assert(column(Opcode::AddF) + "r"@ =~= "AddF          r"@);
        },
        Opcode::SubF => {
            reveal_strlit("SubF");
            reveal_strlit("SubF          r");
            assert(column(Opcode::SubF) + "r"@ =~= "SubF          r"@);
        },
        Opcode::MulF => {
            reveal_strlit("MulF");
            reveal_strlit("MulF          r");
            assert(column(Opcode::MulF) + "r"@ =~= "MulF          r"@);
        },
        Opcode::DivF => {
            reveal_strlit("DivF");
            reveal_strlit("DivF          r");
            assert(column(Opcode::DivF) + "r"@ =~= "DivF          r"@);
        },
        Opcode::EqI => {
            reveal_strlit("EqI");
            reveal_strlit("EqI           r");
            assert(column(Opcode::EqI) + "r"@ =~= "EqI           r"@);
        },
        Opcode::NeI => {
            reveal_strlit("NeI");
            reveal_strlit("NeI           r");
            assert(column(Opcode::NeI) + "r"@ =~= "NeI           r"@);
        },
        Opcode::LtI => {
            reveal_strlit("LtI");
            reveal_strlit("LtI           r");
            assert(column(Opcode::LtI) + "r"@ =~= "LtI           r"@);
        },
        Opcode::LeI => {
            reveal_strlit("LeI");
            reveal_strlit("LeI           r");
            assert(column(Opcode::LeI) + "r"@ =~= "LeI           r"@);
        },
        _ => {},
    }
}

#[verifier::spinoff_prover]
proof fn lemma_three_register_2(i: Instruction)
    requires
        i.opcode is GtI || i.opcode is GeI || i.opcode is LtU || i.opcode is LeU || i.opcode is GtU || i.opcode is GeU || i.opcode is EqF || i.opcode is NeF,
    ensures
        instruction_text(i) == column(i.opcode) + "r"@ + dec(i.a as nat) + ", r"@ + dec(i.b as nat) + ", r"@ + dec(i.c as nat),
{
    reveal_strlit("r");
    match i.opcode {
        Opcode::GtI => {
            reveal_strlit("GtI");
            reveal_strlit("GtI           r");
            assert(column(Opcode::GtI) + "r"@ =~= "GtI           r"@);
        },
        Opcode::GeI => {
            reveal_strlit("GeI");
            reveal_strlit("GeI           r");
            assert(column(Opcode::GeI) + "r"@ =~= "GeI           r"@);
        },
        Opcode::LtU => {
            reveal_strlit("LtU");
            reveal_strlit("LtU           r");
            assert(column(Opcode::LtU) + "r"@ =~= "LtU           r"@);
        },
        Opcode::LeU => {
            reveal_strlit("LeU");
            reveal_strlit("LeU           r");
            assert(column(Opcode::LeU) + "r"@ =~= "LeU           r"@);
        },
        Opcode::GtU => {
            reveal_strlit("GtU");
            reveal_strlit("GtU           r");
            assert(column(Opcode::GtU) + "r"@ =~= "GtU           r"@);
        },
        Opcode::GeU => {
            reveal_strlit("GeU");
            reveal_strlit("GeU           r");
            assert(column(Opcode::GeU) + "r"@ =~= "GeU           r"@);
        },
        Opcode::EqF => {
            reveal_strlit("EqF");
            reveal_strlit("EqF           r");
            assert(column(Opcode::EqF) + "r"@ =~= "EqF           r"@);
        },
        Opcode::NeF => {
            reveal_strlit("NeF");
            reveal_strlit("NeF           r");
            assert(column(Opcode::NeF) + "r"@ =~= "NeF           r"@);
        },
        _ => {},
    }
}

#[verifier::spinoff_prover]
proof fn lemma_three_register_3(i: Instruction)
    requires
        i.opcode is LtF || i.opcode is LeF || i.opcode is GtF || i.opcode is GeF || i.opcode is And || i.opcode is Or || i.opcode is Xor || i.opcode is AndNot,
    ensures
        instruction_text(i) == column(i.opcode) + "r"@ + dec(i.a as nat) + ", r"@ + dec(i.b as nat) + ", r"@ + dec(i.c as nat),
{
    reveal_strlit("r");
    match i.opcode {
        Opcode::LtF => {
            reveal_strlit("LtF");
            reveal_strlit("LtF           r");
            assert(column(Opcode::LtF) + "r"@ =~= "LtF           r"@);
        },
        Opcode::LeF => {
            reveal_strlit("LeF");
            reveal_strlit("LeF           r");
            assert(column(Opcode::LeF) + "r"@ =~= "LeF           r"@);
        },
        Opcode::GtF => {
            reveal_strlit("GtF");
            reveal_strlit("GtF           r");
            assert(column(Opcode::GtF) + "r"@ =~= "GtF           r"@);
        },
        Opcode::GeF => {
            reveal_strlit("GeF");
            reveal_strlit("GeF           r");
            assert(column(Opcode::GeF) + "r"@ =~= "GeF           r"@);
        },
        Opcode::And => {
            reveal_strlit("And");
            reveal_strlit("And           r");
            assert(column(Opcode::And) + "r"@ =~= "And           r"@);
        },
        Opcode::Or => {
            reveal_strlit("Or");
            reveal_strlit("Or            r");
            assert(column(Opcode::Or) + "r"@ =~= "Or            r"@);
        },
        Opcode::Xor => {
            reveal_strlit("Xor");
            reveal_strlit("Xor           r");
            assert(column(Opcode::Xor) + "r"@ =~= "Xor           r"@);
        },
        Opcode::AndNot => {
            reveal_strlit("AndNot");
            reveal_strlit("AndNot        r");
            assert(column(Opcode::AndNot) + "r"@ =~= "AndNot        r"@);
        },
        _ => {},
    }
}

#[verifier::spinoff_prover]
proof fn lemma_three_register_4(i: Instruction)
    requires
        i.opcode is Shl || i.opcode is ShrS || i.opcode is ShrU || i.opcode is StrIndex || i.opcode is StrConcat || i.opcode is StrEq || i.opcode is StrNe || i.opcode is StrLt,
    ensures
        instruction_text(i) == column(i.opcode) + "r"@ + dec(i.a as nat) + ", r"@ + dec(i.b as nat) + ", r"@ + dec(i.c as nat),
{
    reveal_strlit("r");
    match i.opcode {
        Opcode::Shl => {
            reveal_strlit("Shl");
            reveal_strlit("Shl           r");
            assert(column(Opcode::Shl) + "r"@ =~= "Shl           r"@);
        },
        Opcode::ShrS => {
            reveal_strlit("ShrS");
            reveal_strlit("ShrS          r");
            assert(column(Opcode::ShrS) + "r"@ =~= "ShrS          r"@);
        },
        Opcode::ShrU => {
            reveal_strlit("ShrU");
            reveal_strlit("ShrU          r");
            assert(column(Opcode::ShrU) + "r"@ =~= "ShrU          r"@);
        },
        Opcode::StrIndex => {
            reveal_strlit("StrIndex");
            reveal_strlit("StrIndex      r");
            assert(column(Opcode::StrIndex) + "r"@ =~= "StrIndex      r"@);
        },
        Opcode::StrConcat => {
            reveal_strlit("StrConcat");
            reveal_strlit("StrConcat     r");
            assert(column(Opcode::StrConcat) + "r"@ =~= "StrConcat     r"@);
        },
        Opcode::StrEq => {
            reveal_strlit("StrEq");
            reveal_strlit("StrEq         r");
            assert(column(Opcode::StrEq) + "r"@ =~= "StrEq         r"@);
        },
        Opcode::StrNe => {
            reveal_strlit("StrNe");
            reveal_strlit("StrNe         r");
            assert(column(Opcode::StrNe) + "r"@ =~= "StrNe         r"@);
        },
        Opcode::StrLt => {
            reveal_strlit("StrLt");
            reveal_strlit("StrLt         r");
            assert(column(Opcode::StrLt) + "r"@ =~= "StrLt         r"@);
        },
        _ => {},
    }
}

#[verifier::spinoff_prover]
proof fn lemma_three_register_5(i: Instruction)
    requires
        i.opcode is StrLe || i.opcode is StrGt || i.opcode is StrGe || i.opcode is StrDecodeRune || i.opcode is IfaceEq,
    ensures
        instruction_text(i) == column(i.opcode) + "r"@ + dec(i.a as nat) + ", r"@ + dec(i.b as nat) + ", r"@ + dec(i.c as nat),
{
    reveal_strlit("r");
    match i.opcode {
        Opcode::StrLe => {
            reveal_strlit("StrLe");
            reveal_strlit("StrLe         r");
            assert(column(Opcode::StrLe) + "r"@ =~= "StrLe         r"@);
        },
        Opcode::StrGt => {
            reveal_strlit("StrGt");
            reveal_strlit("StrGt         r");
            assert(column(Opcode::StrGt) + "r"@ =~= "StrGt         r"@);
        },
        Opcode::StrGe => {
            reveal_strlit("StrGe");
            reveal_strlit("StrGe         r");
            assert(column(Opcode::StrGe) + "r"@ =~= "StrGe         r"@);
        },
        Opcode::StrDecodeRune => {
            reveal_strlit("StrDecodeRune");
            reveal_strlit("StrDecodeRune r");
            assert(column(Opcode::StrDecodeRune) + "r"@ =~= "StrDecodeRune r"@);
        },
        Opcode::IfaceEq => {
            reveal_strlit("IfaceEq");
            reveal_strlit("IfaceEq       r");
            assert(column(Opcode::IfaceEq) + "r"@ =~= "IfaceEq       r"@);
        },
        _ => {},
    }
}

/// An instruction whose operands are the three registers `a`, `b`, `c`, in that order: `r<a>, r<b>, r<c>` is printed as its mnemonic
/// column followed by exactly those registers, in field order; this is
/// the line that `format_instruction` returns for it.
pub proof fn law_three_register_line(i: Instruction)
    requires
        three_register(i.opcode),
    ensures
        instruction_text(i) == column(i.opcode) + "r"@ + dec(i.a as nat) + ", r"@ + dec(i.b as nat) + ", r"@ + dec(i.c as nat),
{
    if i.opcode is PtrAdd || i.opcode is AddI || i.opcode is SubI || i.opcode is MulI || i.opcode is DivI || i.opcode is DivU || i.opcode is ModI || i.opcode is ModU {
        lemma_three_register_0(i);
    }
    if i.opcode is AddF || i.opcode is SubF || i.opcode is MulF || i.opcode is DivF || i.opcode is EqI || i.opcode is NeI || i.opcode is LtI || i.opcode is LeI {
        lemma_three_register_1(i);
    }
    if i.opcode is GtI || i.opcode is GeI || i.opcode is LtU || i.opcode is LeU || i.opcode is GtU || i.opcode is GeU || i.opcode is EqF || i.opcode is NeF {
        lemma_three_register_2(i);
    }
    if i.opcode is LtF || i.opcode is LeF || i.opcode is GtF || i.opcode is GeF || i.opcode is And || i.opcode is Or || i.opcode is Xor || i.opcode is AndNot {
        lemma_three_register_3(i);
    }
    if i.opcode is Shl || i.opcode is ShrS || i.opcode is ShrU || i.opcode is StrIndex || i.opcode is StrConcat || i.opcode is StrEq || i.opcode is StrNe || i.opcode is StrLt {
        lemma_three_register_4(i);
    }
    if i.opcode is StrLe || i.opcode is StrGt || i.opcode is StrGe || i.opcode is StrDecodeRune || i.opcode is IfaceEq {
        lemma_three_register_5(i);
    }
}

#[verifier::spinoff_prover]
proof fn lemma_two_register_0(i: Instruction)
    requires
        i.opcode is Copy || i.opcode is NegI || i.opcode is NegF || i.opcode is Not || i.opcode is BoolNot || i.opcode is StrLen || i.opcode is SliceLen || i.opcode is SliceCap,
    ensures
        instruction_text(i) == column(i.opcode) + "r"@ + dec(i.a as nat) + ", r"@ + dec(i.b as nat),
{
    reveal_strlit("r");
    match i.opcode {
        Opcode::Copy => {
            reveal_strlit("Copy");
            reveal_strlit("Copy          r");
            assert(column(Opcode::Copy) + "r"@ =~= "Copy          r"@);
        },
        Opcode::NegI => {
            reveal_strlit("NegI");
            reveal_strlit("NegI          r");
            assert(column(Opcode::NegI) + "r"@ =~= "NegI          r"@);
        },
        Opcode::NegF => {
            reveal_strlit("NegF");
            reveal_strlit("NegF          r");
            assert(column(Opcode::NegF) + "r"@ =~= "NegF          r"@);
        },
        Opcode::Not => {
            reveal_strlit("Not");
            reveal_strlit("Not           r");
            assert(column(Opcode::Not) + "r"@ =~= "Not           r"@);
        },
        Opcode::BoolNot => {
            reveal_strlit("BoolNot");
            reveal_strlit("BoolNot       r");
            assert(column(Opcode::BoolNot) + "r"@ =~= "BoolNot       r"@);
        },
        Opcode::StrLen => {
            reveal_strlit("StrLen");
            reveal_strlit("StrLen        r");
            assert(column(Opcode::StrLen) + "r"@ =~= "StrLen        r"@);
        },
        Opcode::SliceLen => {
            reveal_strlit("SliceLen");
            reveal_strlit("SliceLen      r");
            assert(column(Opcode::SliceLen) + "r"@ =~= "SliceLen      r"@);
        },
        Opcode::SliceCap => {
            reveal_strlit("SliceCap");
            reveal_strlit("SliceCap      r");
            assert(column(Opcode::SliceCap) + "r"@ =~= "SliceCap      r"@);
        },
        _ => {},
    }
}

#[verifier::spinoff_prover]
proof fn lemma_two_register_1(i: Instruction)
    requires
        i.opcode is MapLen || i.opcode is MapIterInit || i.opcode is ChanLen || i.opcode is ChanCap || i.opcode is SelectSend || i.opcode is SelectRecv || i.opcode is ConvI2F || i.opcode is ConvF2I,
    ensures
        instruction_text(i) == column(i.opcode) + "r"@ + dec(i.a as nat) + ", r"@ + dec(i.b as nat),
{
    reveal_strlit("r");
    match i.opcode {
        Opcode::MapLen => {
            reveal_strlit("MapLen");
            reveal_strlit("MapLen        r");
            assert(column(Opcode::MapLen) + "r"@ =~= "MapLen        r"@);
        },
        Opcode::MapIterInit => {
            reveal_strlit("MapIterInit");
            reveal_strlit("MapIterInit   r");
            assert(column(Opcode::MapIterInit) + "r"@ =~= "MapIterInit   r"@);
        },
        Opcode::ChanLen => {
            reveal_strlit("ChanLen");
            reveal_strlit("ChanLen       r");
            assert(column(Opcode::ChanLen) + "r"@ =~= "ChanLen       r"@);
        },
        Opcode::ChanCap => {
            reveal_strlit("ChanCap");
            reveal_strlit("ChanCap       r");
            assert(column(Opcode::ChanCap) + "r"@ =~= "ChanCap       r"@);
        },
        Opcode::SelectSend => {
            reveal_strlit("SelectSend");
            reveal_strlit("SelectSend    r");
            assert(column(Opcode::SelectSend) + "r"@ =~= "SelectSend    r"@);
        },
        Opcode::SelectRecv => {
            reveal_strlit("SelectRecv");
            reveal_strlit("SelectRecv    r");
            assert(column(Opcode::SelectRecv) + "r"@ =~= "SelectRecv    r"@);
        },
        Opcode::ConvI2F => {
            reveal_strlit("ConvI2F");
            reveal_strlit("ConvI2F       r");
            assert(column(Opcode::ConvI2F) + "r"@ =~= "ConvI2F       r"@);
        },
        Opcode::ConvF2I => {
            reveal_strlit("ConvF2I");
            reveal_strlit("ConvF2I       r");
            assert(column(Opcode::ConvF2I) + "r"@ =~= "ConvF2I       r"@);
        },
        _ => {},
    }
}

#[verifier::spinoff_prover]
proof fn lemma_two_register_2(i: Instruction)
    requires
        i.opcode is ConvF64F32 || i.opcode is ConvF32F64 || i.opcode is IndexCheck || i.opcode is PortLen || i.opcode is PortCap,
    ensures
        instruction_text(i) == column(i.opcode) + "r"@ + dec(i.a as nat) + ", r"@ + dec(i.b as nat),
{
    reveal_strlit("r");
    match i.opcode {
        Opcode::ConvF64F32 => {
            reveal_strlit("ConvF64F32");
            reveal_strlit("ConvF64F32    r");
            assert(column(Opcode::ConvF64F32) + "r"@ =~= "ConvF64F32    r"@);
        },
        Opcode::ConvF32F64 => {
            reveal_strlit("ConvF32F64");
            reveal_strlit("ConvF32F64    r");
            assert(column(Opcode::ConvF32F64) + "r"@ =~= "ConvF32F64    r"@);
        },
        Opcode::IndexCheck => {
            reveal_strlit("IndexCheck");
            reveal_strlit("IndexCheck    r");
            assert(column(Opcode::IndexCheck) + "r"@ =~= "IndexCheck    r"@);
        },
        Opcode::PortLen => {
            reveal_strlit("PortLen");
            reveal_strlit("PortLen       r");
            assert(column(Opcode::PortLen) + "r"@ =~= "PortLen       r"@);
        },
        Opcode::PortCap => {
            reveal_strlit("PortCap");
            reveal_strlit("PortCap       r");
            assert(column(Opcode::PortCap) + "r"@ =~= "PortCap       r"@);
        },
        _ => {},
    }
}

/// An instruction whose operands are the registers `a` and `b`, in that order: `r<a>, r<b>` is printed as its mnemonic
/// column followed by exactly those registers, in field order; this is
/// the line that `format_instruction` returns for it.
pub proof fn law_two_register_line(i: Instruction)
    requires
        two_register(i.opcode),
    ensures
        instruction_text(i) == column(i.opcode) + "r"@ + dec(i.a as nat) + ", r"@ + dec(i.b as nat),
{
    if i.opcode is Copy || i.opcode is NegI || i.opcode is NegF || i.opcode is Not || i.opcode is BoolNot || i.opcode is StrLen || i.opcode is SliceLen || i.opcode is SliceCap {
        lemma_two_register_0(i);
    }
    if i.opcode is MapLen || i.opcode is MapIterInit || i.opcode is ChanLen || i.opcode is ChanCap || i.opcode is SelectSend || i.opcode is SelectRecv || i.opcode is ConvI2F || i.opcode is ConvF2I {
        lemma_two_register_1(i);
    }
    if i.opcode is ConvF64F32 || i.opcode is ConvF32F64 || i.opcode is IndexCheck || i.opcode is PortLen || i.opcode is PortCap {
        lemma_two_register_2(i);
    }
}

#[verifier::spinoff_prover]
proof fn lemma_one_register_0(i: Instruction)
    requires
        i.opcode is MapNew || i.opcode is ChanClose || i.opcode is SelectExec || i.opcode is Panic || i.opcode is Recover || i.opcode is IslandNew || i.opcode is PortClose,
    ensures
        instruction_text(i) == column(i.opcode) + "r"@ + dec(i.a as nat),
{
    reveal_strlit("r");
    match i.opcode {
        Opcode::MapNew => {
            reveal_strlit("MapNew");
            reveal_strlit("MapNew        r");
            assert(column(Opcode::MapNew) + "r"@ =~= "MapNew        r"@);
        },
        Opcode::ChanClose => {
            reveal_strlit("ChanClose");
            reveal_strlit("ChanClose     r");
            assert(column(Opcode::ChanClose) + "r"@ =~= "ChanClose     r"@);
        },
        Opcode::SelectExec => {
            reveal_strlit("SelectExec");
            reveal_strlit("SelectExec    r");
            assert(column(Opcode::SelectExec) + "r"@ =~= "SelectExec    r"@);
        },
        Opcode::Panic => {
            reveal_strlit("Panic");
            reveal_strlit("Panic         r");
            assert(column(Opcode::Panic) + "r"@ =~= "Panic         r"@);
        },
        Opcode::Recover => {
            reveal_strlit("Recover");
            reveal_strlit("Recover       r");
            assert(column(Opcode::Recover) + "r"@ =~= "Recover       r"@);
        },
        Opcode::IslandNew => {
            reveal_strlit("IslandNew");
            reveal_strlit("IslandNew     r");
            assert(column(Opcode::IslandNew) + "r"@ =~= "IslandNew     r"@);
        },
        Opcode::PortClose => {
            reveal_strlit("PortClose");
            reveal_strlit("PortClose     r");
            assert(column(Opcode::PortClose) + "r"@ =~= "PortClose     r"@);
        },
        _ => {},
    }
}

/// An instruction whose operands are the register `a` alone: `r<a>` is printed as its mnemonic
/// column followed by exactly those registers, in field order; this is
/// the line that `format_instruction` returns for it.
pub proof fn law_one_register_line(i: Instruction)
    requires
        one_register(i.opcode),
    ensures
        instruction_text(i) == column(i.opcode) + "r"@ + dec(i.a as nat),
{
    if i.opcode is MapNew || i.opcode is ChanClose || i.opcode is SelectExec || i.opcode is Panic || i.opcode is Recover || i.opcode is IslandNew || i.opcode is PortClose {
        lemma_one_register_0(i);
    }
}

#[verifier::spinoff_prover]
proof fn lemma_indexed_load_0(i: Instruction)
    requires
        i.opcode is SlotGet || i.opcode is MapGet,
    ensures
        instruction_text(i) == column(i.opcode) + "r"@ + dec(i.a as nat) + ", r"@ + dec(i.b as nat) + "[r"@ + dec(i.c as nat) + "]"@,
{
    reveal_strlit("r");
    match i.opcode {
        Opcode::SlotGet => {
            reveal_strlit("SlotGet");
            reveal_strlit("SlotGet       r");
            assert(column(Opcode::SlotGet) + "r"@ =~= "SlotGet       r"@);
        },
        Opcode::MapGet => {
            reveal_strlit("MapGet");
            reveal_strlit("MapGet        r");
            assert(column(Opcode::MapGet) + "r"@ =~= "MapGet        r"@);
        },
        _ => {},
    }
}

/// An instruction whose operands are register `a`, then register `b` indexed by register `c`: `r<a>, r<b>[r<c>]` is printed as its mnemonic
/// column followed by exactly those registers, in field order; this is
/// the line that `format_instruction` returns for it.
pub proof fn law_indexed_load_line(i: Instruction)
    requires
        indexed_load(i.opcode),
    ensures
        instruction_text(i) == column(i.opcode) + "r"@ + dec(i.a as nat) + ", r"@ + dec(i.b as nat) + "[r"@ + dec(i.c as nat) + "]"@,
{
    if i.opcode is SlotGet || i.opcode is MapGet {
        lemma_indexed_load_0(i);
    }
}

#[verifier::spinoff_prover]
proof fn lemma_indexed_store_0(i: Instruction)
    requires
        i.opcode is SlotSet || i.opcode is MapSet,
    ensures
        instruction_text(i) == column(i.opcode) + "r"@ + dec(i.a as nat) + "[r"@ + dec(i.b as nat) + "], r"@ + dec(i.c as nat),
{
    reveal_strlit("r");
    match i.opcode {
        Opcode::SlotSet => {
            reveal_strlit("SlotSet");
            reveal_strlit("SlotSet       r");
            assert(column(Opcode::SlotSet) + "r"@ =~= "SlotSet       r"@);
        },
        Opcode::MapSet => {
            reveal_strlit("MapSet");
            reveal_strlit("MapSet        r");
            assert(column(Opcode::MapSet) + "r"@ =~= "MapSet        r"@);
        },
        _ => {},
    }
}

/// An instruction whose operands are register `a` indexed by register `b`, then register `c`: `r<a>[r<b>], r<c>` is printed as its mnemonic
/// column followed by exactly those registers, in field order; this is
/// the line that `format_instruction` returns for it.
pub proof fn law_indexed_store_line(i: Instruction)
    requires
        indexed_store(i.opcode),
    ensures
        instruction_text(i) == column(i.opcode) + "r"@ + dec(i.a as nat) + "[r"@ + dec(i.b as nat) + "], r"@ + dec(i.c as nat),
{
    if i.opcode is SlotSet || i.opcode is MapSet {
        lemma_indexed_store_0(i);
    }
}


/// The line of each instruction whose operands are read straight from its
/// fields `a`, `b`, `c` and `flags`: the literal text of the line with
/// each field's decimal value in its place, in the order the line shows
/// them.
pub open spec fn field_line(i: Instruction) -> bool {
    match i.opcode {
        Opcode::LoadConst => instruction_text(i) == "LoadConst     r"@ + dec(i.a as nat) + ", const_"@ + dec(i.b as nat),
        Opcode::Copy => instruction_text(i) == "Copy          r"@ + dec(i.a as nat) + ", r"@ + dec(i.b as nat),
        Opcode::CopyN => instruction_text(i) == "CopyN         r"@ + dec(i.a as nat) + ", r"@ + dec(i.b as nat) + ", n="@ + dec(i.c as nat),
        Opcode::SlotGet => instruction_text(i) == "SlotGet       r"@ + dec(i.a as nat) + ", r"@ + dec(i.b as nat) + "[r"@ + dec(i.c as nat) + "]"@,
        Opcode::SlotSet => instruction_text(i) == "SlotSet       r"@ + dec(i.a as nat) + "[r"@ + dec(i.b as nat) + "], r"@ + dec(i.c as nat),
        Opcode::SlotGetN => instruction_text(i) == "SlotGetN      r"@ + dec(i.a as nat) + ", r"@ + dec(i.b as nat) + "[r"@ + dec(i.c as nat) + "], n="@ + dec(i.flags as nat),
        Opcode::SlotSetN => instruction_text(i) == "SlotSetN      r"@ + dec(i.a as nat) + "[r"@ + dec(i.b as nat) + "], r"@ + dec(i.c as nat) + ", n="@ + dec(i.flags as nat),
        Opcode::GlobalGet => instruction_text(i) == "GlobalGet     r"@ + dec(i.a as nat) + ", global_"@ + dec(i.b as nat),
        Opcode::GlobalGetN => instruction_text(i) == "GlobalGetN    r"@ + dec(i.a as nat) + ", global_"@ + dec(i.b as nat) + ", n="@ + dec(i.flags as nat),
        Opcode::GlobalSet => instruction_text(i) == "GlobalSet     global_"@ + dec(i.a as nat) + ", r"@ + dec(i.b as nat),
        Opcode::GlobalSetN => instruction_text(i) == "GlobalSetN    global_"@ + dec(i.a as nat) + ", r"@ + dec(i.b as nat) + ", n="@ + dec(i.flags as nat),
        Opcode::PtrNew => instruction_text(i) == "PtrNew        r"@ + dec(i.a as nat) + ", meta=r"@ + dec(i.b as nat) + ", slots="@ + dec(i.flags as nat),
        Opcode::PtrGet => instruction_text(i) == "PtrGet        r"@ + dec(i.a as nat) + ", r"@ + dec(i.b as nat) + "["@ + dec(i.c as nat) + "]"@,
        Opcode::PtrSet => instruction_text(i) == "PtrSet        r"@ + dec(i.a as nat) + "["@ + dec(i.b as nat) + "], r"@ + dec(i.c as nat),
        Opcode::PtrGetN => instruction_text(i) == "PtrGetN       r"@ + dec(i.a as nat) + ", r"@ + dec(i.b as nat) + "["@ + dec(i.c as nat) + "], n="@ + dec(i.flags as nat),
        Opcode::PtrSetN => instruction_text(i) == "PtrSetN       r"@ + dec(i.a as nat) + "["@ + dec(i.b as nat) + "], r"@ + dec(i.c as nat) + ", n="@ + dec(i.flags as nat),
        Opcode::PtrAdd => instruction_text(i) == "PtrAdd        r"@ + dec(i.a as nat) + ", r"@ + dec(i.b as nat) + ", r"@ + dec(i.c as nat),
        Opcode::AddI => instruction_text(i) == "AddI          r"@ + dec(i.a as nat) + ", r"@ + dec(i.b as nat) + ", r"@ + dec(i.c as nat),
        Opcode::SubI => instruction_text(i) == "SubI          r"@ + dec(i.a as nat) + ", r"@ + dec(i.b as nat) + ", r"@ + dec(i.c as nat),
        Opcode::MulI => instruction_text(i) == "MulI          r"@ + dec(i.a as nat) + ", r"@ + dec(i.b as nat) + ", r"@ + dec(i.c as nat),
        Opcode::DivI => instruction_text(i) == "DivI          r"@ + dec(i.a as nat) + ", r"@ + dec(i.b as nat) + ", r"@ + dec(i.c as nat),
        Opcode::DivU => instruction_text(i) == "DivU          r"@ + dec(i.a as nat) + ", r"@ + dec(i.b as nat) + ", r"@ + dec(i.c as nat),
        Opcode::ModI => instruction_text(i) == "ModI          r"@ + dec(i.a as nat) + ", r"@ + dec(i.b as nat) + ", r"@ + dec(i.c as nat),
        Opcode::ModU => instruction_text(i) == "ModU          r"@ + dec(i.a as nat) + ", r"@ + dec(i.b as nat) + ", r"@ + dec(i.c as nat),
        Opcode::NegI => instruction_text(i) == "NegI          r"@ + dec(i.a as nat) + ", r"@ + dec(i.b as nat),
        Opcode::AddF => instruction_text(i) == "AddF          r"@ + dec(i.a as nat) + ", r"@ + dec(i.b as nat) + ", r"@ + dec(i.c as nat),
        Opcode::SubF => instruction_text(i) == "SubF          r"@ + dec(i.a as nat) + ", r"@ + dec(i.b as nat) + ", r"@ + dec(i.c as nat),
        Opcode::MulF => instruction_text(i) == "MulF          r"@ + dec(i.a as nat) + ", r"@ + dec(i.b as nat) + ", r"@ + dec(i.c as nat),
        Opcode::DivF => instruction_text(i) == "DivF          r"@ + dec(i.a as nat) + ", r"@ + dec(i.b as nat) + ", r"@ + dec(i.c as nat),
        Opcode::NegF => instruction_text(i) == "NegF          r"@ + dec(i.a as nat) + ", r"@ + dec(i.b as nat),
        Opcode::EqI => instruction_text(i) == "EqI           r"@ + dec(i.a as nat) + ", r"@ + dec(i.b as nat) + ", r"@ + dec(i.c as nat),
        Opcode::NeI => instruction_text(i) == "NeI           r"@ + dec(i.a as nat) + ", r"@ + dec(i.b as nat) + ", r"@ + dec(i.c as nat),
        Opcode::LtI => instruction_text(i) == "LtI           r"@ + dec(i.a as nat) + ", r"@ + dec(i.b as nat) + ", r"@ + dec(i.c as nat),
        Opcode::LeI => instruction_text(i) == "LeI           r"@ + dec(i.a as nat) + ", r"@ + dec(i.b as nat) + ", r"@ + dec(i.c as nat),
        Opcode::GtI => instruction_text(i) == "GtI           r"@ + dec(i.a as nat) + ", r"@ + dec(i.b as nat) + ", r"@ + dec(i.c as nat),
        Opcode::GeI => instruction_text(i) == "GeI           r"@ + dec(i.a as nat) + ", r"@ + dec(i.b as nat) + ", r"@ + dec(i.c as nat),
        Opcode::LtU => instruction_text(i) == "LtU           r"@ + dec(i.a as nat) + ", r"@ + dec(i.b as nat) + ", r"@ + dec(i.c as nat),
        Opcode::LeU => instruction_text(i) == "LeU           r"@ + dec(i.a as nat) + ", r"@ + dec(i.b as nat) + ", r"@ + dec(i.c as nat),
        Opcode::GtU => instruction_text(i) == "GtU           r"@ + dec(i.a as nat) + ", r"@ + dec(i.b as nat) + ", r"@ + dec(i.c as nat),
        Opcode::GeU => instruction_text(i) == "GeU           r"@ + dec(i.a as nat) + ", r"@ + dec(i.b as nat) + ", r"@ + dec(i.c as nat),
        Opcode::EqF => instruction_text(i) == "EqF           r"@ + dec(i.a as nat) + ", r"@ + dec(i.b as nat) + ", r"@ + dec(i.c as nat),
        Opcode::NeF => instruction_text(i) == "NeF           r"@ + dec(i.a as nat) + ", r"@ + dec(i.b as nat) + ", r"@ + dec(i.c as nat),
        Opcode::LtF => instruction_text(i) == "LtF           r"@ + dec(i.a as nat) + ", r"@ + dec(i.b as nat) + ", r"@ + dec(i.c as nat),
        Opcode::LeF => instruction_text(i) == "LeF           r"@ + dec(i.a as nat) + ", r"@ + dec(i.b as nat) + ", r"@ + dec(i.c as nat),
        Opcode::GtF => instruction_text(i) == "GtF           r"@ + dec(i.a as nat) + ", r"@ + dec(i.b as nat) + ", r"@ + dec(i.c as nat),
        Opcode::GeF => instruction_text(i) == "GeF           r"@ + dec(i.a as nat) + ", r"@ + dec(i.b as nat) + ", r"@ + dec(i.c as nat),
        Opcode::And => instruction_text(i) == "And           r"@ + dec(i.a as nat) + ", r"@ + dec(i.b as nat) + ", r"@ + dec(i.c as nat),
        Opcode::Or => instruction_text(i) == "Or            r"@ + dec(i.a as nat) + ", r"@ + dec(i.b as nat) + ", r"@ + dec(i.c as nat),
        Opcode::Xor => instruction_text(i) == "Xor           r"@ + dec(i.a as nat) + ", r"@ + dec(i.b as nat) + ", r"@ + dec(i.c as nat),
        Opcode::AndNot => instruction_text(i) == "AndNot        r"@ + dec(i.a as nat) + ", r"@ + dec(i.b as nat) + ", r"@ + dec(i.c as nat),
        Opcode::Not => instruction_text(i) == "Not           r"@ + dec(i.a as nat) + ", r"@ + dec(i.b as nat),
        Opcode::Shl => instruction_text(i) == "Shl           r"@ + dec(i.a as nat) + ", r"@ + dec(i.b as nat) + ", r"@ + dec(i.c as nat),
        Opcode::ShrS => instruction_text(i) == "ShrS          r"@ + dec(i.a as nat) + ", r"@ + dec(i.b as nat) + ", r"@ + dec(i.c as nat),
        Opcode::ShrU => instruction_text(i) == "ShrU          r"@ + dec(i.a as nat) + ", r"@ + dec(i.b as nat) + ", r"@ + dec(i.c as nat),
        Opcode::BoolNot => instruction_text(i) == "BoolNot       r"@ + dec(i.a as nat) + ", r"@ + dec(i.b as nat),
        Opcode::CallExtern => instruction_text(i) == "CallExtern    r"@ + dec(i.a as nat) + ", extern_"@ + dec(i.b as nat) + ", args="@ + dec(i.c as nat) + ", count="@ + dec(i.flags as nat),
        Opcode::StrNew => instruction_text(i) == "StrNew        r"@ + dec(i.a as nat) + ", const_"@ + dec(i.b as nat),
        Opcode::StrLen => instruction_text(i) == "StrLen        r"@ + dec(i.a as nat) + ", r"@ + dec(i.b as nat),
        Opcode::StrIndex => instruction_text(i) == "StrIndex      r"@ + dec(i.a as nat) + ", r"@ + dec(i.b as nat) + ", r"@ + dec(i.c as nat),
        Opcode::StrConcat => instruction_text(i) == "StrConcat     r"@ + dec(i.a as nat) + ", r"@ + dec(i.b as nat) + ", r"@ + dec(i.c as nat),
        Opcode::StrSlice => instruction_text(i) == "StrSlice      r"@ + dec(i.a as nat) + ", r"@ + dec(i.b as nat) + ", r"@ + dec(i.c as nat) + ", r"@ + dec(i.flags as nat),
        Opcode::StrEq => instruction_text(i) == "StrEq         r"@ + dec(i.a as nat) + ", r"@ + dec(i.b as nat) + ", r"@ + dec(i.c as nat),
        Opcode::StrNe => instruction_text(i) == "StrNe         r"@ + dec(i.a as nat) + ", r"@ + dec(i.b as nat) + ", r"@ + dec(i.c as nat),
        Opcode::StrLt => instruction_text(i) == "StrLt         r"@ + dec(i.a as nat) + ", r"@ + dec(i.b as nat) + ", r"@ + dec(i.c as nat),
        Opcode::StrLe => instruction_text(i) == "StrLe         r"@ + dec(i.a as nat) + ", r"@ + dec(i.b as nat) + ", r"@ + dec(i.c as nat),
        Opcode::StrGt => instruction_text(i) == "StrGt         r"@ + dec(i.a as nat) + ", r"@ + dec(i.b as nat) + ", r"@ + dec(i.c as nat),
        Opcode::StrGe => instruction_text(i) == "StrGe         r"@ + dec(i.a as nat) + ", r"@ + dec(i.b as nat) + ", r"@ + dec(i.c as nat),
        Opcode::StrDecodeRune => instruction_text(i) == "StrDecodeRune r"@ + dec(i.a as nat) + ", r"@ + dec(i.b as nat) + ", r"@ + dec(i.c as nat),
        Opcode::ArrayNew => instruction_text(i) == "ArrayNew      r"@ + dec(i.a as nat) + ", meta=r"@ + dec(i.b as nat) + ", len=r"@ + dec(i.c as nat) + ", flags="@ + dec(i.flags as nat),
        Opcode::ArrayGet => instruction_text(i) == "ArrayGet      r"@ + dec(i.a as nat) + ", r"@ + dec(i.b as nat) + "[r"@ + dec(i.c as nat) + "], flags="@ + dec(i.flags as nat),
        Opcode::ArraySet => instruction_text(i) == "ArraySet      r"@ + dec(i.a as nat) + "[r"@ + dec(i.b as nat) + "], r"@ + dec(i.c as nat) + ", flags="@ + dec(i.flags as nat),
        Opcode::ArrayAddr => instruction_text(i) == "ArrayAddr     r"@ + dec(i.a as nat) + ", r"@ + dec(i.b as nat) + "[r"@ + dec(i.c as nat) + "], elem_bytes="@ + dec(i.flags as nat),
        Opcode::SliceNew => instruction_text(i) == "SliceNew      r"@ + dec(i.a as nat) + ", meta=r"@ + dec(i.b as nat) + ", len=r"@ + dec(i.c as nat) + ", flags="@ + dec(i.flags as nat),
        Opcode::SliceGet => instruction_text(i) == "SliceGet      r"@ + dec(i.a as nat) + ", r"@ + dec(i.b as nat) + "[r"@ + dec(i.c as nat) + "], elem_slots="@ + dec(i.flags as nat),
        Opcode::SliceSet => instruction_text(i) == "SliceSet      r"@ + dec(i.a as nat) + "[r"@ + dec(i.b as nat) + "], r"@ + dec(i.c as nat) + ", elem_slots="@ + dec(i.flags as nat),
        Opcode::SliceLen => instruction_text(i) == "SliceLen      r"@ + dec(i.a as nat) + ", r"@ + dec(i.b as nat),
        Opcode::SliceCap => instruction_text(i) == "SliceCap      r"@ + dec(i.a as nat) + ", r"@ + dec(i.b as nat),
        Opcode::SliceAppend => instruction_text(i) == "SliceAppend   r"@ + dec(i.a as nat) + ", r"@ + dec(i.b as nat) + ", meta=r"@ + dec(i.c as nat) + ", flags="@ + dec(i.flags as nat),
        Opcode::SliceAddr => instruction_text(i) == "SliceAddr     r"@ + dec(i.a as nat) + ", r"@ + dec(i.b as nat) + "[r"@ + dec(i.c as nat) + "], elem_bytes="@ + dec(i.flags as nat),
        Opcode::MapNew => instruction_text(i) == "MapNew        r"@ + dec(i.a as nat),
        Opcode::MapGet => instruction_text(i) == "MapGet        r"@ + dec(i.a as nat) + ", r"@ + dec(i.b as nat) + "[r"@ + dec(i.c as nat) + "]"@,
        Opcode::MapSet => instruction_text(i) == "MapSet        r"@ + dec(i.a as nat) + "[r"@ + dec(i.b as nat) + "], r"@ + dec(i.c as nat),
        Opcode::MapDelete => instruction_text(i) == "MapDelete     r"@ + dec(i.a as nat) + "[r"@ + dec(i.b as nat) + "]"@,
        Opcode::MapLen => instruction_text(i) == "MapLen        r"@ + dec(i.a as nat) + ", r"@ + dec(i.b as nat),
        Opcode::MapIterInit => instruction_text(i) == "MapIterInit   r"@ + dec(i.a as nat) + ", r"@ + dec(i.b as nat),
        Opcode::ChanNew => instruction_text(i) == "ChanNew       r"@ + dec(i.a as nat) + ", meta=r"@ + dec(i.b as nat) + ", cap=r"@ + dec(i.c as nat) + ", slots="@ + dec(i.flags as nat),
        Opcode::ChanSend => instruction_text(i) == "ChanSend      r"@ + dec(i.a as nat) + ", r"@ + dec(i.b as nat) + ", slots="@ + dec(i.flags as nat),
        Opcode::ChanClose => instruction_text(i) == "ChanClose     r"@ + dec(i.a as nat),
        Opcode::ChanLen => instruction_text(i) == "ChanLen       r"@ + dec(i.a as nat) + ", r"@ + dec(i.b as nat),
        Opcode::ChanCap => instruction_text(i) == "ChanCap       r"@ + dec(i.a as nat) + ", r"@ + dec(i.b as nat),
        Opcode::SelectBegin => instruction_text(i) == "SelectBegin   r"@ + dec(i.a as nat) + ", cases="@ + dec(i.b as nat),
        Opcode::SelectSend => instruction_text(i) == "SelectSend    r"@ + dec(i.a as nat) + ", r"@ + dec(i.b as nat),
        Opcode::SelectRecv => instruction_text(i) == "SelectRecv    r"@ + dec(i.a as nat) + ", r"@ + dec(i.b as nat),
        Opcode::SelectExec => instruction_text(i) == "SelectExec    r"@ + dec(i.a as nat),
        Opcode::ClosureGet => instruction_text(i) == "ClosureGet    r"@ + dec(i.a as nat) + ", capture["@ + dec(i.b as nat) + "]"@,
        Opcode::Panic => instruction_text(i) == "Panic         r"@ + dec(i.a as nat),
        Opcode::Recover => instruction_text(i) == "Recover       r"@ + dec(i.a as nat),
        Opcode::IfaceAssign => instruction_text(i) == "IfaceAssign   r"@ + dec(i.a as nat) + ", r"@ + dec(i.b as nat) + ", const="@ + dec(i.c as nat) + ", vk="@ + dec(i.flags as nat),
        Opcode::IfaceAssert => instruction_text(i) == "IfaceAssert   r"@ + dec(i.a as nat) + ", r"@ + dec(i.b as nat) + ", target_meta="@ + dec(i.c as nat) + ", flags="@ + dec(i.flags as nat),
        Opcode::IfaceEq => instruction_text(i) == "IfaceEq       r"@ + dec(i.a as nat) + ", r"@ + dec(i.b as nat) + ", r"@ + dec(i.c as nat),
        Opcode::ConvI2F => instruction_text(i) == "ConvI2F       r"@ + dec(i.a as nat) + ", r"@ + dec(i.b as nat),
        Opcode::ConvF2I => instruction_text(i) == "ConvF2I       r"@ + dec(i.a as nat) + ", r"@ + dec(i.b as nat),
        Opcode::ConvF64F32 => instruction_text(i) == "ConvF64F32    r"@ + dec(i.a as nat) + ", r"@ + dec(i.b as nat),
        Opcode::ConvF32F64 => instruction_text(i) == "ConvF32F64    r"@ + dec(i.a as nat) + ", r"@ + dec(i.b as nat),
        Opcode::IndexCheck => instruction_text(i) == "IndexCheck    r"@ + dec(i.a as nat) + ", r"@ + dec(i.b as nat),
        Opcode::IslandNew => instruction_text(i) == "IslandNew     r"@ + dec(i.a as nat),
        Opcode::PortNew => instruction_text(i) == "PortNew       r"@ + dec(i.a as nat) + ", meta="@ + dec(i.b as nat) + ", cap="@ + dec(i.c as nat) + ", elem_slots="@ + dec(i.flags as nat),
        Opcode::PortSend => instruction_text(i) == "PortSend      r"@ + dec(i.a as nat) + ", r"@ + dec(i.b as nat) + ", elem_slots="@ + dec(i.flags as nat),
        Opcode::PortClose => instruction_text(i) == "PortClose     r"@ + dec(i.a as nat),
        Opcode::PortLen => instruction_text(i) == "PortLen       r"@ + dec(i.a as nat) + ", r"@ + dec(i.b as nat),
        Opcode::PortCap => instruction_text(i) == "PortCap       r"@ + dec(i.a as nat) + ", r"@ + dec(i.b as nat),
        Opcode::GoIsland => instruction_text(i) == "GoIsland      r"@ + dec(i.a as nat) + ", r"@ + dec(i.b as nat) + ", capture_slots="@ + dec(i.flags as nat),
        _ => true,
    }
}

#[verifier::spinoff_prover]
proof fn lemma_field_line_0(i: Instruction)
    requires
        i.opcode is LoadConst || i.opcode is Copy || i.opcode is CopyN || i.opcode is SlotGet || i.opcode is SlotSet || i.opcode is SlotGetN || i.opcode is SlotSetN || i.opcode is GlobalGet || i.opcode is GlobalGetN || i.opcode is GlobalSet,
    ensures
        field_line(i),
{
    match i.opcode {
        Opcode::LoadConst => {
            reveal_strlit(", const_");
            reveal_strlit("LoadConst     r");
            assert(instruction_text(i) =~= "LoadConst     r"@ + dec(i.a as nat) + ", const_"@ + dec(i.b as nat));
        },
        Opcode::Copy => {
            reveal_strlit(", r");
            reveal_strlit("Copy          r");
            assert(instruction_text(i) =~= "Copy          r"@ + dec(i.a as nat) + ", r"@ + dec(i.b as nat));
        },
        Opcode::CopyN => {
            reveal_strlit(", n=");
            reveal_strlit(", r");
            reveal_strlit("CopyN         r");
            assert(instruction_text(i) =~= "CopyN         r"@ + dec(i.a as nat) + ", r"@ + dec(i.b as nat) + ", n="@ + dec(i.c as nat));
        },
        Opcode::SlotGet => {
            reveal_strlit("[r");
            reveal_strlit(", r");
            reveal_strlit("]");
            reveal_strlit("SlotGet       r");
            assert(instruction_text(i) =~= "SlotGet       r"@ + dec(i.a as nat) + ", r"@ + dec(i.b as nat) + "[r"@ + dec(i.c as nat) + "]"@);
        },
        Opcode::SlotSet => {
            reveal_strlit("], r");
            reveal_strlit("[r");
            reveal_strlit("SlotSet       r");
            assert(instruction_text(i) =~= "SlotSet       r"@ + dec(i.a as nat) + "[r"@ + dec(i.b as nat) + "], r"@ + dec(i.c as nat));
        },
        Opcode::SlotGetN => {
            reveal_strlit("SlotGetN      r");
            reveal_strlit("[r");
            reveal_strlit("], n=");
            reveal_strlit(", r");
            assert(instruction_text(i) =~= "SlotGetN      r"@ + dec(i.a as nat) + ", r"@ + dec(i.b as nat) + "[r"@ + dec(i.c as nat) + "], n="@ + dec(i.flags as nat));
        },
        Opcode::SlotSetN => {
            reveal_strlit("[r");
            reveal_strlit("SlotSetN      r");
            reveal_strlit(", n=");
            reveal_strlit("], r");
            assert(instruction_text(i) =~= "SlotSetN      r"@ + dec(i.a as nat) + "[r"@ + dec(i.b as nat) + "], r"@ + dec(i.c as nat) + ", n="@ + dec(i.flags as nat));
        },
        Opcode::GlobalGet => {
            reveal_strlit(", global_");
            reveal_strlit("GlobalGet     r");
            assert(instruction_text(i) =~= "GlobalGet     r"@ + dec(i.a as nat) + ", global_"@ + dec(i.b as nat));
        },
        Opcode::GlobalGetN => {
            reveal_strlit(", n=");
            reveal_strlit("GlobalGetN    r");
            reveal_strlit(", global_");
            assert(instruction_text(i) =~= "GlobalGetN    r"@ + dec(i.a as nat) + ", global_"@ + dec(i.b as nat) + ", n="@ + dec(i.flags as nat));
        },
        Opcode::GlobalSet => {
            reveal_strlit("GlobalSet     global_");
            reveal_strlit(", r");
            assert(instruction_text(i) =~= "GlobalSet     global_"@ + dec(i.a as nat) + ", r"@ + dec(i.b as nat));
        },
        _ => {},
    }
}

#[verifier::spinoff_prover]
proof fn lemma_field_line_1(i: Instruction)
    requires
        i.opcode is GlobalSetN || i.opcode is PtrNew || i.opcode is PtrGet || i.opcode is PtrSet || i.opcode is PtrGetN || i.opcode is PtrSetN || i.opcode is PtrAdd || i.opcode is AddI || i.opcode is SubI || i.opcode is MulI,
    ensures
        field_line(i),
{
    match i.opcode {
        Opcode::GlobalSetN => {
            reveal_strlit(", n=");
            reveal_strlit(", r");
            reveal_strlit("GlobalSetN    global_");
            assert(instruction_text(i) =~= "GlobalSetN    global_"@ + dec(i.a as nat) + ", r"@ + dec(i.b as nat) + ", n="@ + dec(i.flags as nat));
        },
        Opcode::PtrNew => {
            reveal_strlit("PtrNew        r");
            reveal_strlit(", meta=r");
            reveal_strlit(", slots=");
            assert(instruction_text(i) =~= "PtrNew        r"@ + dec(i.a as nat) + ", meta=r"@ + dec(i.b as nat) + ", slots="@ + dec(i.flags as nat));
        },
        Opcode::PtrGet => {
            reveal_strlit("]");
            reveal_strlit("PtrGet        r");
            reveal_strlit(", r");
            reveal_strlit("[");
            assert(instruction_text(i) =~= "PtrGet        r"@ + dec(i.a as nat) + ", r"@ + dec(i.b as nat) + "["@ + dec(i.c as nat) + "]"@);
        },
        Opcode::PtrSet => {
            reveal_strlit("], r");
            reveal_strlit("PtrSet        r");
            reveal_strlit("[");
            assert(instruction_text(i) =~= "PtrSet        r"@ + dec(i.a as nat) + "["@ + dec(i.b as nat) + "], r"@ + dec(i.c as nat));
        },
        Opcode::PtrGetN => {
            reveal_strlit("[");
            reveal_strlit("], n=");
            reveal_strlit("PtrGetN       r");
            reveal_strlit(", r");
            assert(instruction_text(i) =~= "PtrGetN       r"@ + dec(i.a as nat) + ", r"@ + dec(i.b as nat) + "["@ + dec(i.c as nat) + "], n="@ + dec(i.flags as nat));
        },
        Opcode::PtrSetN => {
            reveal_strlit("[");
            reveal_strlit(", n=");
            reveal_strlit("PtrSetN       r");
            reveal_strlit("], r");
            assert(instruction_text(i) =~= "PtrSetN       r"@ + dec(i.a as nat) + "["@ + dec(i.b as nat) + "], r"@ + dec(i.c as nat) + ", n="@ + dec(i.flags as nat));
        },
        Opcode::PtrAdd => {
            reveal_strlit(", r");
            reveal_strlit("PtrAdd        r");
            assert(instruction_text(i) =~= "PtrAdd        r"@ + dec(i.a as nat) + ", r"@ + dec(i.b as nat) + ", r"@ + dec(i.c as nat));
        },
        Opcode::AddI => {
            reveal_strlit(", r");
            reveal_strlit("AddI          r");
            assert(instruction_text(i) =~= "AddI          r"@ + dec(i.a as nat) + ", r"@ + dec(i.b as nat) + ", r"@ + dec(i.c as nat));
        },
        Opcode::SubI => {
            reveal_strlit(", r");
            reveal_strlit("SubI          r");
            assert(instruction_text(i) =~= "SubI          r"@ + dec(i.a as nat) + ", r"@ + dec(i.b as nat) + ", r"@ + dec(i.c as nat));
        },
        Opcode::MulI => {
            reveal_strlit(", r");
            reveal_strlit("MulI          r");
            assert(instruction_text(i) =~= "MulI          r"@ + dec(i.a as nat) + ", r"@ + dec(i.b as nat) + ", r"@ + dec(i.c as nat));
        },
        _ => {},
    }
}

#[verifier::spinoff_prover]
proof fn lemma_field_line_2(i: Instruction)
    requires
        i.opcode is DivI || i.opcode is DivU || i.opcode is ModI || i.opcode is ModU || i.opcode is NegI || i.opcode is AddF || i.opcode is SubF || i.opcode is MulF || i.opcode is DivF || i.opcode is NegF,
    ensures
        field_line(i),
{
    match i.opcode {
        Opcode::DivI => {
            reveal_strlit("DivI          r");
            reveal_strlit(", r");
            assert(instruction_text(i) =~= "DivI          r"@ + dec(i.a as nat) + ", r"@ + dec(i.b as nat) + ", r"@ + dec(i.c as nat));
        },
        Opcode::DivU => {
            reveal_strlit("DivU          r");
            reveal_strlit(", r");
            assert(instruction_text(i) =~= "DivU          r"@ + dec(i.a as nat) + ", r"@ + dec(i.b as nat) + ", r"@ + dec(i.c as nat));
        },
        Opcode::ModI => {
            reveal_strlit("ModI          r");
            reveal_strlit(", r");
            assert(instruction_text(i) =~= "ModI          r"@ + dec(i.a as nat) + ", r"@ + dec(i.b as nat) + ", r"@ + dec(i.c as nat));
        },
        Opcode::ModU => {
            reveal_strlit(", r");
            reveal_strlit("ModU          r");
            assert(instruction_text(i) =~= "ModU          r"@ + dec(i.a as nat) + ", r"@ + dec(i.b as nat) + ", r"@ + dec(i.c as nat));
        },
        Opcode::NegI => {
            reveal_strlit(", r");
            reveal_strlit("NegI          r");
            assert(instruction_text(i) =~= "NegI          r"@ + dec(i.a as nat) + ", r"@ + dec(i.b as nat));
        },
        Opcode::AddF => {
            reveal_strlit("AddF          r");
            reveal_strlit(", r");
            assert(instruction_text(i) =~= "AddF          r"@ + dec(i.a as nat) + ", r"@ + dec(i.b as nat) + ", r"@ + dec(i.c as nat));
        },
        Opcode::SubF => {
            reveal_strlit(", r");
            reveal_strlit("SubF          r");
            assert(instruction_text(i) =~= "SubF          r"@ + dec(i.a as nat) + ", r"@ + dec(i.b as nat) + ", r"@ + dec(i.c as nat));
        },
        Opcode::MulF => {
            reveal_strlit("MulF          r");
            reveal_strlit(", r");
            assert(instruction_text(i) =~= "MulF          r"@ + dec(i.a as nat) + ", r"@ + dec(i.b as nat) + ", r"@ + dec(i.c as nat));
        },
        Opcode::DivF => {
            reveal_strlit("DivF          r");
            reveal_strlit(", r");
            assert(instruction_text(i) =~= "DivF          r"@ + dec(i.a as nat) + ", r"@ + dec(i.b as nat) + ", r"@ + dec(i.c as nat));
        },
        Opcode::NegF => {
            reveal_strlit("NegF          r");
            reveal_strlit(", r");
            assert(instruction_text(i) =~= "NegF          r"@ + dec(i.a as nat) + ", r"@ + dec(i.b as nat));
        },
        _ => {},
    }
}

#[verifier::spinoff_prover]
proof fn lemma_field_line_3(i: Instruction)
    requires
        i.opcode is EqI || i.opcode is NeI || i.opcode is LtI || i.opcode is LeI || i.opcode is GtI || i.opcode is GeI || i.opcode is LtU || i.opcode is LeU || i.opcode is GtU || i.opcode is GeU,
    ensures
        field_line(i),
{
    match i.opcode {
        Opcode::EqI => {
            reveal_strlit("EqI           r");
            reveal_strlit(", r");
            assert(instruction_text(i) =~= "EqI           r"@ + dec(i.a as nat) + ", r"@ + dec(i.b as nat) + ", r"@ + dec(i.c as nat));
        },
        Opcode::NeI => {
            reveal_strlit(", r");
            reveal_strlit("NeI           r");
            assert(instruction_text(i) =~= "NeI           r"@ + dec(i.a as nat) + ", r"@ + dec(i.b as nat) + ", r"@ + dec(i.c as nat));
        },
        Opcode::LtI => {
            reveal_strlit(", r");
            reveal_strlit("LtI           r");
            assert(instruction_text(i) =~= "LtI           r"@ + dec(i.a as nat) + ", r"@ + dec(i.b as nat) + ", r"@ + dec(i.c as nat));
        },
        Opcode::LeI => {
            reveal_strlit("LeI           r");
            reveal_strlit(", r");
            assert(instruction_text(i) =~= "LeI           r"@ + dec(i.a as nat) + ", r"@ + dec(i.b as nat) + ", r"@ + dec(i.c as nat));
        },
        Opcode::GtI => {
            reveal_strlit("GtI           r");
            reveal_strlit(", r");
            assert(instruction_text(i) =~= "GtI           r"@ + dec(i.a as nat) + ", r"@ + dec(i.b as nat) + ", r"@ + dec(i.c as nat));
        },
        Opcode::GeI => {
            reveal_strlit(", r");
            reveal_strlit("GeI           r");
            assert(instruction_text(i) =~= "GeI           r"@ + dec(i.a as nat) + ", r"@ + dec(i.b as nat) + ", r"@ + dec(i.c as nat));
        },
        Opcode::LtU => {
            reveal_strlit("LtU           r");
            reveal_strlit(", r");
            assert(instruction_text(i) =~= "LtU           r"@ + dec(i.a as nat) + ", r"@ + dec(i.b as nat) + ", r"@ + dec(i.c as nat));
        },
        Opcode::LeU => {
            reveal_strlit("LeU           r");
            reveal_strlit(", r");
            assert(instruction_text(i) =~= "LeU           r"@ + dec(i.a as nat) + ", r"@ + dec(i.b as nat) + ", r"@ + dec(i.c as nat));
        },
        Opcode::GtU => {
            reveal_strlit(", r");
            reveal_strlit("GtU           r");
            assert(instruction_text(i) =~= "GtU           r"@ + dec(i.a as nat) + ", r"@ + dec(i.b as nat) + ", r"@ + dec(i.c as nat));
        },
        Opcode::GeU => {
            reveal_strlit(", r");
            reveal_strlit("GeU           r");
            assert(instruction_text(i) =~= "GeU           r"@ + dec(i.a as nat) + ", r"@ + dec(i.b as nat) + ", r"@ + dec(i.c as nat));
        },
        _ => {},
    }
}

#[verifier::spinoff_prover]
proof fn lemma_field_line_4(i: Instruction)
    requires
        i.opcode is EqF || i.opcode is NeF || i.opcode is LtF || i.opcode is LeF || i.opcode is GtF || i.opcode is GeF || i.opcode is And || i.opcode is Or || i.opcode is Xor || i.opcode is AndNot,
    ensures
        field_line(i),
{
    match i.opcode {
        Opcode::EqF => {
            reveal_strlit("EqF           r");
            reveal_strlit(", r");
            assert(instruction_text(i) =~= "EqF           r"@ + dec(i.a as nat) + ", r"@ + dec(i.b as nat) + ", r"@ + dec(i.c as nat));
        },
        Opcode::NeF => {
            reveal_strlit("NeF           r");
            reveal_strlit(", r");
            assert(instruction_text(i) =~= "NeF           r"@ + dec(i.a as nat) + ", r"@ + dec(i.b as nat) + ", r"@ + dec(i.c as nat));
        },
        Opcode::LtF => {
            reveal_strlit(", r");
            reveal_strlit("LtF           r");
            assert(instruction_text(i) =~= "LtF           r"@ + dec(i.a as nat) + ", r"@ + dec(i.b as nat) + ", r"@ + dec(i.c as nat));
        },
        Opcode::LeF => {
            reveal_strlit(", r");
            reveal_strlit("LeF           r");
            assert(instruction_text(i) =~= "LeF           r"@ + dec(i.a as nat) + ", r"@ + dec(i.b as nat) + ", r"@ + dec(i.c as nat));
        },
        Opcode::GtF => {
            reveal_strlit(", r");
            reveal_strlit("GtF           r");
            assert(instruction_text(i) =~= "GtF           r"@ + dec(i.a as nat) + ", r"@ + dec(i.b as nat) + ", r"@ + dec(i.c as nat));
        },
        Opcode::GeF => {
            reveal_strlit("GeF           r");
            reveal_strlit(", r");
            assert(instruction_text(i) =~= "GeF           r"@ + dec(i.a as nat) + ", r"@ + dec(i.b as nat) + ", r"@ + dec(i.c as nat));
        },
        Opcode::And => {
            reveal_strlit("And           r");
            reveal_strlit(", r");
            assert(instruction_text(i) =~= "And           r"@ + dec(i.a as nat) + ", r"@ + dec(i.b as nat) + ", r"@ + dec(i.c as nat));
        },
        Opcode::Or => {
            reveal_strlit(", r");
            reveal_strlit("Or            r");
            assert(instruction_text(i) =~= "Or            r"@ + dec(i.a as nat) + ", r"@ + dec(i.b as nat) + ", r"@ + dec(i.c as nat));
        },
        Opcode::Xor => {
            reveal_strlit("Xor           r");
            reveal_strlit(", r");
            assert(instruction_text(i) =~= "Xor           r"@ + dec(i.a as nat) + ", r"@ + dec(i.b as nat) + ", r"@ + dec(i.c as nat));
        },
        Opcode::AndNot => {
            reveal_strlit("AndNot        r");
            reveal_strlit(", r");
            assert(instruction_text(i) =~= "AndNot        r"@ + dec(i.a as nat) + ", r"@ + dec(i.b as nat) + ", r"@ + dec(i.c as nat));
        },
        _ => {},
    }
}

#[verifier::spinoff_prover]
proof fn lemma_field_line_5(i: Instruction)
    requires
        i.opcode is Not || i.opcode is Shl || i.opcode is ShrS || i.opcode is ShrU || i.opcode is BoolNot || i.opcode is CallExtern || i.opcode is StrNew || i.opcode is StrLen || i.opcode is StrIndex || i.opcode is StrConcat,
    ensures
        field_line(i),
{
    match i.opcode {
        Opcode::Not => {
            reveal_strlit("Not           r");
            reveal_strlit(", r");
            assert(instruction_text(i) =~= "Not           r"@ + dec(i.a as nat) + ", r"@ + dec(i.b as nat));
        },
        Opcode::Shl => {
            reveal_strlit("Shl           r");
            reveal_strlit(", r");
            assert(instruction_text(i) =~= "Shl           r"@ + dec(i.a as nat) + ", r"@ + dec(i.b as nat) + ", r"@ + dec(i.c as nat));
        },
        Opcode::ShrS => {
            reveal_strlit("ShrS          r");
            reveal_strlit(", r");
            assert(instruction_text(i) =~= "ShrS          r"@ + dec(i.a as nat) + ", r"@ + dec(i.b as nat) + ", r"@ + dec(i.c as nat));
        },
        Opcode::ShrU => {
            reveal_strlit("ShrU          r");
            reveal_strlit(", r");
            assert(instruction_text(i) =~= "ShrU          r"@ + dec(i.a as nat) + ", r"@ + dec(i.b as nat) + ", r"@ + dec(i.c as nat));
        },
        Opcode::BoolNot => {
            reveal_strlit("BoolNot       r");
            reveal_strlit(", r");
            assert(instruction_text(i) =~= "BoolNot       r"@ + dec(i.a as nat) + ", r"@ + dec(i.b as nat));
        },
        Opcode::CallExtern => {
            reveal_strlit(", args=");
            reveal_strlit(", count=");
            reveal_strlit(", extern_");
            reveal_strlit("CallExtern    r");
            assert(instruction_text(i) =~= "CallExtern    r"@ + dec(i.a as nat) + ", extern_"@ + dec(i.b as nat) + ", args="@ + dec(i.c as nat) + ", count="@ + dec(i.flags as nat));
        },
        Opcode::StrNew => {
            reveal_strlit(", const_");
            reveal_strlit("StrNew        r");
            assert(instruction_text(i) =~= "StrNew        r"@ + dec(i.a as nat) + ", const_"@ + dec(i.b as nat));
        },
        Opcode::StrLen => {
            reveal_strlit("StrLen        r");
            reveal_strlit(", r");
            assert(instruction_text(i) =~= "StrLen        r"@ + dec(i.a as nat) + ", r"@ + dec(i.b as nat));
        },
        Opcode::StrIndex => {
            reveal_strlit(", r");
            reveal_strlit("StrIndex      r");
            assert(instruction_text(i) =~= "StrIndex      r"@ + dec(i.a as nat) + ", r"@ + dec(i.b as nat) + ", r"@ + dec(i.c as nat));
        },
        Opcode::StrConcat => {
            reveal_strlit("StrConcat     r");
            reveal_strlit(", r");
            assert(instruction_text(i) =~= "StrConcat     r"@ + dec(i.a as nat) + ", r"@ + dec(i.b as nat) + ", r"@ + dec(i.c as nat));
        },
        _ => {},
    }
}

#[verifier::spinoff_prover]
proof fn lemma_field_line_6(i: Instruction)
    requires
        i.opcode is StrSlice || i.opcode is StrEq || i.opcode is StrNe || i.opcode is StrLt || i.opcode is StrLe || i.opcode is StrGt || i.opcode is StrGe || i.opcode is StrDecodeRune || i.opcode is ArrayNew || i.opcode is ArrayGet,
    ensures
        field_line(i),
{
    match i.opcode {
        Opcode::StrSlice => {
            reveal_strlit("StrSlice      r");
            reveal_strlit(", r");
            assert(instruction_text(i) =~= "StrSlice      r"@ + dec(i.a as nat) + ", r"@ + dec(i.b as nat) + ", r"@ + dec(i.c as nat) + ", r"@ + dec(i.flags as nat));
        },
        Opcode::StrEq => {
            reveal_strlit("StrEq         r");
            reveal_strlit(", r");
            assert(instruction_text(i) =~= "StrEq         r"@ + dec(i.a as nat) + ", r"@ + dec(i.b as nat) + ", r"@ + dec(i.c as nat));
        },
        Opcode::StrNe => {
            reveal_strlit("StrNe         r");
            reveal_strlit(", r");
            assert(instruction_text(i) =~= "StrNe         r"@ + dec(i.a as nat) + ", r"@ + dec(i.b as nat) + ", r"@ + dec(i.c as nat));
        },
        Opcode::StrLt => {
            reveal_strlit("StrLt         r");
            reveal_strlit(", r");
            assert(instruction_text(i) =~= "StrLt         r"@ + dec(i.a as nat) + ", r"@ + dec(i.b as nat) + ", r"@ + dec(i.c as nat));
        },
        Opcode::StrLe => {
            reveal_strlit(", r");
            reveal_strlit("StrLe         r");
            assert(instruction_text(i) =~= "StrLe         r"@ + dec(i.a as nat) + ", r"@ + dec(i.b as nat) + ", r"@ + dec(i.c as nat));
        },
        Opcode::StrGt => {
            reveal_strlit("StrGt         r");
            reveal_strlit(", r");
            assert(instruction_text(i) =~= "StrGt         r"@ + dec(i.a as nat) + ", r"@ + dec(i.b as nat) + ", r"@ + dec(i.c as nat));
        },
        Opcode::StrGe => {
            reveal_strlit("StrGe         r");
            reveal_strlit(", r");
            assert(instruction_text(i) =~= "StrGe         r"@ + dec(i.a as nat) + ", r"@ + dec(i.b as nat) + ", r"@ + dec(i.c as nat));
        },
        Opcode::StrDecodeRune => {
            reveal_strlit(", r");
            reveal_strlit("StrDecodeRune r");
            assert(instruction_text(i) =~= "StrDecodeRune r"@ + dec(i.a as nat) + ", r"@ + dec(i.b as nat) + ", r"@ + dec(i.c as nat));
        },
        Opcode::ArrayNew => {
            reveal_strlit(", len=r");
            reveal_strlit("ArrayNew      r");
            reveal_strlit(", meta=r");
            reveal_strlit(", flags=");
            assert(instruction_text(i) =~= "ArrayNew      r"@ + dec(i.a as nat) + ", meta=r"@ + dec(i.b as nat) + ", len=r"@ + dec(i.c as nat) + ", flags="@ + dec(i.flags as nat));
        },
        Opcode::ArrayGet => {
            reveal_strlit("[r");
            reveal_strlit("ArrayGet      r");
            reveal_strlit("], flags=");
            reveal_strlit(", r");
            assert(instruction_text(i) =~= "ArrayGet      r"@ + dec(i.a as nat) + ", r"@ + dec(i.b as nat) + "[r"@ + dec(i.c as nat) + "], flags="@ + dec(i.flags as nat));
        },
        _ => {},
    }
}

#[verifier::spinoff_prover]
proof fn lemma_field_line_7(i: Instruction)
    requires
        i.opcode is ArraySet || i.opcode is ArrayAddr || i.opcode is SliceNew || i.opcode is SliceGet || i.opcode is SliceSet || i.opcode is SliceLen || i.opcode is SliceCap || i.opcode is SliceAppend || i.opcode is SliceAddr || i.opcode is MapNew,
    ensures
        field_line(i),
{
    match i.opcode {
        Opcode::ArraySet => {
            reveal_strlit("[r");
            reveal_strlit("], r");
            reveal_strlit("ArraySet      r");
            reveal_strlit(", flags=");
            assert(instruction_text(i) =~= "ArraySet      r"@ + dec(i.a as nat) + "[r"@ + dec(i.b as nat) + "], r"@ + dec(i.c as nat) + ", flags="@ + dec(i.flags as nat));
        },
        Opcode::ArrayAddr => {
            reveal_strlit("ArrayAddr     r");
            reveal_strlit("[r");
            reveal_strlit("], elem_bytes=");
            reveal_strlit(", r");
            assert(instruction_text(i) =~= "ArrayAddr     r"@ + dec(i.a as nat) + ", r"@ + dec(i.b as nat) + "[r"@ + dec(i.c as nat) + "], elem_bytes="@ + dec(i.flags as nat));
        },
        Opcode::SliceNew => {
            reveal_strlit(", len=r");
            reveal_strlit("SliceNew      r");
            reveal_strlit(", meta=r");
            reveal_strlit(", flags=");
            assert(instruction_text(i) =~= "SliceNew      r"@ + dec(i.a as nat) + ", meta=r"@ + dec(i.b as nat) + ", len=r"@ + dec(i.c as nat) + ", flags="@ + dec(i.flags as nat));
        },
        Opcode::SliceGet => {
            reveal_strlit("[r");
            reveal_strlit("], elem_slots=");
            reveal_strlit("SliceGet      r");
            reveal_strlit(", r");
            assert(instruction_text(i) =~= "SliceGet      r"@ + dec(i.a as nat) + ", r"@ + dec(i.b as nat) + "[r"@ + dec(i.c as nat) + "], elem_slots="@ + dec(i.flags as nat));
        },
        Opcode::SliceSet => {
            reveal_strlit(", elem_slots=");
            reveal_strlit("[r");
            reveal_strlit("], r");
            reveal_strlit("SliceSet      r");
            assert(instruction_text(i) =~= "SliceSet      r"@ + dec(i.a as nat) + "[r"@ + dec(i.b as nat) + "], r"@ + dec(i.c as nat) + ", elem_slots="@ + dec(i.flags as nat));
        },
        Opcode::SliceLen => {
            reveal_strlit("SliceLen      r");
            reveal_strlit(", r");
            assert(instruction_text(i) =~= "SliceLen      r"@ + dec(i.a as nat) + ", r"@ + dec(i.b as nat));
        },
        Opcode::SliceCap => {
            reveal_strlit("SliceCap      r");
            reveal_strlit(", r");
            assert(instruction_text(i) =~= "SliceCap      r"@ + dec(i.a as nat) + ", r"@ + dec(i.b as nat));
        },
        Opcode::SliceAppend => {
            reveal_strlit("SliceAppend   r");
            reveal_strlit(", meta=r");
            reveal_strlit(", r");
            reveal_strlit(", flags=");
            assert(instruction_text(i) =~= "SliceAppend   r"@ + dec(i.a as nat) + ", r"@ + dec(i.b as nat) + ", meta=r"@ + dec(i.c as nat) + ", flags="@ + dec(i.flags as nat));
        },
        Opcode::SliceAddr => {
            reveal_strlit("SliceAddr     r");
            reveal_strlit("[r");
            reveal_strlit("], elem_bytes=");
            reveal_strlit(", r");
            assert(instruction_text(i) =~= "SliceAddr     r"@ + dec(i.a as nat) + ", r"@ + dec(i.b as nat) + "[r"@ + dec(i.c as nat) + "], elem_bytes="@ + dec(i.flags as nat));
        },
        Opcode::MapNew => {
            reveal_strlit("MapNew        r");
            assert(instruction_text(i) =~= "MapNew        r"@ + dec(i.a as nat));
        },
        _ => {},
    }
}

#[verifier::spinoff_prover]
proof fn lemma_field_line_8(i: Instruction)
    requires
        i.opcode is MapGet || i.opcode is MapSet || i.opcode is MapDelete || i.opcode is MapLen || i.opcode is MapIterInit || i.opcode is ChanNew || i.opcode is ChanSend || i.opcode is ChanClose || i.opcode is ChanLen || i.opcode is ChanCap,
    ensures
        field_line(i),
{
    match i.opcode {
        Opcode::MapGet => {
            reveal_strlit("MapGet        r");
            reveal_strlit("[r");
            reveal_strlit(", r");
            reveal_strlit("]");
            assert(instruction_text(i) =~= "MapGet        r"@ + dec(i.a as nat) + ", r"@ + dec(i.b as nat) + "[r"@ + dec(i.c as nat) + "]"@);
        },
        Opcode::MapSet => {
            reveal_strlit("], r");
            reveal_strlit("[r");
            reveal_strlit("MapSet        r");
            assert(instruction_text(i) =~= "MapSet        r"@ + dec(i.a as nat) + "[r"@ + dec(i.b as nat) + "], r"@ + dec(i.c as nat));
        },
        Opcode::MapDelete => {
            reveal_strlit("[r");
            reveal_strlit("MapDelete     r");
            reveal_strlit("]");
            assert(instruction_text(i) =~= "MapDelete     r"@ + dec(i.a as nat) + "[r"@ + dec(i.b as nat) + "]"@);
        },
        Opcode::MapLen => {
            reveal_strlit("MapLen        r");
            reveal_strlit(", r");
            assert(instruction_text(i) =~= "MapLen        r"@ + dec(i.a as nat) + ", r"@ + dec(i.b as nat));
        },
        Opcode::MapIterInit => {
            reveal_strlit(", r");
            reveal_strlit("MapIterInit   r");
            assert(instruction_text(i) =~= "MapIterInit   r"@ + dec(i.a as nat) + ", r"@ + dec(i.b as nat));
        },
        Opcode::ChanNew => {
            reveal_strlit("ChanNew       r");
            reveal_strlit(", slots=");
            reveal_strlit(", cap=r");
            reveal_strlit(", meta=r");
            assert(instruction_text(i) =~= "ChanNew       r"@ + dec(i.a as nat) + ", meta=r"@ + dec(i.b as nat) + ", cap=r"@ + dec(i.c as nat) + ", slots="@ + dec(i.flags as nat));
        },
        Opcode::ChanSend => {
            reveal_strlit("ChanSend      r");
            reveal_strlit(", r");
            reveal_strlit(", slots=");
            assert(instruction_text(i) =~= "ChanSend      r"@ + dec(i.a as nat) + ", r"@ + dec(i.b as nat) + ", slots="@ + dec(i.flags as nat));
        },
        Opcode::ChanClose => {
            reveal_strlit("ChanClose     r");
            assert(instruction_text(i) =~= "ChanClose     r"@ + dec(i.a as nat));
        },
        Opcode::ChanLen => {
            reveal_strlit("ChanLen       r");
            reveal_strlit(", r");
            assert(instruction_text(i) =~= "ChanLen       r"@ + dec(i.a as nat) + ", r"@ + dec(i.b as nat));
        },
        Opcode::ChanCap => {
            reveal_strlit("ChanCap       r");
            reveal_strlit(", r");
            assert(instruction_text(i) =~= "ChanCap       r"@ + dec(i.a as nat) + ", r"@ + dec(i.b as nat));
        },
        _ => {},
    }
}

#[verifier::spinoff_prover]
proof fn lemma_field_line_9(i: Instruction)
    requires
        i.opcode is SelectBegin || i.opcode is SelectSend || i.opcode is SelectRecv || i.opcode is SelectExec || i.opcode is ClosureGet || i.opcode is Panic || i.opcode is Recover || i.opcode is IfaceAssign || i.opcode is IfaceAssert || i.opcode is IfaceEq,
    ensures
        field_line(i),
{
    match i.opcode {
        Opcode::SelectBegin => {
            reveal_strlit("SelectBegin   r");
            reveal_strlit(", cases=");
            assert(instruction_text(i) =~= "SelectBegin   r"@ + dec(i.a as nat) + ", cases="@ + dec(i.b as nat));
        },
        Opcode::SelectSend => {
            reveal_strlit(", r");
            reveal_strlit("SelectSend    r");
            assert(instruction_text(i) =~= "SelectSend    r"@ + dec(i.a as nat) + ", r"@ + dec(i.b as nat));
        },
        Opcode::SelectRecv => {
            reveal_strlit("SelectRecv    r");
            reveal_strlit(", r");
            assert(instruction_text(i) =~= "SelectRecv    r"@ + dec(i.a as nat) + ", r"@ + dec(i.b as nat));
        },
        Opcode::SelectExec => {
            reveal_strlit("SelectExec    r");
            assert(instruction_text(i) =~= "SelectExec    r"@ + dec(i.a as nat));
        },
        Opcode::ClosureGet => {
            reveal_strlit("ClosureGet    r");
            reveal_strlit(", capture[");
            reveal_strlit("]");
            assert(instruction_text(i) =~= "ClosureGet    r"@ + dec(i.a as nat) + ", capture["@ + dec(i.b as nat) + "]"@);
        },
        Opcode::Panic => {
            reveal_strlit("Panic         r");
            assert(instruction_text(i) =~= "Panic         r"@ + dec(i.a as nat));
        },
        Opcode::Recover => {
            reveal_strlit("Recover       r");
            assert(instruction_text(i) =~= "Recover       r"@ + dec(i.a as nat));
        },
        Opcode::IfaceAssign => {
            reveal_strlit("IfaceAssign   r");
            reveal_strlit(", vk=");
            reveal_strlit(", const=");
            reveal_strlit(", r");
            assert(instruction_text(i) =~= "IfaceAssign   r"@ + dec(i.a as nat) + ", r"@ + dec(i.b as nat) + ", const="@ + dec(i.c as nat) + ", vk="@ + dec(i.flags as nat));
        },
        Opcode::IfaceAssert => {
            reveal_strlit(", target_meta=");
            reveal_strlit("IfaceAssert   r");
            reveal_strlit(", r");
            reveal_strlit(", flags=");
            assert(instruction_text(i) =~= "IfaceAssert   r"@ + dec(i.a as nat) + ", r"@ + dec(i.b as nat) + ", target_meta="@ + dec(i.c as nat) + ", flags="@ + dec(i.flags as nat));
        },
        Opcode::IfaceEq => {
            reveal_strlit("IfaceEq       r");
            reveal_strlit(", r");
            assert(instruction_text(i) =~= "IfaceEq       r"@ + dec(i.a as nat) + ", r"@ + dec(i.b as nat) + ", r"@ + dec(i.c as nat));
        },
        _ => {},
    }
}

#[verifier::spinoff_prover]
proof fn lemma_field_line_10(i: Instruction)
    requires
        i.opcode is ConvI2F || i.opcode is ConvF2I || i.opcode is ConvF64F32 || i.opcode is ConvF32F64 || i.opcode is IndexCheck || i.opcode is IslandNew || i.opcode is PortNew || i.opcode is PortSend || i.opcode is PortClose || i.opcode is PortLen,
    ensures
        field_line(i),
{
    match i.opcode {
        Opcode::ConvI2F => {
            reveal_strlit("ConvI2F       r");
            reveal_strlit(", r");
            assert(instruction_text(i) =~= "ConvI2F       r"@ + dec(i.a as nat) + ", r"@ + dec(i.b as nat));
        },
        Opcode::ConvF2I => {
            reveal_strlit(", r");
            reveal_strlit("ConvF2I       r");
            assert(instruction_text(i) =~= "ConvF2I       r"@ + dec(i.a as nat) + ", r"@ + dec(i.b as nat));
        },
        Opcode::ConvF64F32 => {
            reveal_strlit(", r");
            reveal_strlit("ConvF64F32    r");
            assert(instruction_text(i) =~= "ConvF64F32    r"@ + dec(i.a as nat) + ", r"@ + dec(i.b as nat));
        },
        Opcode::ConvF32F64 => {
            reveal_strlit(", r");
            reveal_strlit("ConvF32F64    r");
            assert(instruction_text(i) =~= "ConvF32F64    r"@ + dec(i.a as nat) + ", r"@ + dec(i.b as nat));
        },
        Opcode::IndexCheck => {
            reveal_strlit("IndexCheck    r");
            reveal_strlit(", r");
            assert(instruction_text(i) =~= "IndexCheck    r"@ + dec(i.a as nat) + ", r"@ + dec(i.b as nat));
        },
        Opcode::IslandNew => {
            reveal_strlit("IslandNew     r");
            assert(instruction_text(i) =~= "IslandNew     r"@ + dec(i.a as nat));
        },
        Opcode::PortNew => {
            reveal_strlit(", elem_slots=");
            reveal_strlit(", cap=");
            reveal_strlit(", meta=");
            reveal_strlit("PortNew       r");
            assert(instruction_text(i) =~= "PortNew       r"@ + dec(i.a as nat) + ", meta="@ + dec(i.b as nat) + ", cap="@ + dec(i.c as nat) + ", elem_slots="@ + dec(i.flags as nat));
        },
        Opcode::PortSend => {
            reveal_strlit(", elem_slots=");
            reveal_strlit("PortSend      r");
            reveal_strlit(", r");
            assert(instruction_text(i) =~= "PortSend      r"@ + dec(i.a as nat) + ", r"@ + dec(i.b as nat) + ", elem_slots="@ + dec(i.flags as nat));
        },
        Opcode::PortClose => {
            reveal_strlit("PortClose     r");
            assert(instruction_text(i) =~= "PortClose     r"@ + dec(i.a as nat));
        },
        Opcode::PortLen => {
            reveal_strlit(", r");
            reveal_strlit("PortLen       r");
            assert(instruction_text(i) =~= "PortLen       r"@ + dec(i.a as nat) + ", r"@ + dec(i.b as nat));
        },
        _ => {},
    }
}

#[verifier::spinoff_prover]
proof fn lemma_field_line_11(i: Instruction)
    requires
        i.opcode is PortCap || i.opcode is GoIsland,
    ensures
        field_line(i),
{
    match i.opcode {
        Opcode::PortCap => {
            reveal_strlit("PortCap       r");
            reveal_strlit(", r");
            assert(instruction_text(i) =~= "PortCap       r"@ + dec(i.a as nat) + ", r"@ + dec(i.b as nat));
        },
        Opcode::GoIsland => {
            reveal_strlit(", r");
            reveal_strlit("GoIsland      r");
            reveal_strlit(", capture_slots=");
            assert(instruction_text(i) =~= "GoIsland      r"@ + dec(i.a as nat) + ", r"@ + dec(i.b as nat) + ", capture_slots="@ + dec(i.flags as nat));
        },
        _ => {},
    }
}

/// Every instruction whose operands are its fields shows them in the
/// order and with the literal text around them that its line form gives:
/// for `SubI` with `a = 1`, `b = 2`, `c = 3` that is
/// `SubI          r1, r2, r3`, for `SlotSet` `r<a>[r<b>], r<c>`, for
/// `CopyN` `r<a>, r<b>, n=<c>`. This is the line that `format_instruction`
/// returns.
pub proof fn law_field_lines(i: Instruction)
    ensures
        field_line(i),
{
    if i.opcode is LoadConst || i.opcode is Copy || i.opcode is CopyN || i.opcode is SlotGet || i.opcode is SlotSet || i.opcode is SlotGetN || i.opcode is SlotSetN || i.opcode is GlobalGet || i.opcode is GlobalGetN || i.opcode is GlobalSet {
        lemma_field_line_0(i);
    }
    if i.opcode is GlobalSetN || i.opcode is PtrNew || i.opcode is PtrGet || i.opcode is PtrSet || i.opcode is PtrGetN || i.opcode is PtrSetN || i.opcode is PtrAdd || i.opcode is AddI || i.opcode is SubI || i.opcode is MulI {
        lemma_field_line_1(i);
    }
    if i.opcode is DivI || i.opcode is DivU || i.opcode is ModI || i.opcode is ModU || i.opcode is NegI || i.opcode is AddF || i.opcode is SubF || i.opcode is MulF || i.opcode is DivF || i.opcode is NegF {
        lemma_field_line_2(i);
    }
    if i.opcode is EqI || i.opcode is NeI || i.opcode is LtI || i.opcode is LeI || i.opcode is GtI || i.opcode is GeI || i.opcode is LtU || i.opcode is LeU || i.opcode is GtU || i.opcode is GeU {
        lemma_field_line_3(i);
    }
    if i.opcode is EqF || i.opcode is NeF || i.opcode is LtF || i.opcode is LeF || i.opcode is GtF || i.opcode is GeF || i.opcode is And || i.opcode is Or || i.opcode is Xor || i.opcode is AndNot {
        lemma_field_line_4(i);
    }
    if i.opcode is Not || i.opcode is Shl || i.opcode is ShrS || i.opcode is ShrU || i.opcode is BoolNot || i.opcode is CallExtern || i.opcode is StrNew || i.opcode is StrLen || i.opcode is StrIndex || i.opcode is StrConcat {
        lemma_field_line_5(i);
    }
    if i.opcode is StrSlice || i.opcode is StrEq || i.opcode is StrNe || i.opcode is StrLt || i.opcode is StrLe || i.opcode is StrGt || i.opcode is StrGe || i.opcode is StrDecodeRune || i.opcode is ArrayNew || i.opcode is ArrayGet {
        lemma_field_line_6(i);
    }
    if i.opcode is ArraySet || i.opcode is ArrayAddr || i.opcode is SliceNew || i.opcode is SliceGet || i.opcode is SliceSet || i.opcode is SliceLen || i.opcode is SliceCap || i.opcode is SliceAppend || i.opcode is SliceAddr || i.opcode is MapNew {
        lemma_field_line_7(i);
    }
    if i.opcode is MapGet || i.opcode is MapSet || i.opcode is MapDelete || i.opcode is MapLen || i.opcode is MapIterInit || i.opcode is ChanNew || i.opcode is ChanSend || i.opcode is ChanClose || i.opcode is ChanLen || i.opcode is ChanCap {
        lemma_field_line_8(i);
    }
    if i.opcode is SelectBegin || i.opcode is SelectSend || i.opcode is SelectRecv || i.opcode is SelectExec || i.opcode is ClosureGet || i.opcode is Panic || i.opcode is Recover || i.opcode is IfaceAssign || i.opcode is IfaceAssert || i.opcode is IfaceEq {
        lemma_field_line_9(i);
    }
    if i.opcode is ConvI2F || i.opcode is ConvF2I || i.opcode is ConvF64F32 || i.opcode is ConvF32F64 || i.opcode is IndexCheck || i.opcode is IslandNew || i.opcode is PortNew || i.opcode is PortSend || i.opcode is PortClose || i.opcode is PortLen {
        lemma_field_line_10(i);
    }
    if i.opcode is PortCap || i.opcode is GoIsland {
        lemma_field_line_11(i);
    }
}


/// The signed 32-bit immediate that `b` (low half) and `c` (high half)
/// hold together.
pub open spec fn immediate(i: Instruction) -> int {
    i.b + 65536 * i.c - (if i.c >= 32768 { 4294967296int } else { 0int })
}

/// The integer type named by the `flags` of a `Trunc`: the top bit says
/// signed, the rest the width in bytes.
pub open spec fn narrowed_type(flags: u8) -> Seq<char> {
    if flags == 129 {
        "i8"@
    } else if flags == 130 {
        "i16"@
    } else if flags == 132 {
        "i32"@
    } else if flags == 1 {
        "u8"@
    } else if flags == 2 {
        "u16"@
    } else if flags == 4 {
        "u32"@
    } else {
        "?"@
    }
}

/// The line of each instruction whose operands are computed from its
/// fields: immediates from `b` and `c`, function ids from two fields,
/// slot counts packed into one, and flag bits.
pub open spec fn packed_line(i: Instruction) -> bool {
    let a = i.a as nat;
    let b = i.b as nat;
    let c = i.c as nat;
    let f = i.flags as nat;
    let t = instruction_text(i);
    match i.opcode {
        Opcode::Hint => t == "Hint          flags="@ + dec(f) + ", a="@ + dec(a) + ", bc="@ + dec(b + 65536 * c),
        Opcode::LoadInt => t == "LoadInt       r"@ + dec(a) + ", "@ + sdec(immediate(i)),
        Opcode::Jump => t == "Jump          pc_"@ + sdec(immediate(i)),
        Opcode::JumpIf => t == "JumpIf        r"@ + dec(a) + ", pc_"@ + sdec(immediate(i)),
        Opcode::JumpIfNot => t == "JumpIfNot     r"@ + dec(a) + ", pc_"@ + sdec(immediate(i)),
        Opcode::Call => t == "Call          func_"@ + dec(a + 65536 * f) + ", args=r"@ + dec(b) + ", arg_slots="@
            + dec(c / 256) + ", ret_slots="@ + dec(c % 256),
        Opcode::CallClosure => t == "CallClosure   r"@ + dec(a) + ", r"@ + dec(b) + ", arg_slots="@ + dec(c / 256)
            + ", ret_slots="@ + dec(c % 256),
        Opcode::CallIface => t == "CallIface     r"@ + dec(a) + ", r"@ + dec(b) + ", method="@ + dec(f) + ", arg_slots="@
            + dec(c / 256) + ", ret_slots="@ + dec(c % 256),
        Opcode::Return => t == (if a == 0 && b == 0 { "Return"@ } else { "Return        r"@ + dec(a) + ", count="@ + dec(b) }),
        Opcode::SliceSlice => t == "SliceSlice    r"@ + dec(a) + ", r"@ + dec(b) + "[r"@ + dec(c) + ":], src="@
            + (if f % 2 == 1 { "array"@ } else { "slice"@ }) + (if (f / 2) % 2 == 1 { ", has_max"@ } else { ""@ }),
        Opcode::MapIterNext => t == "MapIterNext   r"@ + dec(a) + ", iter=r"@ + dec(b) + ", ok=r"@ + dec(c) + ", key_slots="@
            + dec(f % 16) + ", val_slots="@ + dec(f / 16),
        Opcode::ChanRecv => t == "ChanRecv      r"@ + dec(a) + ", r"@ + dec(b) + ", slots="@ + dec(f / 2),
        Opcode::ClosureNew => t == "ClosureNew    r"@ + dec(a) + ", func_"@ + dec(b + 65536 * f) + ", captures="@ + dec(c),
        Opcode::GoStart => t == (if f % 2 == 1 {
            "GoStart       closure=r"@ + dec(a) + ", args=r"@ + dec(b) + ", slots="@ + dec(c)
        } else {
            "GoStart       func_"@ + dec(a + 65536 * (f / 2)) + ", args=r"@ + dec(b) + ", slots="@ + dec(c)
        }),
        Opcode::DeferPush => t == (if f % 2 == 1 {
            "DeferPush     closure=r"@ + dec(a) + ", args=r"@ + dec(b) + ", slots="@ + dec(c)
        } else {
            "DeferPush     func_"@ + dec(a + 65536 * (f / 2)) + ", args=r"@ + dec(b) + ", slots="@ + dec(c)
        }),
        Opcode::ErrDeferPush => t == (if f % 2 == 1 {
            "ErrDeferPush  closure=r"@ + dec(a) + ", args=r"@ + dec(b) + ", slots="@ + dec(c)
        } else {
            "ErrDeferPush  func_"@ + dec(a + 65536 * (f / 2)) + ", args=r"@ + dec(b) + ", slots="@ + dec(c)
        }),
        Opcode::Trunc => t == "Trunc         r"@ + dec(a) + ", r"@ + dec(b) + ", "@ + narrowed_type(i.flags),
        Opcode::PortRecv => t == "PortRecv      r"@ + dec(a) + ", r"@ + dec(b) + ", elem_slots="@ + dec(f / 2) + ", has_ok="@
            + dec(f % 2),
        Opcode::ForLoop => t == "ForLoop       r"@ + dec(a) + ", r"@ + dec(b) + ", offset="@
            + sdec(if c >= 32768 { c - 65536 } else { c as int }) + ", flags="@ + dec(f),
        Opcode::Invalid => t == "Invalid       op="@ + dec(i.op as nat) + ", flags="@ + dec(f) + ", a="@ + dec(a) + ", b="@
            + dec(b) + ", c="@ + dec(c),
        _ => true,
    }
}

proof fn lemma_join16(lo: u16, hi: u16)
    ensures
        ((lo as u32) | ((hi as u32) << 16u32)) == lo + 65536 * hi,
{
    assert(((lo as u32) | ((hi as u32) << 16u32)) == lo + 65536 * hi) by (bit_vector);
}

proof fn lemma_join_id(lo: u16, hi: u8)
    ensures
        ((lo as u32) | ((hi as u32) << 16u32)) == lo + 65536 * hi,
        ((lo as u32) | (((hi >> 1u8) as u32) << 16u32)) == lo + 65536 * (hi / 2),
{
    assert(((lo as u32) | ((hi as u32) << 16u32)) == lo + 65536 * hi) by (bit_vector);
    assert(((lo as u32) | (((hi >> 1u8) as u32) << 16u32)) == lo + 65536 * (hi / 2)) by (bit_vector);
}

proof fn lemma_slot_pair(c: u16)
    ensures
        (c >> 8u16) == c / 256,
        (c & 0xFFu16) == c % 256,
{
    assert((c >> 8u16) == c / 256) by (bit_vector);
    assert((c & 0xFFu16) == c % 256) by (bit_vector);
}

proof fn lemma_flag_bits(f: u8)
    ensures
        ((f & 1u8) != 0) == (f % 2 == 1),
        ((f & 2u8) != 0) == ((f / 2) % 2 == 1),
        (f & 0x0Fu8) == f % 16,
        ((f >> 4u8) & 0x0Fu8) == f / 16,
        ((f >> 1u8) & 0x7Fu8) == f / 2,
        (f >> 1u8) == f / 2,
        (f & 1u8) == f % 2,
        ((f & 0x80u8) != 0) == (f >= 128),
        (f & 0x7Fu8) == f % 128,
{
    assert(((f & 1u8) != 0) == (f % 2 == 1)) by (bit_vector);
    assert(((f & 2u8) != 0) == ((f / 2) % 2 == 1)) by (bit_vector);
    assert((f & 0x0Fu8) == f % 16) by (bit_vector);
    assert(((f >> 4u8) & 0x0Fu8) == f / 16) by (bit_vector);
    assert(((f >> 1u8) & 0x7Fu8) == f / 2) by (bit_vector);
    assert((f >> 1u8) == f / 2) by (bit_vector);
    assert((f & 1u8) == f % 2) by (bit_vector);
    assert(((f & 0x80u8) != 0) == (f >= 128)) by (bit_vector);
    assert((f & 0x7Fu8) == f % 128) by (bit_vector);
}

proof fn lemma_signed(x: u32, c: u16)
    ensures
        (x as i32) as int == (if x >= 0x8000_0000u32 { x - 0x1_0000_0000int } else { x as int }),
        (c as i16) as int == (if c >= 32768u16 { c - 65536int } else { c as int }),
{
    assert((x as i32) as int == (if x >= 0x8000_0000u32 { x - 0x1_0000_0000int } else { x as int })) by (bit_vector);
    assert((c as i16) as int == (if c >= 32768u16 { c - 65536int } else { c as int })) by (bit_vector);
}

/// Every instruction whose operands are computed from its fields shows
/// them as its line form says: the immediate that `b` and `c` make, read
/// signed; a function id made of a low and a high field; argument and
/// result slot counts from the high and low byte of `c`; flag bits in
/// their places. This is the line that `format_instruction` returns.
#[verifier::spinoff_prover]
#[verifier::rlimit(100)]
pub proof fn law_packed_lines(i: Instruction)
    ensures
        packed_line(i),
{
    lemma_join16(i.b, i.c);
    lemma_join_id(i.a, i.flags);
    lemma_join_id(i.b, i.flags);
    lemma_slot_pair(i.c);
    lemma_flag_bits(i.flags);
    lemma_signed(imm32_unsigned_of(i), i.c);
    reveal_strlit("array");
    reveal_strlit("slice");
    reveal_strlit(", has_max");
    reveal_strlit("");
    reveal_strlit("i8");
    reveal_strlit("i16");
    reveal_strlit("i32");
    reveal_strlit("u8");
    reveal_strlit("u16");
    reveal_strlit("u32");
    reveal_strlit("?");
}

} // verus!
