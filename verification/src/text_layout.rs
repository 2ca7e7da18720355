//! Laws on the layout of the bytecode text: the mnemonic that begins each
//! instruction, and the order of a module's header and sections.

use vstd::prelude::*;

use crate::bytecode::{FunctionDef, Instruction, Module, Opcode};
use crate::format::{function_entries, function_entry, instruction_text, module_header, module_text, section, trunc_type};
use crate::text::{dec, digit_char, sdec};

verus! {

/// The mnemonic of an opcode: the name of its variant.
pub open spec fn opcode_name(op: Opcode) -> Seq<char> {
    match op {
        Opcode::Hint => "Hint"@,
        Opcode::LoadInt => "LoadInt"@,
        Opcode::LoadConst => "LoadConst"@,
        Opcode::Copy => "Copy"@,
        Opcode::CopyN => "CopyN"@,
        Opcode::SlotGet => "SlotGet"@,
        Opcode::SlotSet => "SlotSet"@,
        Opcode::SlotGetN => "SlotGetN"@,
        Opcode::SlotSetN => "SlotSetN"@,
        Opcode::GlobalGet => "GlobalGet"@,
        Opcode::GlobalGetN => "GlobalGetN"@,
        Opcode::GlobalSet => "GlobalSet"@,
        Opcode::GlobalSetN => "GlobalSetN"@,
        Opcode::PtrNew => "PtrNew"@,
        Opcode::PtrGet => "PtrGet"@,
        Opcode::PtrSet => "PtrSet"@,
        Opcode::PtrGetN => "PtrGetN"@,
        Opcode::PtrSetN => "PtrSetN"@,
        Opcode::PtrAdd => "PtrAdd"@,
        Opcode::AddI => "AddI"@,
        Opcode::SubI => "SubI"@,
        Opcode::MulI => "MulI"@,
        Opcode::DivI => "DivI"@,
        Opcode::DivU => "DivU"@,
        Opcode::ModI => "ModI"@,
        Opcode::ModU => "ModU"@,
        Opcode::NegI => "NegI"@,
        Opcode::AddF => "AddF"@,
        Opcode::SubF => "SubF"@,
        Opcode::MulF => "MulF"@,
        Opcode::DivF => "DivF"@,
        Opcode::NegF => "NegF"@,
        Opcode::EqI => "EqI"@,
        Opcode::NeI => "NeI"@,
        Opcode::LtI => "LtI"@,
        Opcode::LeI => "LeI"@,
        Opcode::GtI => "GtI"@,
        Opcode::GeI => "GeI"@,
        Opcode::LtU => "LtU"@,
        Opcode::LeU => "LeU"@,
        Opcode::GtU => "GtU"@,
        Opcode::GeU => "GeU"@,
        Opcode::EqF => "EqF"@,
        Opcode::NeF => "NeF"@,
        Opcode::LtF => "LtF"@,
        Opcode::LeF => "LeF"@,
        Opcode::GtF => "GtF"@,
        Opcode::GeF => "GeF"@,
        Opcode::And => "And"@,
        Opcode::Or => "Or"@,
        Opcode::Xor => "Xor"@,
        Opcode::AndNot => "AndNot"@,
        Opcode::Not => "Not"@,
        Opcode::Shl => "Shl"@,
        Opcode::ShrS => "ShrS"@,
        Opcode::ShrU => "ShrU"@,
        Opcode::BoolNot => "BoolNot"@,
        Opcode::Jump => "Jump"@,
        Opcode::JumpIf => "JumpIf"@,
        Opcode::JumpIfNot => "JumpIfNot"@,
        Opcode::Call => "Call"@,
        Opcode::CallExtern => "CallExtern"@,
        Opcode::CallClosure => "CallClosure"@,
        Opcode::CallIface => "CallIface"@,
        Opcode::Return => "Return"@,
        Opcode::StrNew => "StrNew"@,
        Opcode::StrLen => "StrLen"@,
        Opcode::StrIndex => "StrIndex"@,
        Opcode::StrConcat => "StrConcat"@,
        Opcode::StrSlice => "StrSlice"@,
        Opcode::StrEq => "StrEq"@,
        Opcode::StrNe => "StrNe"@,
        Opcode::StrLt => "StrLt"@,
        Opcode::StrLe => "StrLe"@,
        Opcode::StrGt => "StrGt"@,
        Opcode::StrGe => "StrGe"@,
        Opcode::StrDecodeRune => "StrDecodeRune"@,
        Opcode::ArrayNew => "ArrayNew"@,
        Opcode::ArrayGet => "ArrayGet"@,
        Opcode::ArraySet => "ArraySet"@,
        Opcode::ArrayAddr => "ArrayAddr"@,
        Opcode::SliceNew => "SliceNew"@,
        Opcode::SliceGet => "SliceGet"@,
        Opcode::SliceSet => "SliceSet"@,
        Opcode::SliceLen => "SliceLen"@,
        Opcode::SliceCap => "SliceCap"@,
        Opcode::SliceSlice => "SliceSlice"@,
        Opcode::SliceAppend => "SliceAppend"@,
        Opcode::SliceAddr => "SliceAddr"@,
        Opcode::MapNew => "MapNew"@,
        Opcode::MapGet => "MapGet"@,
        Opcode::MapSet => "MapSet"@,
        Opcode::MapDelete => "MapDelete"@,
        Opcode::MapLen => "MapLen"@,
        Opcode::MapIterInit => "MapIterInit"@,
        Opcode::MapIterNext => "MapIterNext"@,
        Opcode::ChanNew => "ChanNew"@,
        Opcode::ChanSend => "ChanSend"@,
        Opcode::ChanRecv => "ChanRecv"@,
        Opcode::ChanClose => "ChanClose"@,
        Opcode::ChanLen => "ChanLen"@,
        Opcode::ChanCap => "ChanCap"@,
        Opcode::SelectBegin => "SelectBegin"@,
        Opcode::SelectSend => "SelectSend"@,
        Opcode::SelectRecv => "SelectRecv"@,
        Opcode::SelectExec => "SelectExec"@,
        Opcode::ClosureNew => "ClosureNew"@,
        Opcode::ClosureGet => "ClosureGet"@,
        Opcode::GoStart => "GoStart"@,
        Opcode::DeferPush => "DeferPush"@,
        Opcode::ErrDeferPush => "ErrDeferPush"@,
        Opcode::Panic => "Panic"@,
        Opcode::Recover => "Recover"@,
        Opcode::IfaceAssign => "IfaceAssign"@,
        Opcode::IfaceAssert => "IfaceAssert"@,
        Opcode::IfaceEq => "IfaceEq"@,
        Opcode::ConvI2F => "ConvI2F"@,
        Opcode::ConvF2I => "ConvF2I"@,
        Opcode::ConvF64F32 => "ConvF64F32"@,
        Opcode::ConvF32F64 => "ConvF32F64"@,
        Opcode::Trunc => "Trunc"@,
        Opcode::IndexCheck => "IndexCheck"@,
        Opcode::IslandNew => "IslandNew"@,
        Opcode::PortNew => "PortNew"@,
        Opcode::PortSend => "PortSend"@,
        Opcode::PortRecv => "PortRecv"@,
        Opcode::PortClose => "PortClose"@,
        Opcode::PortLen => "PortLen"@,
        Opcode::PortCap => "PortCap"@,
        Opcode::GoIsland => "GoIsland"@,
        Opcode::ForLoop => "ForLoop"@,
        Opcode::Invalid => "Invalid"@,
    }
}

/// `t` is `name`, or `name` followed by a space and more.
pub open spec fn starts_with_name(t: Seq<char>, name: Seq<char>) -> bool {
    &&& t.len() >= name.len()
    &&& t.subrange(0, name.len() as int) == name
    &&& (t.len() == name.len() || t[name.len() as int] == ' ')
}

/// The text of an instruction starts with its opcode's mnemonic, followed
/// by a space unless the text is the mnemonic alone, which only a `Return`
/// prints.
pub proof fn lemma_instruction_starts_with_name(i: Instruction)
    ensures
        starts_with_name(instruction_text(i), opcode_name(i.opcode)),
        instruction_text(i).len() == opcode_name(i.opcode).len() ==> i.opcode is Return,
{
    match i.opcode {
        Opcode::Hint | Opcode::LoadInt | Opcode::LoadConst | Opcode::Copy | Opcode::CopyN | Opcode::SlotGet | Opcode::SlotSet | Opcode::SlotGetN | Opcode::SlotSetN | Opcode::GlobalGet | Opcode::GlobalGetN => lemma_names_0(i),
        Opcode::GlobalSet | Opcode::GlobalSetN | Opcode::PtrNew | Opcode::PtrGet | Opcode::PtrSet | Opcode::PtrGetN | Opcode::PtrSetN | Opcode::PtrAdd | Opcode::AddI | Opcode::SubI | Opcode::MulI => lemma_names_1(i),
        Opcode::DivI | Opcode::DivU | Opcode::ModI | Opcode::ModU | Opcode::NegI | Opcode::AddF | Opcode::SubF | Opcode::MulF | Opcode::DivF | Opcode::NegF | Opcode::EqI => lemma_names_2(i),
        Opcode::NeI | Opcode::LtI | Opcode::LeI | Opcode::GtI | Opcode::GeI | Opcode::LtU | Opcode::LeU | Opcode::GtU | Opcode::GeU | Opcode::EqF | Opcode::NeF => lemma_names_3(i),
        Opcode::LtF | Opcode::LeF | Opcode::GtF | Opcode::GeF | Opcode::And | Opcode::Or | Opcode::Xor | Opcode::AndNot | Opcode::Not | Opcode::Shl | Opcode::ShrS => lemma_names_4(i),
        Opcode::ShrU | Opcode::BoolNot | Opcode::Jump | Opcode::JumpIf | Opcode::JumpIfNot | Opcode::Call | Opcode::CallExtern | Opcode::CallClosure | Opcode::CallIface | Opcode::Return | Opcode::StrNew => lemma_names_5(i),
        Opcode::StrLen | Opcode::StrIndex | Opcode::StrConcat | Opcode::StrSlice | Opcode::StrEq | Opcode::StrNe | Opcode::StrLt | Opcode::StrLe | Opcode::StrGt | Opcode::StrGe | Opcode::StrDecodeRune => lemma_names_6(i),
        Opcode::ArrayNew | Opcode::ArrayGet | Opcode::ArraySet | Opcode::ArrayAddr | Opcode::SliceNew | Opcode::SliceGet | Opcode::SliceSet | Opcode::SliceLen | Opcode::SliceCap | Opcode::SliceSlice | Opcode::SliceAppend => lemma_names_7(i),
        Opcode::SliceAddr | Opcode::MapNew | Opcode::MapGet | Opcode::MapSet | Opcode::MapDelete | Opcode::MapLen | Opcode::MapIterInit | Opcode::MapIterNext | Opcode::ChanNew | Opcode::ChanSend | Opcode::ChanRecv => lemma_names_8(i),
        Opcode::ChanClose | Opcode::ChanLen | Opcode::ChanCap | Opcode::SelectBegin | Opcode::SelectSend | Opcode::SelectRecv | Opcode::SelectExec | Opcode::ClosureNew | Opcode::ClosureGet | Opcode::GoStart | Opcode::DeferPush => lemma_names_9(i),
        Opcode::ErrDeferPush | Opcode::Panic | Opcode::Recover | Opcode::IfaceAssign | Opcode::IfaceAssert | Opcode::IfaceEq | Opcode::ConvI2F | Opcode::ConvF2I | Opcode::ConvF64F32 | Opcode::ConvF32F64 | Opcode::Trunc => lemma_names_10(i),
        Opcode::IndexCheck | Opcode::IslandNew | Opcode::PortNew | Opcode::PortSend | Opcode::PortRecv | Opcode::PortClose | Opcode::PortLen | Opcode::PortCap | Opcode::GoIsland | Opcode::ForLoop | Opcode::Invalid => lemma_names_11(i),
    }
}

#[verifier::spinoff_prover]
proof fn lemma_names_0(i: Instruction)
    requires
        i.opcode is Hint || i.opcode is LoadInt || i.opcode is LoadConst || i.opcode is Copy || i.opcode is CopyN || i.opcode is SlotGet || i.opcode is SlotSet || i.opcode is SlotGetN || i.opcode is SlotSetN || i.opcode is GlobalGet || i.opcode is GlobalGetN,
    ensures
        starts_with_name(instruction_text(i), opcode_name(i.opcode)),
        instruction_text(i).len() == opcode_name(i.opcode).len() ==> i.opcode is Return,
{
    let t = instruction_text(i);
    match i.opcode {
        Opcode::Hint => {
            reveal_strlit("Hint"); reveal_strlit("Hint          flags=");
            assert(t.subrange(0, 4) =~= "Hint"@);
        },
        Opcode::LoadInt => {
            reveal_strlit("LoadInt"); reveal_strlit("LoadInt       r");
            assert(t.subrange(0, 7) =~= "LoadInt"@);
        },
        Opcode::LoadConst => {
            reveal_strlit("LoadConst"); reveal_strlit("LoadConst     r");
            assert(t.subrange(0, 9) =~= "LoadConst"@);
        },
        Opcode::Copy => {
            reveal_strlit("Copy"); reveal_strlit("Copy          r");
            assert(t.subrange(0, 4) =~= "Copy"@);
        },
        Opcode::CopyN => {
            reveal_strlit("CopyN"); reveal_strlit("CopyN         r");
            assert(t.subrange(0, 5) =~= "CopyN"@);
        },
        Opcode::SlotGet => {
            reveal_strlit("SlotGet"); reveal_strlit("SlotGet       r");
            assert(t.subrange(0, 7) =~= "SlotGet"@);
        },
        Opcode::SlotSet => {
            reveal_strlit("SlotSet"); reveal_strlit("SlotSet       r");
            assert(t.subrange(0, 7) =~= "SlotSet"@);
        },
        Opcode::SlotGetN => {
            reveal_strlit("SlotGetN"); reveal_strlit("SlotGetN      r");
            assert(t.subrange(0, 8) =~= "SlotGetN"@);
        },
        Opcode::SlotSetN => {
            reveal_strlit("SlotSetN"); reveal_strlit("SlotSetN      r");
            assert(t.subrange(0, 8) =~= "SlotSetN"@);
        },
        Opcode::GlobalGet => {
            reveal_strlit("GlobalGet"); reveal_strlit("GlobalGet     r");
            assert(t.subrange(0, 9) =~= "GlobalGet"@);
        },
        Opcode::GlobalGetN => {
            reveal_strlit("GlobalGetN"); reveal_strlit("GlobalGetN    r");
            assert(t.subrange(0, 10) =~= "GlobalGetN"@);
        },
        _ => {},
    }
}

#[verifier::spinoff_prover]
proof fn lemma_names_1(i: Instruction)
    requires
        i.opcode is GlobalSet || i.opcode is GlobalSetN || i.opcode is PtrNew || i.opcode is PtrGet || i.opcode is PtrSet || i.opcode is PtrGetN || i.opcode is PtrSetN || i.opcode is PtrAdd || i.opcode is AddI || i.opcode is SubI || i.opcode is MulI,
    ensures
        starts_with_name(instruction_text(i), opcode_name(i.opcode)),
        instruction_text(i).len() == opcode_name(i.opcode).len() ==> i.opcode is Return,
{
    let t = instruction_text(i);
    match i.opcode {
        Opcode::GlobalSet => {
            reveal_strlit("GlobalSet"); reveal_strlit("GlobalSet     global_");
            assert(t.subrange(0, 9) =~= "GlobalSet"@);
        },
        Opcode::GlobalSetN => {
            reveal_strlit("GlobalSetN"); reveal_strlit("GlobalSetN    global_");
            assert(t.subrange(0, 10) =~= "GlobalSetN"@);
        },
        Opcode::PtrNew => {
            reveal_strlit("PtrNew"); reveal_strlit("PtrNew        r");
            assert(t.subrange(0, 6) =~= "PtrNew"@);
        },
        Opcode::PtrGet => {
            reveal_strlit("PtrGet"); reveal_strlit("PtrGet        r");
            assert(t.subrange(0, 6) =~= "PtrGet"@);
        },
        Opcode::PtrSet => {
            reveal_strlit("PtrSet"); reveal_strlit("PtrSet        r");
            assert(t.subrange(0, 6) =~= "PtrSet"@);
        },
        Opcode::PtrGetN => {
            reveal_strlit("PtrGetN"); reveal_strlit("PtrGetN       r");
            assert(t.subrange(0, 7) =~= "PtrGetN"@);
        },
        Opcode::PtrSetN => {
            reveal_strlit("PtrSetN"); reveal_strlit("PtrSetN       r");
            assert(t.subrange(0, 7) =~= "PtrSetN"@);
        },
        Opcode::PtrAdd => {
            reveal_strlit("PtrAdd"); reveal_strlit("PtrAdd        r");
            assert(t.subrange(0, 6) =~= "PtrAdd"@);
        },
        Opcode::AddI => {
            reveal_strlit("AddI"); reveal_strlit("AddI          r");
            assert(t.subrange(0, 4) =~= "AddI"@);
        },
        Opcode::SubI => {
            reveal_strlit("SubI"); reveal_strlit("SubI          r");
            assert(t.subrange(0, 4) =~= "SubI"@);
        },
        Opcode::MulI => {
            reveal_strlit("MulI"); reveal_strlit("MulI          r");
            assert(t.subrange(0, 4) =~= "MulI"@);
        },
        _ => {},
    }
}

#[verifier::spinoff_prover]
proof fn lemma_names_2(i: Instruction)
    requires
        i.opcode is DivI || i.opcode is DivU || i.opcode is ModI || i.opcode is ModU || i.opcode is NegI || i.opcode is AddF || i.opcode is SubF || i.opcode is MulF || i.opcode is DivF || i.opcode is NegF || i.opcode is EqI,
    ensures
        starts_with_name(instruction_text(i), opcode_name(i.opcode)),
        instruction_text(i).len() == opcode_name(i.opcode).len() ==> i.opcode is Return,
{
    let t = instruction_text(i);
    match i.opcode {
        Opcode::DivI => {
            reveal_strlit("DivI"); reveal_strlit("DivI          r");
            assert(t.subrange(0, 4) =~= "DivI"@);
        },
        Opcode::DivU => {
            reveal_strlit("DivU"); reveal_strlit("DivU          r");
            assert(t.subrange(0, 4) =~= "DivU"@);
        },
        Opcode::ModI => {
            reveal_strlit("ModI"); reveal_strlit("ModI          r");
            assert(t.subrange(0, 4) =~= "ModI"@);
        },
        Opcode::ModU => {
            reveal_strlit("ModU"); reveal_strlit("ModU          r");
            assert(t.subrange(0, 4) =~= "ModU"@);
        },
        Opcode::NegI => {
            reveal_strlit("NegI"); reveal_strlit("NegI          r");
            assert(t.subrange(0, 4) =~= "NegI"@);
        },
        Opcode::AddF => {
            reveal_strlit("AddF"); reveal_strlit("AddF          r");
            assert(t.subrange(0, 4) =~= "AddF"@);
        },
        Opcode::SubF => {
            reveal_strlit("SubF"); reveal_strlit("SubF          r");
            assert(t.subrange(0, 4) =~= "SubF"@);
        },
        Opcode::MulF => {
            reveal_strlit("MulF"); reveal_strlit("MulF          r");
            assert(t.subrange(0, 4) =~= "MulF"@);
        },
        Opcode::DivF => {
            reveal_strlit("DivF"); reveal_strlit("DivF          r");
            assert(t.subrange(0, 4) =~= "DivF"@);
        },
        Opcode::NegF => {
            reveal_strlit("NegF"); reveal_strlit("NegF          r");
            assert(t.subrange(0, 4) =~= "NegF"@);
        },
        Opcode::EqI => {
            reveal_strlit("EqI"); reveal_strlit("EqI           r");
            assert(t.subrange(0, 3) =~= "EqI"@);
        },
        _ => {},
    }
}

#[verifier::spinoff_prover]
proof fn lemma_names_3(i: Instruction)
    requires
        i.opcode is NeI || i.opcode is LtI || i.opcode is LeI || i.opcode is GtI || i.opcode is GeI || i.opcode is LtU || i.opcode is LeU || i.opcode is GtU || i.opcode is GeU || i.opcode is EqF || i.opcode is NeF,
    ensures
        starts_with_name(instruction_text(i), opcode_name(i.opcode)),
        instruction_text(i).len() == opcode_name(i.opcode).len() ==> i.opcode is Return,
{
    let t = instruction_text(i);
    match i.opcode {
        Opcode::NeI => {
            reveal_strlit("NeI"); reveal_strlit("NeI           r");
            assert(t.subrange(0, 3) =~= "NeI"@);
        },
        Opcode::LtI => {
            reveal_strlit("LtI"); reveal_strlit("LtI           r");
            assert(t.subrange(0, 3) =~= "LtI"@);
        },
        Opcode::LeI => {
            reveal_strlit("LeI"); reveal_strlit("LeI           r");
            assert(t.subrange(0, 3) =~= "LeI"@);
        },
        Opcode::GtI => {
            reveal_strlit("GtI"); reveal_strlit("GtI           r");
            assert(t.subrange(0, 3) =~= "GtI"@);
        },
        Opcode::GeI => {
            reveal_strlit("GeI"); reveal_strlit("GeI           r");
            assert(t.subrange(0, 3) =~= "GeI"@);
        },
        Opcode::LtU => {
            reveal_strlit("LtU"); reveal_strlit("LtU           r");
            assert(t.subrange(0, 3) =~= "LtU"@);
        },
        Opcode::LeU => {
            reveal_strlit("LeU"); reveal_strlit("LeU           r");
            assert(t.subrange(0, 3) =~= "LeU"@);
        },
        Opcode::GtU => {
            reveal_strlit("GtU"); reveal_strlit("GtU           r");
            assert(t.subrange(0, 3) =~= "GtU"@);
        },
        Opcode::GeU => {
            reveal_strlit("GeU"); reveal_strlit("GeU           r");
            assert(t.subrange(0, 3) =~= "GeU"@);
        },
        Opcode::EqF => {
            reveal_strlit("EqF"); reveal_strlit("EqF           r");
            assert(t.subrange(0, 3) =~= "EqF"@);
        },
        Opcode::NeF => {
            reveal_strlit("NeF"); reveal_strlit("NeF           r");
            assert(t.subrange(0, 3) =~= "NeF"@);
        },
        _ => {},
    }
}

#[verifier::spinoff_prover]
proof fn lemma_names_4(i: Instruction)
    requires
        i.opcode is LtF || i.opcode is LeF || i.opcode is GtF || i.opcode is GeF || i.opcode is And || i.opcode is Or || i.opcode is Xor || i.opcode is AndNot || i.opcode is Not || i.opcode is Shl || i.opcode is ShrS,
    ensures
        starts_with_name(instruction_text(i), opcode_name(i.opcode)),
        instruction_text(i).len() == opcode_name(i.opcode).len() ==> i.opcode is Return,
{
    let t = instruction_text(i);
    match i.opcode {
        Opcode::LtF => {
            reveal_strlit("LtF"); reveal_strlit("LtF           r");
            assert(t.subrange(0, 3) =~= "LtF"@);
        },
        Opcode::LeF => {
            reveal_strlit("LeF"); reveal_strlit("LeF           r");
            assert(t.subrange(0, 3) =~= "LeF"@);
        },
        Opcode::GtF => {
            reveal_strlit("GtF"); reveal_strlit("GtF           r");
            assert(t.subrange(0, 3) =~= "GtF"@);
        },
        Opcode::GeF => {
            reveal_strlit("GeF"); reveal_strlit("GeF           r");
            assert(t.subrange(0, 3) =~= "GeF"@);
        },
        Opcode::And => {
            reveal_strlit("And"); reveal_strlit("And           r");
            assert(t.subrange(0, 3) =~= "And"@);
        },
        Opcode::Or => {
            reveal_strlit("Or"); reveal_strlit("Or            r");
            assert(t.subrange(0, 2) =~= "Or"@);
        },
        Opcode::Xor => {
            reveal_strlit("Xor"); reveal_strlit("Xor           r");
            assert(t.subrange(0, 3) =~= "Xor"@);
        },
        Opcode::AndNot => {
            reveal_strlit("AndNot"); reveal_strlit("AndNot        r");
            assert(t.subrange(0, 6) =~= "AndNot"@);
        },
        Opcode::Not => {
            reveal_strlit("Not"); reveal_strlit("Not           r");
            assert(t.subrange(0, 3) =~= "Not"@);
        },
        Opcode::Shl => {
            reveal_strlit("Shl"); reveal_strlit("Shl           r");
            assert(t.subrange(0, 3) =~= "Shl"@);
        },
        Opcode::ShrS => {
            reveal_strlit("ShrS"); reveal_strlit("ShrS          r");
            assert(t.subrange(0, 4) =~= "ShrS"@);
        },
        _ => {},
    }
}

#[verifier::spinoff_prover]
proof fn lemma_names_5(i: Instruction)
    requires
        i.opcode is ShrU || i.opcode is BoolNot || i.opcode is Jump || i.opcode is JumpIf || i.opcode is JumpIfNot || i.opcode is Call || i.opcode is CallExtern || i.opcode is CallClosure || i.opcode is CallIface || i.opcode is Return || i.opcode is StrNew,
    ensures
        starts_with_name(instruction_text(i), opcode_name(i.opcode)),
        instruction_text(i).len() == opcode_name(i.opcode).len() ==> i.opcode is Return,
{
    let t = instruction_text(i);
    match i.opcode {
        Opcode::ShrU => {
            reveal_strlit("ShrU"); reveal_strlit("ShrU          r");
            assert(t.subrange(0, 4) =~= "ShrU"@);
        },
        Opcode::BoolNot => {
            reveal_strlit("BoolNot"); reveal_strlit("BoolNot       r");
            assert(t.subrange(0, 7) =~= "BoolNot"@);
        },
        Opcode::Jump => {
            reveal_strlit("Jump"); reveal_strlit("Jump          pc_");
            assert(t.subrange(0, 4) =~= "Jump"@);
        },
        Opcode::JumpIf => {
            reveal_strlit("JumpIf"); reveal_strlit("JumpIf        r");
            assert(t.subrange(0, 6) =~= "JumpIf"@);
        },
        Opcode::JumpIfNot => {
            reveal_strlit("JumpIfNot"); reveal_strlit("JumpIfNot     r");
            assert(t.subrange(0, 9) =~= "JumpIfNot"@);
        },
        Opcode::Call => {
            reveal_strlit("Call"); reveal_strlit("Call          func_");
            assert(t.subrange(0, 4) =~= "Call"@);
        },
        Opcode::CallExtern => {
            reveal_strlit("CallExtern"); reveal_strlit("CallExtern    r");
            assert(t.subrange(0, 10) =~= "CallExtern"@);
        },
        Opcode::CallClosure => {
            reveal_strlit("CallClosure"); reveal_strlit("CallClosure   r");
            assert(t.subrange(0, 11) =~= "CallClosure"@);
        },
        Opcode::CallIface => {
            reveal_strlit("CallIface"); reveal_strlit("CallIface     r");
            assert(t.subrange(0, 9) =~= "CallIface"@);
        },
        Opcode::Return => {
            reveal_strlit("Return"); reveal_strlit("Return        r");
            assert(t.subrange(0, 6) =~= "Return"@);
        },
        Opcode::StrNew => {
            reveal_strlit("StrNew"); reveal_strlit("StrNew        r");
            assert(t.subrange(0, 6) =~= "StrNew"@);
        },
        _ => {},
    }
}

#[verifier::spinoff_prover]
proof fn lemma_names_6(i: Instruction)
    requires
        i.opcode is StrLen || i.opcode is StrIndex || i.opcode is StrConcat || i.opcode is StrSlice || i.opcode is StrEq || i.opcode is StrNe || i.opcode is StrLt || i.opcode is StrLe || i.opcode is StrGt || i.opcode is StrGe || i.opcode is StrDecodeRune,
    ensures
        starts_with_name(instruction_text(i), opcode_name(i.opcode)),
        instruction_text(i).len() == opcode_name(i.opcode).len() ==> i.opcode is Return,
{
    let t = instruction_text(i);
    match i.opcode {
        Opcode::StrLen => {
            reveal_strlit("StrLen"); reveal_strlit("StrLen        r");
            assert(t.subrange(0, 6) =~= "StrLen"@);
        },
        Opcode::StrIndex => {
            reveal_strlit("StrIndex"); reveal_strlit("StrIndex      r");
            assert(t.subrange(0, 8) =~= "StrIndex"@);
        },
        Opcode::StrConcat => {
            reveal_strlit("StrConcat"); reveal_strlit("StrConcat     r");
            assert(t.subrange(0, 9) =~= "StrConcat"@);
        },
        Opcode::StrSlice => {
            reveal_strlit("StrSlice"); reveal_strlit("StrSlice      r");
            assert(t.subrange(0, 8) =~= "StrSlice"@);
        },
        Opcode::StrEq => {
            reveal_strlit("StrEq"); reveal_strlit("StrEq         r");
            assert(t.subrange(0, 5) =~= "StrEq"@);
        },
        Opcode::StrNe => {
            reveal_strlit("StrNe"); reveal_strlit("StrNe         r");
            assert(t.subrange(0, 5) =~= "StrNe"@);
        },
        Opcode::StrLt => {
            reveal_strlit("StrLt"); reveal_strlit("StrLt         r");
            assert(t.subrange(0, 5) =~= "StrLt"@);
        },
        Opcode::StrLe => {
            reveal_strlit("StrLe"); reveal_strlit("StrLe         r");
            assert(t.subrange(0, 5) =~= "StrLe"@);
        },
        Opcode::StrGt => {
            reveal_strlit("StrGt"); reveal_strlit("StrGt         r");
            assert(t.subrange(0, 5) =~= "StrGt"@);
        },
        Opcode::StrGe => {
            reveal_strlit("StrGe"); reveal_strlit("StrGe         r");
            assert(t.subrange(0, 5) =~= "StrGe"@);
        },
        Opcode::StrDecodeRune => {
            reveal_strlit("StrDecodeRune"); reveal_strlit("StrDecodeRune r");
            assert(t.subrange(0, 13) =~= "StrDecodeRune"@);
        },
        _ => {},
    }
}

#[verifier::spinoff_prover]
proof fn lemma_names_7(i: Instruction)
    requires
        i.opcode is ArrayNew || i.opcode is ArrayGet || i.opcode is ArraySet || i.opcode is ArrayAddr || i.opcode is SliceNew || i.opcode is SliceGet || i.opcode is SliceSet || i.opcode is SliceLen || i.opcode is SliceCap || i.opcode is SliceSlice || i.opcode is SliceAppend,
    ensures
        starts_with_name(instruction_text(i), opcode_name(i.opcode)),
        instruction_text(i).len() == opcode_name(i.opcode).len() ==> i.opcode is Return,
{
    let t = instruction_text(i);
    match i.opcode {
        Opcode::ArrayNew => {
            reveal_strlit("ArrayNew"); reveal_strlit("ArrayNew      r");
            assert(t.subrange(0, 8) =~= "ArrayNew"@);
        },
        Opcode::ArrayGet => {
            reveal_strlit("ArrayGet"); reveal_strlit("ArrayGet      r");
            assert(t.subrange(0, 8) =~= "ArrayGet"@);
        },
        Opcode::ArraySet => {
            reveal_strlit("ArraySet"); reveal_strlit("ArraySet      r");
            assert(t.subrange(0, 8) =~= "ArraySet"@);
        },
        Opcode::ArrayAddr => {
            reveal_strlit("ArrayAddr"); reveal_strlit("ArrayAddr     r");
            assert(t.subrange(0, 9) =~= "ArrayAddr"@);
        },
        Opcode::SliceNew => {
            reveal_strlit("SliceNew"); reveal_strlit("SliceNew      r");
            assert(t.subrange(0, 8) =~= "SliceNew"@);
        },
        Opcode::SliceGet => {
            reveal_strlit("SliceGet"); reveal_strlit("SliceGet      r");
            assert(t.subrange(0, 8) =~= "SliceGet"@);
        },
        Opcode::SliceSet => {
            reveal_strlit("SliceSet"); reveal_strlit("SliceSet      r");
            assert(t.subrange(0, 8) =~= "SliceSet"@);
        },
        Opcode::SliceLen => {
            reveal_strlit("SliceLen"); reveal_strlit("SliceLen      r");
            assert(t.subrange(0, 8) =~= "SliceLen"@);
        },
        Opcode::SliceCap => {
            reveal_strlit("SliceCap"); reveal_strlit("SliceCap      r");
            assert(t.subrange(0, 8) =~= "SliceCap"@);
        },
        Opcode::SliceSlice => {
            reveal_strlit("SliceSlice"); reveal_strlit("SliceSlice    r");
            assert(t.subrange(0, 10) =~= "SliceSlice"@);
        },
        Opcode::SliceAppend => {
            reveal_strlit("SliceAppend"); reveal_strlit("SliceAppend   r");
            assert(t.subrange(0, 11) =~= "SliceAppend"@);
        },
        _ => {},
    }
}

#[verifier::spinoff_prover]
proof fn lemma_names_8(i: Instruction)
    requires
        i.opcode is SliceAddr || i.opcode is MapNew || i.opcode is MapGet || i.opcode is MapSet || i.opcode is MapDelete || i.opcode is MapLen || i.opcode is MapIterInit || i.opcode is MapIterNext || i.opcode is ChanNew || i.opcode is ChanSend || i.opcode is ChanRecv,
    ensures
        starts_with_name(instruction_text(i), opcode_name(i.opcode)),
        instruction_text(i).len() == opcode_name(i.opcode).len() ==> i.opcode is Return,
{
    let t = instruction_text(i);
    match i.opcode {
        Opcode::SliceAddr => {
            reveal_strlit("SliceAddr"); reveal_strlit("SliceAddr     r");
            assert(t.subrange(0, 9) =~= "SliceAddr"@);
        },
        Opcode::MapNew => {
            reveal_strlit("MapNew"); reveal_strlit("MapNew        r");
            assert(t.subrange(0, 6) =~= "MapNew"@);
        },
        Opcode::MapGet => {
            reveal_strlit("MapGet"); reveal_strlit("MapGet        r");
            assert(t.subrange(0, 6) =~= "MapGet"@);
        },
        Opcode::MapSet => {
            reveal_strlit("MapSet"); reveal_strlit("MapSet        r");
            assert(t.subrange(0, 6) =~= "MapSet"@);
        },
        Opcode::MapDelete => {
            reveal_strlit("MapDelete"); reveal_strlit("MapDelete     r");
            assert(t.subrange(0, 9) =~= "MapDelete"@);
        },
        Opcode::MapLen => {
            reveal_strlit("MapLen"); reveal_strlit("MapLen        r");
            assert(t.subrange(0, 6) =~= "MapLen"@);
        },
        Opcode::MapIterInit => {
            reveal_strlit("MapIterInit"); reveal_strlit("MapIterInit   r");
            assert(t.subrange(0, 11) =~= "MapIterInit"@);
        },
        Opcode::MapIterNext => {
            reveal_strlit("MapIterNext"); reveal_strlit("MapIterNext   r");
            assert(t.subrange(0, 11) =~= "MapIterNext"@);
        },
        Opcode::ChanNew => {
            reveal_strlit("ChanNew"); reveal_strlit("ChanNew       r");
            assert(t.subrange(0, 7) =~= "ChanNew"@);
        },
        Opcode::ChanSend => {
            reveal_strlit("ChanSend"); reveal_strlit("ChanSend      r");
            assert(t.subrange(0, 8) =~= "ChanSend"@);
        },
        Opcode::ChanRecv => {
            reveal_strlit("ChanRecv"); reveal_strlit("ChanRecv      r");
            assert(t.subrange(0, 8) =~= "ChanRecv"@);
        },
        _ => {},
    }
}

#[verifier::spinoff_prover]
proof fn lemma_names_9(i: Instruction)
    requires
        i.opcode is ChanClose || i.opcode is ChanLen || i.opcode is ChanCap || i.opcode is SelectBegin || i.opcode is SelectSend || i.opcode is SelectRecv || i.opcode is SelectExec || i.opcode is ClosureNew || i.opcode is ClosureGet || i.opcode is GoStart || i.opcode is DeferPush,
    ensures
        starts_with_name(instruction_text(i), opcode_name(i.opcode)),
        instruction_text(i).len() == opcode_name(i.opcode).len() ==> i.opcode is Return,
{
    let t = instruction_text(i);
    match i.opcode {
        Opcode::ChanClose => {
            reveal_strlit("ChanClose"); reveal_strlit("ChanClose     r");
            assert(t.subrange(0, 9) =~= "ChanClose"@);
        },
        Opcode::ChanLen => {
            reveal_strlit("ChanLen"); reveal_strlit("ChanLen       r");
            assert(t.subrange(0, 7) =~= "ChanLen"@);
        },
        Opcode::ChanCap => {
            reveal_strlit("ChanCap"); reveal_strlit("ChanCap       r");
            assert(t.subrange(0, 7) =~= "ChanCap"@);
        },
        Opcode::SelectBegin => {
            reveal_strlit("SelectBegin"); reveal_strlit("SelectBegin   r");
            assert(t.subrange(0, 11) =~= "SelectBegin"@);
        },
        Opcode::SelectSend => {
            reveal_strlit("SelectSend"); reveal_strlit("SelectSend    r");
            assert(t.subrange(0, 10) =~= "SelectSend"@);
        },
        Opcode::SelectRecv => {
            reveal_strlit("SelectRecv"); reveal_strlit("SelectRecv    r");
            assert(t.subrange(0, 10) =~= "SelectRecv"@);
        },
        Opcode::SelectExec => {
            reveal_strlit("SelectExec"); reveal_strlit("SelectExec    r");
            assert(t.subrange(0, 10) =~= "SelectExec"@);
        },
        Opcode::ClosureNew => {
            reveal_strlit("ClosureNew"); reveal_strlit("ClosureNew    r");
            assert(t.subrange(0, 10) =~= "ClosureNew"@);
        },
        Opcode::ClosureGet => {
            reveal_strlit("ClosureGet"); reveal_strlit("ClosureGet    r");
            assert(t.subrange(0, 10) =~= "ClosureGet"@);
        },
        Opcode::GoStart => {
            reveal_strlit("GoStart"); reveal_strlit("GoStart       closure=r"); reveal_strlit("GoStart       func_");
            assert(t.subrange(0, 7) =~= "GoStart"@);
        },
        Opcode::DeferPush => {
            reveal_strlit("DeferPush"); reveal_strlit("DeferPush     closure=r"); reveal_strlit("DeferPush     func_");
            assert(t.subrange(0, 9) =~= "DeferPush"@);
        },
        _ => {},
    }
}

#[verifier::spinoff_prover]
proof fn lemma_names_10(i: Instruction)
    requires
        i.opcode is ErrDeferPush || i.opcode is Panic || i.opcode is Recover || i.opcode is IfaceAssign || i.opcode is IfaceAssert || i.opcode is IfaceEq || i.opcode is ConvI2F || i.opcode is ConvF2I || i.opcode is ConvF64F32 || i.opcode is ConvF32F64 || i.opcode is Trunc,
    ensures
        starts_with_name(instruction_text(i), opcode_name(i.opcode)),
        instruction_text(i).len() == opcode_name(i.opcode).len() ==> i.opcode is Return,
{
    let t = instruction_text(i);
    match i.opcode {
        Opcode::ErrDeferPush => {
            reveal_strlit("ErrDeferPush"); reveal_strlit("ErrDeferPush  closure=r"); reveal_strlit("ErrDeferPush  func_");
            assert(t.subrange(0, 12) =~= "ErrDeferPush"@);
        },
        Opcode::Panic => {
            reveal_strlit("Panic"); reveal_strlit("Panic         r");
            assert(t.subrange(0, 5) =~= "Panic"@);
        },
        Opcode::Recover => {
            reveal_strlit("Recover"); reveal_strlit("Recover       r");
            assert(t.subrange(0, 7) =~= "Recover"@);
        },
        Opcode::IfaceAssign => {
            reveal_strlit("IfaceAssign"); reveal_strlit("IfaceAssign   r");
            assert(t.subrange(0, 11) =~= "IfaceAssign"@);
        },
        Opcode::IfaceAssert => {
            reveal_strlit("IfaceAssert"); reveal_strlit("IfaceAssert   r");
            assert(t.subrange(0, 11) =~= "IfaceAssert"@);
        },
        Opcode::IfaceEq => {
            reveal_strlit("IfaceEq"); reveal_strlit("IfaceEq       r");
            assert(t.subrange(0, 7) =~= "IfaceEq"@);
        },
        Opcode::ConvI2F => {
            reveal_strlit("ConvI2F"); reveal_strlit("ConvI2F       r");
            assert(t.subrange(0, 7) =~= "ConvI2F"@);
        },
        Opcode::ConvF2I => {
            reveal_strlit("ConvF2I"); reveal_strlit("ConvF2I       r");
            assert(t.subrange(0, 7) =~= "ConvF2I"@);
        },
        Opcode::ConvF64F32 => {
            reveal_strlit("ConvF64F32"); reveal_strlit("ConvF64F32    r");
            assert(t.subrange(0, 10) =~= "ConvF64F32"@);
        },
        Opcode::ConvF32F64 => {
            reveal_strlit("ConvF32F64"); reveal_strlit("ConvF32F64    r");
            assert(t.subrange(0, 10) =~= "ConvF32F64"@);
        },
        Opcode::Trunc => {
            reveal_strlit("Trunc"); reveal_strlit("Trunc         r");
            assert(t.subrange(0, 5) =~= "Trunc"@);
        },
        _ => {},
    }
}

#[verifier::spinoff_prover]
proof fn lemma_names_11(i: Instruction)
    requires
        i.opcode is IndexCheck || i.opcode is IslandNew || i.opcode is PortNew || i.opcode is PortSend || i.opcode is PortRecv || i.opcode is PortClose || i.opcode is PortLen || i.opcode is PortCap || i.opcode is GoIsland || i.opcode is ForLoop || i.opcode is Invalid,
    ensures
        starts_with_name(instruction_text(i), opcode_name(i.opcode)),
        instruction_text(i).len() == opcode_name(i.opcode).len() ==> i.opcode is Return,
{
    let t = instruction_text(i);
    match i.opcode {
        Opcode::IndexCheck => {
            reveal_strlit("IndexCheck"); reveal_strlit("IndexCheck    r");
            assert(t.subrange(0, 10) =~= "IndexCheck"@);
        },
        Opcode::IslandNew => {
            reveal_strlit("IslandNew"); reveal_strlit("IslandNew     r");
            assert(t.subrange(0, 9) =~= "IslandNew"@);
        },
        Opcode::PortNew => {
            reveal_strlit("PortNew"); reveal_strlit("PortNew       r");
            assert(t.subrange(0, 7) =~= "PortNew"@);
        },
        Opcode::PortSend => {
            reveal_strlit("PortSend"); reveal_strlit("PortSend      r");
            assert(t.subrange(0, 8) =~= "PortSend"@);
        },
        Opcode::PortRecv => {
            reveal_strlit("PortRecv"); reveal_strlit("PortRecv      r");
            assert(t.subrange(0, 8) =~= "PortRecv"@);
        },
        Opcode::PortClose => {
            reveal_strlit("PortClose"); reveal_strlit("PortClose     r");
            assert(t.subrange(0, 9) =~= "PortClose"@);
        },
        Opcode::PortLen => {
            reveal_strlit("PortLen"); reveal_strlit("PortLen       r");
            assert(t.subrange(0, 7) =~= "PortLen"@);
        },
        Opcode::PortCap => {
            reveal_strlit("PortCap"); reveal_strlit("PortCap       r");
            assert(t.subrange(0, 7) =~= "PortCap"@);
        },
        Opcode::GoIsland => {
            reveal_strlit("GoIsland"); reveal_strlit("GoIsland      r");
            assert(t.subrange(0, 8) =~= "GoIsland"@);
        },
        Opcode::ForLoop => {
            reveal_strlit("ForLoop"); reveal_strlit("ForLoop       r");
            assert(t.subrange(0, 7) =~= "ForLoop"@);
        },
        Opcode::Invalid => {
            reveal_strlit("Invalid"); reveal_strlit("Invalid       op=");
            assert(t.subrange(0, 7) =~= "Invalid"@);
        },
        _ => {},
    }
}

/// A section is its title, its body and a blank line when its table is
/// non-empty, and nothing at all otherwise.
pub proof fn lemma_section_layout(nonempty: bool, title: Seq<char>, body: Seq<char>)
    ensures
        nonempty ==> section(nonempty, title, body).subrange(0, title.len() as int) == title,
        nonempty ==> section(nonempty, title, body).len() > title.len() + body.len(),
        !nonempty ==> section(nonempty, title, body) == Seq::<char>::empty(),
{
    reveal_strlit("\n");
    if nonempty {
        assert(section(nonempty, title, body).subrange(0, title.len() as int) =~= title);
    }
}

/// A module's text begins with its header.
pub proof fn lemma_module_text_starts_with_header(m: Module)
    ensures
        module_text(m).len() >= module_header(m).len(),
        module_text(m).subrange(0, module_header(m).len() as int) == module_header(m),
{
    assert(module_text(m).subrange(0, module_header(m).len() as int) =~= module_header(m));
}

/// The function entries come one per function, in order: the entries of
/// the first `n + 1` functions are those of the first `n`, then the entry of
/// function `n`.
pub proof fn lemma_function_entries_in_order(xs: Seq<FunctionDef>, n: nat)
    requires
        n < xs.len(),
    ensures
        function_entries(xs, n + 1) == function_entries(xs, n) + function_entry(n, xs[n as int]),
{
}

/// `s` holds no line break.
pub open spec fn no_newline(s: Seq<char>) -> bool {
    forall|k: int| 0 <= k < s.len() ==> s[k] != '\n'
}

/// Joining two texts without line breaks gives none.
pub broadcast proof fn lemma_concat_no_newline(a: Seq<char>, b: Seq<char>)
    requires
        no_newline(a),
        no_newline(b),
    ensures
        #[trigger] no_newline(a + b),
{
    assert forall|k: int| 0 <= k < (a + b).len() implies (a + b)[k] != '\n' by {
        if k < a.len() {
            assert((a + b)[k] == a[k]);
        } else {
            assert((a + b)[k] == b[k - a.len()]);
        }
    }
}

/// A decimal rendering holds only digits, so no line break.
pub broadcast proof fn lemma_dec_no_newline(n: nat)
    ensures
        #[trigger] no_newline(dec(n)),
    decreases n,
{
    if n >= 10 {
        lemma_dec_no_newline(n / 10);
        lemma_concat_no_newline(dec(n / 10), seq![digit_char(n % 10)]);
    }
}

/// A signed decimal rendering holds no line break.
pub broadcast proof fn lemma_sdec_no_newline(i: int)
    ensures
        #[trigger] no_newline(sdec(i)),
{
    if i < 0 {
        lemma_dec_no_newline((-i) as nat);
        lemma_concat_no_newline(seq!['-'], dec((-i) as nat));
    } else {
        lemma_dec_no_newline(i as nat);
    }
}

/// The type name of a `Trunc` holds no line break.
pub proof fn lemma_trunc_type_no_newline(bytes: u8, signed: bool)
    ensures
        no_newline(trunc_type(bytes, signed)),
{
    reveal_strlit("i8");
    reveal_strlit("i16");
    reveal_strlit("i32");
    reveal_strlit("u8");
    reveal_strlit("u16");
    reveal_strlit("u32");
    reveal_strlit("?");
}

/// The text of an instruction is a single line: it holds no line break.
pub proof fn lemma_instruction_text_is_one_line(i: Instruction)
    ensures
        no_newline(instruction_text(i)),
{
    match i.opcode {
        Opcode::Hint | Opcode::LoadInt | Opcode::LoadConst | Opcode::Copy | Opcode::CopyN | Opcode::SlotGet | Opcode::SlotSet | Opcode::SlotGetN | Opcode::SlotSetN | Opcode::GlobalGet | Opcode::GlobalGetN => lemma_line_0(i),
        Opcode::GlobalSet | Opcode::GlobalSetN | Opcode::PtrNew | Opcode::PtrGet | Opcode::PtrSet | Opcode::PtrGetN | Opcode::PtrSetN | Opcode::PtrAdd | Opcode::AddI | Opcode::SubI | Opcode::MulI => lemma_line_1(i),
        Opcode::DivI | Opcode::DivU | Opcode::ModI | Opcode::ModU | Opcode::NegI | Opcode::AddF | Opcode::SubF | Opcode::MulF | Opcode::DivF | Opcode::NegF | Opcode::EqI => lemma_line_2(i),
        Opcode::NeI | Opcode::LtI | Opcode::LeI | Opcode::GtI | Opcode::GeI | Opcode::LtU | Opcode::LeU | Opcode::GtU | Opcode::GeU | Opcode::EqF | Opcode::NeF => lemma_line_3(i),
        Opcode::LtF | Opcode::LeF | Opcode::GtF | Opcode::GeF | Opcode::And | Opcode::Or | Opcode::Xor | Opcode::AndNot | Opcode::Not | Opcode::Shl | Opcode::ShrS => lemma_line_4(i),
        Opcode::ShrU | Opcode::BoolNot | Opcode::Jump | Opcode::JumpIf | Opcode::JumpIfNot | Opcode::Call | Opcode::CallExtern | Opcode::CallClosure | Opcode::CallIface | Opcode::Return | Opcode::StrNew => lemma_line_5(i),
        Opcode::StrLen | Opcode::StrIndex | Opcode::StrConcat | Opcode::StrSlice | Opcode::StrEq | Opcode::StrNe | Opcode::StrLt | Opcode::StrLe | Opcode::StrGt | Opcode::StrGe | Opcode::StrDecodeRune => lemma_line_6(i),
        Opcode::ArrayNew | Opcode::ArrayGet | Opcode::ArraySet | Opcode::ArrayAddr | Opcode::SliceNew | Opcode::SliceGet | Opcode::SliceSet | Opcode::SliceLen | Opcode::SliceCap | Opcode::SliceSlice | Opcode::SliceAppend => lemma_line_7(i),
        Opcode::SliceAddr | Opcode::MapNew | Opcode::MapGet | Opcode::MapSet | Opcode::MapDelete | Opcode::MapLen | Opcode::MapIterInit | Opcode::MapIterNext | Opcode::ChanNew | Opcode::ChanSend | Opcode::ChanRecv => lemma_line_8(i),
        Opcode::ChanClose | Opcode::ChanLen | Opcode::ChanCap | Opcode::SelectBegin | Opcode::SelectSend | Opcode::SelectRecv | Opcode::SelectExec | Opcode::ClosureNew | Opcode::ClosureGet | Opcode::GoStart | Opcode::DeferPush => lemma_line_9(i),
        Opcode::ErrDeferPush | Opcode::Panic | Opcode::Recover | Opcode::IfaceAssign | Opcode::IfaceAssert | Opcode::IfaceEq | Opcode::ConvI2F | Opcode::ConvF2I | Opcode::ConvF64F32 | Opcode::ConvF32F64 | Opcode::Trunc => lemma_line_10(i),
        Opcode::IndexCheck | Opcode::IslandNew | Opcode::PortNew | Opcode::PortSend | Opcode::PortRecv | Opcode::PortClose | Opcode::PortLen | Opcode::PortCap | Opcode::GoIsland | Opcode::ForLoop | Opcode::Invalid => lemma_line_11(i),
    }
}

#[verifier::spinoff_prover]
proof fn lemma_line_0(i: Instruction)
    requires
        i.opcode is Hint || i.opcode is LoadInt || i.opcode is LoadConst || i.opcode is Copy || i.opcode is CopyN || i.opcode is SlotGet || i.opcode is SlotSet || i.opcode is SlotGetN || i.opcode is SlotSetN || i.opcode is GlobalGet || i.opcode is GlobalGetN,
    ensures
        no_newline(instruction_text(i)),
{
    broadcast use lemma_concat_no_newline, lemma_dec_no_newline, lemma_sdec_no_newline;
    match i.opcode {
        Opcode::Hint => {
            reveal_strlit("Hint          flags="); assert(no_newline("Hint          flags="@));
            reveal_strlit(", a="); assert(no_newline(", a="@));
            reveal_strlit(", bc="); assert(no_newline(", bc="@));
        },
        Opcode::LoadInt => {
            reveal_strlit("LoadInt       r"); assert(no_newline("LoadInt       r"@));
            reveal_strlit(", "); assert(no_newline(", "@));
        },
        Opcode::LoadConst => {
            reveal_strlit("LoadConst     r"); assert(no_newline("LoadConst     r"@));
            reveal_strlit(", const_"); assert(no_newline(", const_"@));
        },
        Opcode::Copy => {
            reveal_strlit("Copy          r"); assert(no_newline("Copy          r"@));
            reveal_strlit(", r"); assert(no_newline(", r"@));
        },
        Opcode::CopyN => {
            reveal_strlit("CopyN         r"); assert(no_newline("CopyN         r"@));
            reveal_strlit(", r"); assert(no_newline(", r"@));
            reveal_strlit(", n="); assert(no_newline(", n="@));
        },
        Opcode::SlotGet => {
            reveal_strlit("SlotGet       r"); assert(no_newline("SlotGet       r"@));
            reveal_strlit(", r"); assert(no_newline(", r"@));
            reveal_strlit("[r"); assert(no_newline("[r"@));
            reveal_strlit("]"); assert(no_newline("]"@));
        },
        Opcode::SlotSet => {
            reveal_strlit("SlotSet       r"); assert(no_newline("SlotSet       r"@));
            reveal_strlit("[r"); assert(no_newline("[r"@));
            reveal_strlit("], r"); assert(no_newline("], r"@));
        },
        Opcode::SlotGetN => {
            reveal_strlit("SlotGetN      r"); assert(no_newline("SlotGetN      r"@));
            reveal_strlit(", r"); assert(no_newline(", r"@));
            reveal_strlit("[r"); assert(no_newline("[r"@));
            reveal_strlit("], n="); assert(no_newline("], n="@));
        },
        Opcode::SlotSetN => {
            reveal_strlit("SlotSetN      r"); assert(no_newline("SlotSetN      r"@));
            reveal_strlit("[r"); assert(no_newline("[r"@));
            reveal_strlit("], r"); assert(no_newline("], r"@));
            reveal_strlit(", n="); assert(no_newline(", n="@));
        },
        Opcode::GlobalGet => {
            reveal_strlit("GlobalGet     r"); assert(no_newline("GlobalGet     r"@));
            reveal_strlit(", global_"); assert(no_newline(", global_"@));
        },
        Opcode::GlobalGetN => {
            reveal_strlit("GlobalGetN    r"); assert(no_newline("GlobalGetN    r"@));
            reveal_strlit(", global_"); assert(no_newline(", global_"@));
            reveal_strlit(", n="); assert(no_newline(", n="@));
        },
        _ => {},
    }
}

#[verifier::spinoff_prover]
proof fn lemma_line_1(i: Instruction)
    requires
        i.opcode is GlobalSet || i.opcode is GlobalSetN || i.opcode is PtrNew || i.opcode is PtrGet || i.opcode is PtrSet || i.opcode is PtrGetN || i.opcode is PtrSetN || i.opcode is PtrAdd || i.opcode is AddI || i.opcode is SubI || i.opcode is MulI,
    ensures
        no_newline(instruction_text(i)),
{
    broadcast use lemma_concat_no_newline, lemma_dec_no_newline, lemma_sdec_no_newline;
    match i.opcode {
        Opcode::GlobalSet => {
            reveal_strlit("GlobalSet     global_"); assert(no_newline("GlobalSet     global_"@));
            reveal_strlit(", r"); assert(no_newline(", r"@));
        },
        Opcode::GlobalSetN => {
            reveal_strlit("GlobalSetN    global_"); assert(no_newline("GlobalSetN    global_"@));
            reveal_strlit(", r"); assert(no_newline(", r"@));
            reveal_strlit(", n="); assert(no_newline(", n="@));
        },
        Opcode::PtrNew => {
            reveal_strlit("PtrNew        r"); assert(no_newline("PtrNew        r"@));
            reveal_strlit(", meta=r"); assert(no_newline(", meta=r"@));
            reveal_strlit(", slots="); assert(no_newline(", slots="@));
        },
        Opcode::PtrGet => {
            reveal_strlit("PtrGet        r"); assert(no_newline("PtrGet        r"@));
            reveal_strlit(", r"); assert(no_newline(", r"@));
            reveal_strlit("["); assert(no_newline("["@));
            reveal_strlit("]"); assert(no_newline("]"@));
        },
        Opcode::PtrSet => {
            reveal_strlit("PtrSet        r"); assert(no_newline("PtrSet        r"@));
            reveal_strlit("["); assert(no_newline("["@));
            reveal_strlit("], r"); assert(no_newline("], r"@));
        },
        Opcode::PtrGetN => {
            reveal_strlit("PtrGetN       r"); assert(no_newline("PtrGetN       r"@));
            reveal_strlit(", r"); assert(no_newline(", r"@));
            reveal_strlit("["); assert(no_newline("["@));
            reveal_strlit("], n="); assert(no_newline("], n="@));
        },
        Opcode::PtrSetN => {
            reveal_strlit("PtrSetN       r"); assert(no_newline("PtrSetN       r"@));
            reveal_strlit("["); assert(no_newline("["@));
            reveal_strlit("], r"); assert(no_newline("], r"@));
            reveal_strlit(", n="); assert(no_newline(", n="@));
        },
        Opcode::PtrAdd => {
            reveal_strlit("PtrAdd        r"); assert(no_newline("PtrAdd        r"@));
            reveal_strlit(", r"); assert(no_newline(", r"@));
        },
        Opcode::AddI => {
            reveal_strlit("AddI          r"); assert(no_newline("AddI          r"@));
            reveal_strlit(", r"); assert(no_newline(", r"@));
        },
        Opcode::SubI => {
            reveal_strlit("SubI          r"); assert(no_newline("SubI          r"@));
            reveal_strlit(", r"); assert(no_newline(", r"@));
        },
        Opcode::MulI => {
            reveal_strlit("MulI          r"); assert(no_newline("MulI          r"@));
            reveal_strlit(", r"); assert(no_newline(", r"@));
        },
        _ => {},
    }
}

#[verifier::spinoff_prover]
proof fn lemma_line_2(i: Instruction)
    requires
        i.opcode is DivI || i.opcode is DivU || i.opcode is ModI || i.opcode is ModU || i.opcode is NegI || i.opcode is AddF || i.opcode is SubF || i.opcode is MulF || i.opcode is DivF || i.opcode is NegF || i.opcode is EqI,
    ensures
        no_newline(instruction_text(i)),
{
    broadcast use lemma_concat_no_newline, lemma_dec_no_newline, lemma_sdec_no_newline;
    match i.opcode {
        Opcode::DivI => {
            reveal_strlit("DivI          r"); assert(no_newline("DivI          r"@));
            reveal_strlit(", r"); assert(no_newline(", r"@));
        },
        Opcode::DivU => {
            reveal_strlit("DivU          r"); assert(no_newline("DivU          r"@));
            reveal_strlit(", r"); assert(no_newline(", r"@));
        },
        Opcode::ModI => {
            reveal_strlit("ModI          r"); assert(no_newline("ModI          r"@));
            reveal_strlit(", r"); assert(no_newline(", r"@));
        },
        Opcode::ModU => {
            reveal_strlit("ModU          r"); assert(no_newline("ModU          r"@));
            reveal_strlit(", r"); assert(no_newline(", r"@));
        },
        Opcode::NegI => {
            reveal_strlit("NegI          r"); assert(no_newline("NegI          r"@));
            reveal_strlit(", r"); assert(no_newline(", r"@));
        },
        Opcode::AddF => {
            reveal_strlit("AddF          r"); assert(no_newline("AddF          r"@));
            reveal_strlit(", r"); assert(no_newline(", r"@));
        },
        Opcode::SubF => {
            reveal_strlit("SubF          r"); assert(no_newline("SubF          r"@));
            reveal_strlit(", r"); assert(no_newline(", r"@));
        },
        Opcode::MulF => {
            reveal_strlit("MulF          r"); assert(no_newline("MulF          r"@));
            reveal_strlit(", r"); assert(no_newline(", r"@));
        },
        Opcode::DivF => {
            reveal_strlit("DivF          r"); assert(no_newline("DivF          r"@));
            reveal_strlit(", r"); assert(no_newline(", r"@));
        },
        Opcode::NegF => {
            reveal_strlit("NegF          r"); assert(no_newline("NegF          r"@));
            reveal_strlit(", r"); assert(no_newline(", r"@));
        },
        Opcode::EqI => {
            reveal_strlit("EqI           r"); assert(no_newline("EqI           r"@));
            reveal_strlit(", r"); assert(no_newline(", r"@));
        },
        _ => {},
    }
}

#[verifier::spinoff_prover]
proof fn lemma_line_3(i: Instruction)
    requires
        i.opcode is NeI || i.opcode is LtI || i.opcode is LeI || i.opcode is GtI || i.opcode is GeI || i.opcode is LtU || i.opcode is LeU || i.opcode is GtU || i.opcode is GeU || i.opcode is EqF || i.opcode is NeF,
    ensures
        no_newline(instruction_text(i)),
{
    broadcast use lemma_concat_no_newline, lemma_dec_no_newline, lemma_sdec_no_newline;
    match i.opcode {
        Opcode::NeI => {
            reveal_strlit("NeI           r"); assert(no_newline("NeI           r"@));
            reveal_strlit(", r"); assert(no_newline(", r"@));
        },
        Opcode::LtI => {
            reveal_strlit("LtI           r"); assert(no_newline("LtI           r"@));
            reveal_strlit(", r"); assert(no_newline(", r"@));
        },
        Opcode::LeI => {
            reveal_strlit("LeI           r"); assert(no_newline("LeI           r"@));
            reveal_strlit(", r"); assert(no_newline(", r"@));
        },
        Opcode::GtI => {
            reveal_strlit("GtI           r"); assert(no_newline("GtI           r"@));
            reveal_strlit(", r"); assert(no_newline(", r"@));
        },
        Opcode::GeI => {
            reveal_strlit("GeI           r"); assert(no_newline("GeI           r"@));
            reveal_strlit(", r"); assert(no_newline(", r"@));
        },
        Opcode::LtU => {
            reveal_strlit("LtU           r"); assert(no_newline("LtU           r"@));
            reveal_strlit(", r"); assert(no_newline(", r"@));
        },
        Opcode::LeU => {
            reveal_strlit("LeU           r"); assert(no_newline("LeU           r"@));
            reveal_strlit(", r"); assert(no_newline(", r"@));
        },
        Opcode::GtU => {
            reveal_strlit("GtU           r"); assert(no_newline("GtU           r"@));
            reveal_strlit(", r"); assert(no_newline(", r"@));
        },
        Opcode::GeU => {
            reveal_strlit("GeU           r"); assert(no_newline("GeU           r"@));
            reveal_strlit(", r"); assert(no_newline(", r"@));
        },
        Opcode::EqF => {
            reveal_strlit("EqF           r"); assert(no_newline("EqF           r"@));
            reveal_strlit(", r"); assert(no_newline(", r"@));
        },
        Opcode::NeF => {
            reveal_strlit("NeF           r"); assert(no_newline("NeF           r"@));
            reveal_strlit(", r"); assert(no_newline(", r"@));
        },
        _ => {},
    }
}

#[verifier::spinoff_prover]
proof fn lemma_line_4(i: Instruction)
    requires
        i.opcode is LtF || i.opcode is LeF || i.opcode is GtF || i.opcode is GeF || i.opcode is And || i.opcode is Or || i.opcode is Xor || i.opcode is AndNot || i.opcode is Not || i.opcode is Shl || i.opcode is ShrS,
    ensures
        no_newline(instruction_text(i)),
{
    broadcast use lemma_concat_no_newline, lemma_dec_no_newline, lemma_sdec_no_newline;
    match i.opcode {
        Opcode::LtF => {
            reveal_strlit("LtF           r"); assert(no_newline("LtF           r"@));
            reveal_strlit(", r"); assert(no_newline(", r"@));
        },
        Opcode::LeF => {
            reveal_strlit("LeF           r"); assert(no_newline("LeF           r"@));
            reveal_strlit(", r"); assert(no_newline(", r"@));
        },
        Opcode::GtF => {
            reveal_strlit("GtF           r"); assert(no_newline("GtF           r"@));
            reveal_strlit(", r"); assert(no_newline(", r"@));
        },
        Opcode::GeF => {
            reveal_strlit("GeF           r"); assert(no_newline("GeF           r"@));
            reveal_strlit(", r"); assert(no_newline(", r"@));
        },
        Opcode::And => {
            reveal_strlit("And           r"); assert(no_newline("And           r"@));
            reveal_strlit(", r"); assert(no_newline(", r"@));
        },
        Opcode::Or => {
            reveal_strlit("Or            r"); assert(no_newline("Or            r"@));
            reveal_strlit(", r"); assert(no_newline(", r"@));
        },
        Opcode::Xor => {
            reveal_strlit("Xor           r"); assert(no_newline("Xor           r"@));
            reveal_strlit(", r"); assert(no_newline(", r"@));
        },
        Opcode::AndNot => {
            reveal_strlit("AndNot        r"); assert(no_newline("AndNot        r"@));
            reveal_strlit(", r"); assert(no_newline(", r"@));
        },
        Opcode::Not => {
            reveal_strlit("Not           r"); assert(no_newline("Not           r"@));
            reveal_strlit(", r"); assert(no_newline(", r"@));
        },
        Opcode::Shl => {
            reveal_strlit("Shl           r"); assert(no_newline("Shl           r"@));
            reveal_strlit(", r"); assert(no_newline(", r"@));
        },
        Opcode::ShrS => {
            reveal_strlit("ShrS          r"); assert(no_newline("ShrS          r"@));
            reveal_strlit(", r"); assert(no_newline(", r"@));
        },
        _ => {},
    }
}

#[verifier::spinoff_prover]
proof fn lemma_line_5(i: Instruction)
    requires
        i.opcode is ShrU || i.opcode is BoolNot || i.opcode is Jump || i.opcode is JumpIf || i.opcode is JumpIfNot || i.opcode is Call || i.opcode is CallExtern || i.opcode is CallClosure || i.opcode is CallIface || i.opcode is Return || i.opcode is StrNew,
    ensures
        no_newline(instruction_text(i)),
{
    broadcast use lemma_concat_no_newline, lemma_dec_no_newline, lemma_sdec_no_newline;
    match i.opcode {
        Opcode::ShrU => {
            reveal_strlit("ShrU          r"); assert(no_newline("ShrU          r"@));
            reveal_strlit(", r"); assert(no_newline(", r"@));
        },
        Opcode::BoolNot => {
            reveal_strlit("BoolNot       r"); assert(no_newline("BoolNot       r"@));
            reveal_strlit(", r"); assert(no_newline(", r"@));
        },
        Opcode::Jump => {
            reveal_strlit("Jump          pc_"); assert(no_newline("Jump          pc_"@));
        },
        Opcode::JumpIf => {
            reveal_strlit("JumpIf        r"); assert(no_newline("JumpIf        r"@));
            reveal_strlit(", pc_"); assert(no_newline(", pc_"@));
        },
        Opcode::JumpIfNot => {
            reveal_strlit("JumpIfNot     r"); assert(no_newline("JumpIfNot     r"@));
            reveal_strlit(", pc_"); assert(no_newline(", pc_"@));
        },
        Opcode::Call => {
            reveal_strlit("Call          func_"); assert(no_newline("Call          func_"@));
            reveal_strlit(", args=r"); assert(no_newline(", args=r"@));
            reveal_strlit(", arg_slots="); assert(no_newline(", arg_slots="@));
            reveal_strlit(", ret_slots="); assert(no_newline(", ret_slots="@));
        },
        Opcode::CallExtern => {
            reveal_strlit("CallExtern    r"); assert(no_newline("CallExtern    r"@));
            reveal_strlit(", extern_"); assert(no_newline(", extern_"@));
            reveal_strlit(", args="); assert(no_newline(", args="@));
            reveal_strlit(", count="); assert(no_newline(", count="@));
        },
        Opcode::CallClosure => {
            reveal_strlit("CallClosure   r"); assert(no_newline("CallClosure   r"@));
            reveal_strlit(", r"); assert(no_newline(", r"@));
            reveal_strlit(", arg_slots="); assert(no_newline(", arg_slots="@));
            reveal_strlit(", ret_slots="); assert(no_newline(", ret_slots="@));
        },
        Opcode::CallIface => {
            reveal_strlit("CallIface     r"); assert(no_newline("CallIface     r"@));
            reveal_strlit(", r"); assert(no_newline(", r"@));
            reveal_strlit(", method="); assert(no_newline(", method="@));
            reveal_strlit(", arg_slots="); assert(no_newline(", arg_slots="@));
            reveal_strlit(", ret_slots="); assert(no_newline(", ret_slots="@));
        },
        Opcode::Return => {
            reveal_strlit("Return"); assert(no_newline("Return"@));
            reveal_strlit("Return        r"); assert(no_newline("Return        r"@));
            reveal_strlit(", count="); assert(no_newline(", count="@));
        },
        Opcode::StrNew => {
            reveal_strlit("StrNew        r"); assert(no_newline("StrNew        r"@));
            reveal_strlit(", const_"); assert(no_newline(", const_"@));
        },
        _ => {},
    }
}

#[verifier::spinoff_prover]
proof fn lemma_line_6(i: Instruction)
    requires
        i.opcode is StrLen || i.opcode is StrIndex || i.opcode is StrConcat || i.opcode is StrSlice || i.opcode is StrEq || i.opcode is StrNe || i.opcode is StrLt || i.opcode is StrLe || i.opcode is StrGt || i.opcode is StrGe || i.opcode is StrDecodeRune,
    ensures
        no_newline(instruction_text(i)),
{
    broadcast use lemma_concat_no_newline, lemma_dec_no_newline, lemma_sdec_no_newline;
    match i.opcode {
        Opcode::StrLen => {
            reveal_strlit("StrLen        r"); assert(no_newline("StrLen        r"@));
            reveal_strlit(", r"); assert(no_newline(", r"@));
        },
        Opcode::StrIndex => {
            reveal_strlit("StrIndex      r"); assert(no_newline("StrIndex      r"@));
            reveal_strlit(", r"); assert(no_newline(", r"@));
        },
        Opcode::StrConcat => {
            reveal_strlit("StrConcat     r"); assert(no_newline("StrConcat     r"@));
            reveal_strlit(", r"); assert(no_newline(", r"@));
        },
        Opcode::StrSlice => {
            reveal_strlit("StrSlice      r"); assert(no_newline("StrSlice      r"@));
            reveal_strlit(", r"); assert(no_newline(", r"@));
        },
        Opcode::StrEq => {
            reveal_strlit("StrEq         r"); assert(no_newline("StrEq         r"@));
            reveal_strlit(", r"); assert(no_newline(", r"@));
        },
        Opcode::StrNe => {
            reveal_strlit("StrNe         r"); assert(no_newline("StrNe         r"@));
            reveal_strlit(", r"); assert(no_newline(", r"@));
        },
        Opcode::StrLt => {
            reveal_strlit("StrLt         r"); assert(no_newline("StrLt         r"@));
            reveal_strlit(", r"); assert(no_newline(", r"@));
        },
        Opcode::StrLe => {
            reveal_strlit("StrLe         r"); assert(no_newline("StrLe         r"@));
            reveal_strlit(", r"); assert(no_newline(", r"@));
        },
        Opcode::StrGt => {
            reveal_strlit("StrGt         r"); assert(no_newline("StrGt         r"@));
            reveal_strlit(", r"); assert(no_newline(", r"@));
        },
        Opcode::StrGe => {
            reveal_strlit("StrGe         r"); assert(no_newline("StrGe         r"@));
            reveal_strlit(", r"); assert(no_newline(", r"@));
        },
        Opcode::StrDecodeRune => {
            reveal_strlit("StrDecodeRune r"); assert(no_newline("StrDecodeRune r"@));
            reveal_strlit(", r"); assert(no_newline(", r"@));
        },
        _ => {},
    }
}

#[verifier::spinoff_prover]
proof fn lemma_line_7(i: Instruction)
    requires
        i.opcode is ArrayNew || i.opcode is ArrayGet || i.opcode is ArraySet || i.opcode is ArrayAddr || i.opcode is SliceNew || i.opcode is SliceGet || i.opcode is SliceSet || i.opcode is SliceLen || i.opcode is SliceCap || i.opcode is SliceSlice || i.opcode is SliceAppend,
    ensures
        no_newline(instruction_text(i)),
{
    broadcast use lemma_concat_no_newline, lemma_dec_no_newline, lemma_sdec_no_newline;
    match i.opcode {
        Opcode::ArrayNew => {
            reveal_strlit("ArrayNew      r"); assert(no_newline("ArrayNew      r"@));
            reveal_strlit(", meta=r"); assert(no_newline(", meta=r"@));
            reveal_strlit(", len=r"); assert(no_newline(", len=r"@));
            reveal_strlit(", flags="); assert(no_newline(", flags="@));
        },
        Opcode::ArrayGet => {
            reveal_strlit("ArrayGet      r"); assert(no_newline("ArrayGet      r"@));
            reveal_strlit(", r"); assert(no_newline(", r"@));
            reveal_strlit("[r"); assert(no_newline("[r"@));
            reveal_strlit("], flags="); assert(no_newline("], flags="@));
        },
        Opcode::ArraySet => {
            reveal_strlit("ArraySet      r"); assert(no_newline("ArraySet      r"@));
            reveal_strlit("[r"); assert(no_newline("[r"@));
            reveal_strlit("], r"); assert(no_newline("], r"@));
            reveal_strlit(", flags="); assert(no_newline(", flags="@));
        },
        Opcode::ArrayAddr => {
            reveal_strlit("ArrayAddr     r"); assert(no_newline("ArrayAddr     r"@));
            reveal_strlit(", r"); assert(no_newline(", r"@));
            reveal_strlit("[r"); assert(no_newline("[r"@));
            reveal_strlit("], elem_bytes="); assert(no_newline("], elem_bytes="@));
        },
        Opcode::SliceNew => {
            reveal_strlit("SliceNew      r"); assert(no_newline("SliceNew      r"@));
            reveal_strlit(", meta=r"); assert(no_newline(", meta=r"@));
            reveal_strlit(", len=r"); assert(no_newline(", len=r"@));
            reveal_strlit(", flags="); assert(no_newline(", flags="@));
        },
        Opcode::SliceGet => {
            reveal_strlit("SliceGet      r"); assert(no_newline("SliceGet      r"@));
            reveal_strlit(", r"); assert(no_newline(", r"@));
            reveal_strlit("[r"); assert(no_newline("[r"@));
            reveal_strlit("], elem_slots="); assert(no_newline("], elem_slots="@));
        },
        Opcode::SliceSet => {
            reveal_strlit("SliceSet      r"); assert(no_newline("SliceSet      r"@));
            reveal_strlit("[r"); assert(no_newline("[r"@));
            reveal_strlit("], r"); assert(no_newline("], r"@));
            reveal_strlit(", elem_slots="); assert(no_newline(", elem_slots="@));
        },
        Opcode::SliceLen => {
            reveal_strlit("SliceLen      r"); assert(no_newline("SliceLen      r"@));
            reveal_strlit(", r"); assert(no_newline(", r"@));
        },
        Opcode::SliceCap => {
            reveal_strlit("SliceCap      r"); assert(no_newline("SliceCap      r"@));
            reveal_strlit(", r"); assert(no_newline(", r"@));
        },
        Opcode::SliceSlice => {
            reveal_strlit("SliceSlice    r"); assert(no_newline("SliceSlice    r"@));
            reveal_strlit(", r"); assert(no_newline(", r"@));
            reveal_strlit("[r"); assert(no_newline("[r"@));
            reveal_strlit(":], src="); assert(no_newline(":], src="@));
            reveal_strlit("array"); assert(no_newline("array"@));
            reveal_strlit("slice"); assert(no_newline("slice"@));
            reveal_strlit(", has_max"); assert(no_newline(", has_max"@));
            reveal_strlit(""); assert(no_newline(""@));
        },
        Opcode::SliceAppend => {
            reveal_strlit("SliceAppend   r"); assert(no_newline("SliceAppend   r"@));
            reveal_strlit(", r"); assert(no_newline(", r"@));
            reveal_strlit(", meta=r"); assert(no_newline(", meta=r"@));
            reveal_strlit(", flags="); assert(no_newline(", flags="@));
        },
        _ => {},
    }
}

#[verifier::spinoff_prover]
proof fn lemma_line_8(i: Instruction)
    requires
        i.opcode is SliceAddr || i.opcode is MapNew || i.opcode is MapGet || i.opcode is MapSet || i.opcode is MapDelete || i.opcode is MapLen || i.opcode is MapIterInit || i.opcode is MapIterNext || i.opcode is ChanNew || i.opcode is ChanSend || i.opcode is ChanRecv,
    ensures
        no_newline(instruction_text(i)),
{
    broadcast use lemma_concat_no_newline, lemma_dec_no_newline, lemma_sdec_no_newline;
    match i.opcode {
        Opcode::SliceAddr => {
            reveal_strlit("SliceAddr     r"); assert(no_newline("SliceAddr     r"@));
            reveal_strlit(", r"); assert(no_newline(", r"@));
            reveal_strlit("[r"); assert(no_newline("[r"@));
            reveal_strlit("], elem_bytes="); assert(no_newline("], elem_bytes="@));
        },
        Opcode::MapNew => {
            reveal_strlit("MapNew        r"); assert(no_newline("MapNew        r"@));
        },
        Opcode::MapGet => {
            reveal_strlit("MapGet        r"); assert(no_newline("MapGet        r"@));
            reveal_strlit(", r"); assert(no_newline(", r"@));
            reveal_strlit("[r"); assert(no_newline("[r"@));
            reveal_strlit("]"); assert(no_newline("]"@));
        },
        Opcode::MapSet => {
            reveal_strlit("MapSet        r"); assert(no_newline("MapSet        r"@));
            reveal_strlit("[r"); assert(no_newline("[r"@));
            reveal_strlit("], r"); assert(no_newline("], r"@));
        },
        Opcode::MapDelete => {
            reveal_strlit("MapDelete     r"); assert(no_newline("MapDelete     r"@));
            reveal_strlit("[r"); assert(no_newline("[r"@));
            reveal_strlit("]"); assert(no_newline("]"@));
        },
        Opcode::MapLen => {
            reveal_strlit("MapLen        r"); assert(no_newline("MapLen        r"@));
            reveal_strlit(", r"); assert(no_newline(", r"@));
        },
        Opcode::MapIterInit => {
            reveal_strlit("MapIterInit   r"); assert(no_newline("MapIterInit   r"@));
            reveal_strlit(", r"); assert(no_newline(", r"@));
        },
        Opcode::MapIterNext => {
            reveal_strlit("MapIterNext   r"); assert(no_newline("MapIterNext   r"@));
            reveal_strlit(", iter=r"); assert(no_newline(", iter=r"@));
            reveal_strlit(", ok=r"); assert(no_newline(", ok=r"@));
            reveal_strlit(", key_slots="); assert(no_newline(", key_slots="@));
            reveal_strlit(", val_slots="); assert(no_newline(", val_slots="@));
        },
        Opcode::ChanNew => {
            reveal_strlit("ChanNew       r"); assert(no_newline("ChanNew       r"@));
            reveal_strlit(", meta=r"); assert(no_newline(", meta=r"@));
            reveal_strlit(", cap=r"); assert(no_newline(", cap=r"@));
            reveal_strlit(", slots="); assert(no_newline(", slots="@));
        },
        Opcode::ChanSend => {
            reveal_strlit("ChanSend      r"); assert(no_newline("ChanSend      r"@));
            reveal_strlit(", r"); assert(no_newline(", r"@));
            reveal_strlit(", slots="); assert(no_newline(", slots="@));
        },
        Opcode::ChanRecv => {
            reveal_strlit("ChanRecv      r"); assert(no_newline("ChanRecv      r"@));
            reveal_strlit(", r"); assert(no_newline(", r"@));
            reveal_strlit(", slots="); assert(no_newline(", slots="@));
        },
        _ => {},
    }
}

#[verifier::spinoff_prover]
proof fn lemma_line_9(i: Instruction)
    requires
        i.opcode is ChanClose || i.opcode is ChanLen || i.opcode is ChanCap || i.opcode is SelectBegin || i.opcode is SelectSend || i.opcode is SelectRecv || i.opcode is SelectExec || i.opcode is ClosureNew || i.opcode is ClosureGet || i.opcode is GoStart || i.opcode is DeferPush,
    ensures
        no_newline(instruction_text(i)),
{
    broadcast use lemma_concat_no_newline, lemma_dec_no_newline, lemma_sdec_no_newline;
    match i.opcode {
        Opcode::ChanClose => {
            reveal_strlit("ChanClose     r"); assert(no_newline("ChanClose     r"@));
        },
        Opcode::ChanLen => {
            reveal_strlit("ChanLen       r"); assert(no_newline("ChanLen       r"@));
            reveal_strlit(", r"); assert(no_newline(", r"@));
        },
        Opcode::ChanCap => {
            reveal_strlit("ChanCap       r"); assert(no_newline("ChanCap       r"@));
            reveal_strlit(", r"); assert(no_newline(", r"@));
        },
        Opcode::SelectBegin => {
            reveal_strlit("SelectBegin   r"); assert(no_newline("SelectBegin   r"@));
            reveal_strlit(", cases="); assert(no_newline(", cases="@));
        },
        Opcode::SelectSend => {
            reveal_strlit("SelectSend    r"); assert(no_newline("SelectSend    r"@));
            reveal_strlit(", r"); assert(no_newline(", r"@));
        },
        Opcode::SelectRecv => {
            reveal_strlit("SelectRecv    r"); assert(no_newline("SelectRecv    r"@));
            reveal_strlit(", r"); assert(no_newline(", r"@));
        },
        Opcode::SelectExec => {
            reveal_strlit("SelectExec    r"); assert(no_newline("SelectExec    r"@));
        },
        Opcode::ClosureNew => {
            reveal_strlit("ClosureNew    r"); assert(no_newline("ClosureNew    r"@));
            reveal_strlit(", func_"); assert(no_newline(", func_"@));
            reveal_strlit(", captures="); assert(no_newline(", captures="@));
        },
        Opcode::ClosureGet => {
            reveal_strlit("ClosureGet    r"); assert(no_newline("ClosureGet    r"@));
            reveal_strlit(", capture["); assert(no_newline(", capture["@));
            reveal_strlit("]"); assert(no_newline("]"@));
        },
        Opcode::GoStart => {
            reveal_strlit("GoStart       closure=r"); assert(no_newline("GoStart       closure=r"@));
            reveal_strlit(", args=r"); assert(no_newline(", args=r"@));
            reveal_strlit(", slots="); assert(no_newline(", slots="@));
            reveal_strlit("GoStart       func_"); assert(no_newline("GoStart       func_"@));
        },
        Opcode::DeferPush => {
            reveal_strlit("DeferPush     closure=r"); assert(no_newline("DeferPush     closure=r"@));
            reveal_strlit(", args=r"); assert(no_newline(", args=r"@));
            reveal_strlit(", slots="); assert(no_newline(", slots="@));
            reveal_strlit("DeferPush     func_"); assert(no_newline("DeferPush     func_"@));
        },
        _ => {},
    }
}

#[verifier::spinoff_prover]
proof fn lemma_line_10(i: Instruction)
    requires
        i.opcode is ErrDeferPush || i.opcode is Panic || i.opcode is Recover || i.opcode is IfaceAssign || i.opcode is IfaceAssert || i.opcode is IfaceEq || i.opcode is ConvI2F || i.opcode is ConvF2I || i.opcode is ConvF64F32 || i.opcode is ConvF32F64 || i.opcode is Trunc,
    ensures
        no_newline(instruction_text(i)),
{
    broadcast use lemma_concat_no_newline, lemma_dec_no_newline, lemma_sdec_no_newline;
    match i.opcode {
        Opcode::ErrDeferPush => {
            reveal_strlit("ErrDeferPush  closure=r"); assert(no_newline("ErrDeferPush  closure=r"@));
            reveal_strlit(", args=r"); assert(no_newline(", args=r"@));
            reveal_strlit(", slots="); assert(no_newline(", slots="@));
            reveal_strlit("ErrDeferPush  func_"); assert(no_newline("ErrDeferPush  func_"@));
        },
        Opcode::Panic => {
            reveal_strlit("Panic         r"); assert(no_newline("Panic         r"@));
        },
        Opcode::Recover => {
            reveal_strlit("Recover       r"); assert(no_newline("Recover       r"@));
        },
        Opcode::IfaceAssign => {
            reveal_strlit("IfaceAssign   r"); assert(no_newline("IfaceAssign   r"@));
            reveal_strlit(", r"); assert(no_newline(", r"@));
            reveal_strlit(", const="); assert(no_newline(", const="@));
            reveal_strlit(", vk="); assert(no_newline(", vk="@));
        },
        Opcode::IfaceAssert => {
            reveal_strlit("IfaceAssert   r"); assert(no_newline("IfaceAssert   r"@));
            reveal_strlit(", r"); assert(no_newline(", r"@));
            reveal_strlit(", target_meta="); assert(no_newline(", target_meta="@));
            reveal_strlit(", flags="); assert(no_newline(", flags="@));
        },
        Opcode::IfaceEq => {
            reveal_strlit("IfaceEq       r"); assert(no_newline("IfaceEq       r"@));
            reveal_strlit(", r"); assert(no_newline(", r"@));
        },
        Opcode::ConvI2F => {
            reveal_strlit("ConvI2F       r"); assert(no_newline("ConvI2F       r"@));
            reveal_strlit(", r"); assert(no_newline(", r"@));
        },
        Opcode::ConvF2I => {
            reveal_strlit("ConvF2I       r"); assert(no_newline("ConvF2I       r"@));
            reveal_strlit(", r"); assert(no_newline(", r"@));
        },
        Opcode::ConvF64F32 => {
            reveal_strlit("ConvF64F32    r"); assert(no_newline("ConvF64F32    r"@));
            reveal_strlit(", r"); assert(no_newline(", r"@));
        },
        Opcode::ConvF32F64 => {
            reveal_strlit("ConvF32F64    r"); assert(no_newline("ConvF32F64    r"@));
            reveal_strlit(", r"); assert(no_newline(", r"@));
        },
        Opcode::Trunc => {
            reveal_strlit("Trunc         r"); assert(no_newline("Trunc         r"@));
            reveal_strlit(", r"); assert(no_newline(", r"@));
            reveal_strlit(", "); assert(no_newline(", "@));
            lemma_trunc_type_no_newline(((i.flags & 0x7F) as u8), (i.flags & 0x80) != 0);
        },
        _ => {},
    }
}

#[verifier::spinoff_prover]
proof fn lemma_line_11(i: Instruction)
    requires
        i.opcode is IndexCheck || i.opcode is IslandNew || i.opcode is PortNew || i.opcode is PortSend || i.opcode is PortRecv || i.opcode is PortClose || i.opcode is PortLen || i.opcode is PortCap || i.opcode is GoIsland || i.opcode is ForLoop || i.opcode is Invalid,
    ensures
        no_newline(instruction_text(i)),
{
    broadcast use lemma_concat_no_newline, lemma_dec_no_newline, lemma_sdec_no_newline;
    match i.opcode {
        Opcode::IndexCheck => {
            reveal_strlit("IndexCheck    r"); assert(no_newline("IndexCheck    r"@));
            reveal_strlit(", r"); assert(no_newline(", r"@));
        },
        Opcode::IslandNew => {
            reveal_strlit("IslandNew     r"); assert(no_newline("IslandNew     r"@));
        },
        Opcode::PortNew => {
            reveal_strlit("PortNew       r"); assert(no_newline("PortNew       r"@));
            reveal_strlit(", meta="); assert(no_newline(", meta="@));
            reveal_strlit(", cap="); assert(no_newline(", cap="@));
            reveal_strlit(", elem_slots="); assert(no_newline(", elem_slots="@));
        },
        Opcode::PortSend => {
            reveal_strlit("PortSend      r"); assert(no_newline("PortSend      r"@));
            reveal_strlit(", r"); assert(no_newline(", r"@));
            reveal_strlit(", elem_slots="); assert(no_newline(", elem_slots="@));
        },
        Opcode::PortRecv => {
            reveal_strlit("PortRecv      r"); assert(no_newline("PortRecv      r"@));
            reveal_strlit(", r"); assert(no_newline(", r"@));
            reveal_strlit(", elem_slots="); assert(no_newline(", elem_slots="@));
            reveal_strlit(", has_ok="); assert(no_newline(", has_ok="@));
        },
        Opcode::PortClose => {
            reveal_strlit("PortClose     r"); assert(no_newline("PortClose     r"@));
        },
        Opcode::PortLen => {
            reveal_strlit("PortLen       r"); assert(no_newline("PortLen       r"@));
            reveal_strlit(", r"); assert(no_newline(", r"@));
        },
        Opcode::PortCap => {
            reveal_strlit("PortCap       r"); assert(no_newline("PortCap       r"@));
            reveal_strlit(", r"); assert(no_newline(", r"@));
        },
        Opcode::GoIsland => {
            reveal_strlit("GoIsland      r"); assert(no_newline("GoIsland      r"@));
            reveal_strlit(", r"); assert(no_newline(", r"@));
            reveal_strlit(", capture_slots="); assert(no_newline(", capture_slots="@));
        },
        Opcode::ForLoop => {
            reveal_strlit("ForLoop       r"); assert(no_newline("ForLoop       r"@));
            reveal_strlit(", r"); assert(no_newline(", r"@));
            reveal_strlit(", offset="); assert(no_newline(", offset="@));
            reveal_strlit(", flags="); assert(no_newline(", flags="@));
        },
        Opcode::Invalid => {
            reveal_strlit("Invalid       op="); assert(no_newline("Invalid       op="@));
            reveal_strlit(", flags="); assert(no_newline(", flags="@));
            reveal_strlit(", a="); assert(no_newline(", a="@));
            reveal_strlit(", b="); assert(no_newline(", b="@));
            reveal_strlit(", c="); assert(no_newline(", c="@));
        },
        _ => {},
    }
}

} // verus!
