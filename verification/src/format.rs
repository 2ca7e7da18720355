//! Text form of compiled bytecode.
//!
//! `format_text` renders a whole module: a header, one section for each
//! non-empty table of type and data metadata, then every function with its
//! numbered instructions. Each piece of the output is described by a spec
//! function of the same name, so the contracts state the output exactly.

use vstd::prelude::*;

use crate::bytecode::{
    Constant, ExternDef, FieldMeta, FunctionDef, GlobalDef, InterfaceMeta, Instruction, Itab,
    MethodInfo, Module, NamedTypeMeta, Opcode, StructMeta, imm32_of, imm32_unsigned_of,
};
use crate::reader::{plain_module, read_module};
use crate::text::{debug_quoted, dec, dec_string, push_dec, push_int, push_zero_padded, sdec, str_debug, zero_pad};

verus! {

// =============================================================================
// Instructions
// =============================================================================

/// Name of the integer type that a `Trunc` instruction narrows to.
pub open spec fn trunc_type(bytes: u8, signed: bool) -> Seq<char> {
    if bytes == 1 && signed {
        "i8"@
    } else if bytes == 2 && signed {
        "i16"@
    } else if bytes == 4 && signed {
        "i32"@
    } else if bytes == 1 && !signed {
        "u8"@
    } else if bytes == 2 && !signed {
        "u16"@
    } else if bytes == 4 && !signed {
        "u32"@
    } else {
        "?"@
    }
}

fn trunc_type_name(bytes: u8, signed: bool) -> (r: &'static str)
    ensures
        r@ == trunc_type(bytes, signed),
{
    if bytes == 1 && signed {
        "i8"
    } else if bytes == 2 && signed {
        "i16"
    } else if bytes == 4 && signed {
        "i32"
    } else if bytes == 1 && !signed {
        "u8"
    } else if bytes == 2 && !signed {
        "u16"
    } else if bytes == 4 && !signed {
        "u32"
    } else {
        "?"
    }
}

/// The one-line text of an instruction: its mnemonic padded to a column,
/// then its operands.
pub open spec fn instruction_text(i: Instruction) -> Seq<char> {
    let a = i.a;
    let b = i.b;
    let c = i.c;
    let flags = i.flags;
    let imm32 = imm32_of(i);
    let imm32u = imm32_unsigned_of(i);
    let op = i.op;
    match i.opcode {
        Opcode::Hint => { "Hint          flags="@ + dec(flags as nat) + ", a="@ + dec(a as nat) + ", bc="@ + dec(imm32u as nat) },
        Opcode::LoadInt => { "LoadInt       r"@ + dec(a as nat) + ", "@ + sdec(imm32 as int) },
        Opcode::LoadConst => { "LoadConst     r"@ + dec(a as nat) + ", const_"@ + dec(b as nat) },
        Opcode::Copy => { "Copy          r"@ + dec(a as nat) + ", r"@ + dec(b as nat) },
        Opcode::CopyN => { "CopyN         r"@ + dec(a as nat) + ", r"@ + dec(b as nat) + ", n="@ + dec(c as nat) },
        Opcode::SlotGet => { "SlotGet       r"@ + dec(a as nat) + ", r"@ + dec(b as nat) + "[r"@ + dec(c as nat) + "]"@ },
        Opcode::SlotSet => { "SlotSet       r"@ + dec(a as nat) + "[r"@ + dec(b as nat) + "], r"@ + dec(c as nat) },
        Opcode::SlotGetN => { "SlotGetN      r"@ + dec(a as nat) + ", r"@ + dec(b as nat) + "[r"@ + dec(c as nat) + "], n="@ + dec(flags as nat) },
        Opcode::SlotSetN => { "SlotSetN      r"@ + dec(a as nat) + "[r"@ + dec(b as nat) + "], r"@ + dec(c as nat) + ", n="@ + dec(flags as nat) },
        Opcode::GlobalGet => { "GlobalGet     r"@ + dec(a as nat) + ", global_"@ + dec(b as nat) },
        Opcode::GlobalGetN => { "GlobalGetN    r"@ + dec(a as nat) + ", global_"@ + dec(b as nat) + ", n="@ + dec(flags as nat) },
        Opcode::GlobalSet => { "GlobalSet     global_"@ + dec(a as nat) + ", r"@ + dec(b as nat) },
        Opcode::GlobalSetN => { "GlobalSetN    global_"@ + dec(a as nat) + ", r"@ + dec(b as nat) + ", n="@ + dec(flags as nat) },
        Opcode::PtrNew => { "PtrNew        r"@ + dec(a as nat) + ", meta=r"@ + dec(b as nat) + ", slots="@ + dec(flags as nat) },
        Opcode::PtrGet => { "PtrGet        r"@ + dec(a as nat) + ", r"@ + dec(b as nat) + "["@ + dec(c as nat) + "]"@ },
        Opcode::PtrSet => { "PtrSet        r"@ + dec(a as nat) + "["@ + dec(b as nat) + "], r"@ + dec(c as nat) },
        Opcode::PtrGetN => { "PtrGetN       r"@ + dec(a as nat) + ", r"@ + dec(b as nat) + "["@ + dec(c as nat) + "], n="@ + dec(flags as nat) },
        Opcode::PtrSetN => { "PtrSetN       r"@ + dec(a as nat) + "["@ + dec(b as nat) + "], r"@ + dec(c as nat) + ", n="@ + dec(flags as nat) },
        Opcode::PtrAdd => { "PtrAdd        r"@ + dec(a as nat) + ", r"@ + dec(b as nat) + ", r"@ + dec(c as nat) },
        Opcode::AddI => { "AddI          r"@ + dec(a as nat) + ", r"@ + dec(b as nat) + ", r"@ + dec(c as nat) },
        Opcode::SubI => { "SubI          r"@ + dec(a as nat) + ", r"@ + dec(b as nat) + ", r"@ + dec(c as nat) },
        Opcode::MulI => { "MulI          r"@ + dec(a as nat) + ", r"@ + dec(b as nat) + ", r"@ + dec(c as nat) },
        Opcode::DivI => { "DivI          r"@ + dec(a as nat) + ", r"@ + dec(b as nat) + ", r"@ + dec(c as nat) },
        Opcode::DivU => { "DivU          r"@ + dec(a as nat) + ", r"@ + dec(b as nat) + ", r"@ + dec(c as nat) },
        Opcode::ModI => { "ModI          r"@ + dec(a as nat) + ", r"@ + dec(b as nat) + ", r"@ + dec(c as nat) },
        Opcode::ModU => { "ModU          r"@ + dec(a as nat) + ", r"@ + dec(b as nat) + ", r"@ + dec(c as nat) },
        Opcode::NegI => { "NegI          r"@ + dec(a as nat) + ", r"@ + dec(b as nat) },
        Opcode::AddF => { "AddF          r"@ + dec(a as nat) + ", r"@ + dec(b as nat) + ", r"@ + dec(c as nat) },
        Opcode::SubF => { "SubF          r"@ + dec(a as nat) + ", r"@ + dec(b as nat) + ", r"@ + dec(c as nat) },
        Opcode::MulF => { "MulF          r"@ + dec(a as nat) + ", r"@ + dec(b as nat) + ", r"@ + dec(c as nat) },
        Opcode::DivF => { "DivF          r"@ + dec(a as nat) + ", r"@ + dec(b as nat) + ", r"@ + dec(c as nat) },
        Opcode::NegF => { "NegF          r"@ + dec(a as nat) + ", r"@ + dec(b as nat) },
        Opcode::EqI => { "EqI           r"@ + dec(a as nat) + ", r"@ + dec(b as nat) + ", r"@ + dec(c as nat) },
        Opcode::NeI => { "NeI           r"@ + dec(a as nat) + ", r"@ + dec(b as nat) + ", r"@ + dec(c as nat) },
        Opcode::LtI => { "LtI           r"@ + dec(a as nat) + ", r"@ + dec(b as nat) + ", r"@ + dec(c as nat) },
        Opcode::LeI => { "LeI           r"@ + dec(a as nat) + ", r"@ + dec(b as nat) + ", r"@ + dec(c as nat) },
        Opcode::GtI => { "GtI           r"@ + dec(a as nat) + ", r"@ + dec(b as nat) + ", r"@ + dec(c as nat) },
        Opcode::GeI => { "GeI           r"@ + dec(a as nat) + ", r"@ + dec(b as nat) + ", r"@ + dec(c as nat) },
        Opcode::LtU => { "LtU           r"@ + dec(a as nat) + ", r"@ + dec(b as nat) + ", r"@ + dec(c as nat) },
        Opcode::LeU => { "LeU           r"@ + dec(a as nat) + ", r"@ + dec(b as nat) + ", r"@ + dec(c as nat) },
        Opcode::GtU => { "GtU           r"@ + dec(a as nat) + ", r"@ + dec(b as nat) + ", r"@ + dec(c as nat) },
        Opcode::GeU => { "GeU           r"@ + dec(a as nat) + ", r"@ + dec(b as nat) + ", r"@ + dec(c as nat) },
        Opcode::EqF => { "EqF           r"@ + dec(a as nat) + ", r"@ + dec(b as nat) + ", r"@ + dec(c as nat) },
        Opcode::NeF => { "NeF           r"@ + dec(a as nat) + ", r"@ + dec(b as nat) + ", r"@ + dec(c as nat) },
        Opcode::LtF => { "LtF           r"@ + dec(a as nat) + ", r"@ + dec(b as nat) + ", r"@ + dec(c as nat) },
        Opcode::LeF => { "LeF           r"@ + dec(a as nat) + ", r"@ + dec(b as nat) + ", r"@ + dec(c as nat) },
        Opcode::GtF => { "GtF           r"@ + dec(a as nat) + ", r"@ + dec(b as nat) + ", r"@ + dec(c as nat) },
        Opcode::GeF => { "GeF           r"@ + dec(a as nat) + ", r"@ + dec(b as nat) + ", r"@ + dec(c as nat) },
        Opcode::And => { "And           r"@ + dec(a as nat) + ", r"@ + dec(b as nat) + ", r"@ + dec(c as nat) },
        Opcode::Or => { "Or            r"@ + dec(a as nat) + ", r"@ + dec(b as nat) + ", r"@ + dec(c as nat) },
        Opcode::Xor => { "Xor           r"@ + dec(a as nat) + ", r"@ + dec(b as nat) + ", r"@ + dec(c as nat) },
        Opcode::AndNot => { "AndNot        r"@ + dec(a as nat) + ", r"@ + dec(b as nat) + ", r"@ + dec(c as nat) },
        Opcode::Not => { "Not           r"@ + dec(a as nat) + ", r"@ + dec(b as nat) },
        Opcode::Shl => { "Shl           r"@ + dec(a as nat) + ", r"@ + dec(b as nat) + ", r"@ + dec(c as nat) },
        Opcode::ShrS => { "ShrS          r"@ + dec(a as nat) + ", r"@ + dec(b as nat) + ", r"@ + dec(c as nat) },
        Opcode::ShrU => { "ShrU          r"@ + dec(a as nat) + ", r"@ + dec(b as nat) + ", r"@ + dec(c as nat) },
        Opcode::BoolNot => { "BoolNot       r"@ + dec(a as nat) + ", r"@ + dec(b as nat) },
        Opcode::Jump => { "Jump          pc_"@ + sdec(imm32 as int) },
        Opcode::JumpIf => { "JumpIf        r"@ + dec(a as nat) + ", pc_"@ + sdec(imm32 as int) },
        Opcode::JumpIfNot => { "JumpIfNot     r"@ + dec(a as nat) + ", pc_"@ + sdec(imm32 as int) },
        Opcode::Call => { let func_id = a as u32 | ((flags as u32) << 16); let arg_slots = c >> 8; let ret_slots = c & 0xFF; "Call          func_"@ + dec(func_id as nat) + ", args=r"@ + dec(b as nat) + ", arg_slots="@ + dec(arg_slots as nat) + ", ret_slots="@ + dec(ret_slots as nat) },
        Opcode::CallExtern => { "CallExtern    r"@ + dec(a as nat) + ", extern_"@ + dec(b as nat) + ", args="@ + dec(c as nat) + ", count="@ + dec(flags as nat) },
        Opcode::CallClosure => { let arg_slots = c >> 8; let ret_slots = c & 0xFF; "CallClosure   r"@ + dec(a as nat) + ", r"@ + dec(b as nat) + ", arg_slots="@ + dec(arg_slots as nat) + ", ret_slots="@ + dec(ret_slots as nat) },
        Opcode::CallIface => { let arg_slots = c >> 8; let ret_slots = c & 0xFF; "CallIface     r"@ + dec(a as nat) + ", r"@ + dec(b as nat) + ", method="@ + dec(flags as nat) + ", arg_slots="@ + dec(arg_slots as nat) + ", ret_slots="@ + dec(ret_slots as nat) },
        Opcode::Return => { if a == 0 && b == 0 { "Return"@ } else { "Return        r"@ + dec(a as nat) + ", count="@ + dec(b as nat) } },
        Opcode::StrNew => { "StrNew        r"@ + dec(a as nat) + ", const_"@ + dec(b as nat) },
        Opcode::StrLen => { "StrLen        r"@ + dec(a as nat) + ", r"@ + dec(b as nat) },
        Opcode::StrIndex => { "StrIndex      r"@ + dec(a as nat) + ", r"@ + dec(b as nat) + ", r"@ + dec(c as nat) },
        Opcode::StrConcat => { "StrConcat     r"@ + dec(a as nat) + ", r"@ + dec(b as nat) + ", r"@ + dec(c as nat) },
        Opcode::StrSlice => { "StrSlice      r"@ + dec(a as nat) + ", r"@ + dec(b as nat) + ", r"@ + dec(c as nat) + ", r"@ + dec(flags as nat) },
        Opcode::StrEq => { "StrEq         r"@ + dec(a as nat) + ", r"@ + dec(b as nat) + ", r"@ + dec(c as nat) },
        Opcode::StrNe => { "StrNe         r"@ + dec(a as nat) + ", r"@ + dec(b as nat) + ", r"@ + dec(c as nat) },
        Opcode::StrLt => { "StrLt         r"@ + dec(a as nat) + ", r"@ + dec(b as nat) + ", r"@ + dec(c as nat) },
        Opcode::StrLe => { "StrLe         r"@ + dec(a as nat) + ", r"@ + dec(b as nat) + ", r"@ + dec(c as nat) },
        Opcode::StrGt => { "StrGt         r"@ + dec(a as nat) + ", r"@ + dec(b as nat) + ", r"@ + dec(c as nat) },
        Opcode::StrGe => { "StrGe         r"@ + dec(a as nat) + ", r"@ + dec(b as nat) + ", r"@ + dec(c as nat) },
        Opcode::StrDecodeRune => { "StrDecodeRune r"@ + dec(a as nat) + ", r"@ + dec(b as nat) + ", r"@ + dec(c as nat) },
        Opcode::ArrayNew => { "ArrayNew      r"@ + dec(a as nat) + ", meta=r"@ + dec(b as nat) + ", len=r"@ + dec(c as nat) + ", flags="@ + dec(flags as nat) },
        Opcode::ArrayGet => { "ArrayGet      r"@ + dec(a as nat) + ", r"@ + dec(b as nat) + "[r"@ + dec(c as nat) + "], flags="@ + dec(flags as nat) },
        Opcode::ArraySet => { "ArraySet      r"@ + dec(a as nat) + "[r"@ + dec(b as nat) + "], r"@ + dec(c as nat) + ", flags="@ + dec(flags as nat) },
        Opcode::ArrayAddr => { "ArrayAddr     r"@ + dec(a as nat) + ", r"@ + dec(b as nat) + "[r"@ + dec(c as nat) + "], elem_bytes="@ + dec(flags as nat) },
        Opcode::SliceNew => { "SliceNew      r"@ + dec(a as nat) + ", meta=r"@ + dec(b as nat) + ", len=r"@ + dec(c as nat) + ", flags="@ + dec(flags as nat) },
        Opcode::SliceGet => { "SliceGet      r"@ + dec(a as nat) + ", r"@ + dec(b as nat) + "[r"@ + dec(c as nat) + "], elem_slots="@ + dec(flags as nat) },
        Opcode::SliceSet => { "SliceSet      r"@ + dec(a as nat) + "[r"@ + dec(b as nat) + "], r"@ + dec(c as nat) + ", elem_slots="@ + dec(flags as nat) },
        Opcode::SliceLen => { "SliceLen      r"@ + dec(a as nat) + ", r"@ + dec(b as nat) },
        Opcode::SliceCap => { "SliceCap      r"@ + dec(a as nat) + ", r"@ + dec(b as nat) },
        Opcode::SliceSlice => { let is_array = (flags & 1) != 0; let has_max = (flags & 2) != 0; "SliceSlice    r"@ + dec(a as nat) + ", r"@ + dec(b as nat) + "[r"@ + dec(c as nat) + ":], src="@ + (if is_array { "array" } else { "slice" })@ + (if has_max { ", has_max" } else { "" })@ },
        Opcode::SliceAppend => { "SliceAppend   r"@ + dec(a as nat) + ", r"@ + dec(b as nat) + ", meta=r"@ + dec(c as nat) + ", flags="@ + dec(flags as nat) },
        Opcode::SliceAddr => { "SliceAddr     r"@ + dec(a as nat) + ", r"@ + dec(b as nat) + "[r"@ + dec(c as nat) + "], elem_bytes="@ + dec(flags as nat) },
        Opcode::MapNew => { "MapNew        r"@ + dec(a as nat) },
        Opcode::MapGet => { "MapGet        r"@ + dec(a as nat) + ", r"@ + dec(b as nat) + "[r"@ + dec(c as nat) + "]"@ },
        Opcode::MapSet => { "MapSet        r"@ + dec(a as nat) + "[r"@ + dec(b as nat) + "], r"@ + dec(c as nat) },
        Opcode::MapDelete => { "MapDelete     r"@ + dec(a as nat) + "[r"@ + dec(b as nat) + "]"@ },
        Opcode::MapLen => { "MapLen        r"@ + dec(a as nat) + ", r"@ + dec(b as nat) },
        Opcode::MapIterInit => { "MapIterInit   r"@ + dec(a as nat) + ", r"@ + dec(b as nat) },
        Opcode::MapIterNext => { let key_slots = flags & 0x0F; let val_slots = (flags >> 4) & 0x0F; "MapIterNext   r"@ + dec(a as nat) + ", iter=r"@ + dec(b as nat) + ", ok=r"@ + dec(c as nat) + ", key_slots="@ + dec(key_slots as nat) + ", val_slots="@ + dec(val_slots as nat) },
        Opcode::ChanNew => { "ChanNew       r"@ + dec(a as nat) + ", meta=r"@ + dec(b as nat) + ", cap=r"@ + dec(c as nat) + ", slots="@ + dec(flags as nat) },
        Opcode::ChanSend => { "ChanSend      r"@ + dec(a as nat) + ", r"@ + dec(b as nat) + ", slots="@ + dec(flags as nat) },
        Opcode::ChanRecv => { "ChanRecv      r"@ + dec(a as nat) + ", r"@ + dec(b as nat) + ", slots="@ + dec(((flags >> 1) & 0x7F) as nat) },
        Opcode::ChanClose => { "ChanClose     r"@ + dec(a as nat) },
        Opcode::ChanLen => { "ChanLen       r"@ + dec(a as nat) + ", r"@ + dec(b as nat) },
        Opcode::ChanCap => { "ChanCap       r"@ + dec(a as nat) + ", r"@ + dec(b as nat) },
        Opcode::SelectBegin => { "SelectBegin   r"@ + dec(a as nat) + ", cases="@ + dec(b as nat) },
        Opcode::SelectSend => { "SelectSend    r"@ + dec(a as nat) + ", r"@ + dec(b as nat) },
        Opcode::SelectRecv => { "SelectRecv    r"@ + dec(a as nat) + ", r"@ + dec(b as nat) },
        Opcode::SelectExec => { "SelectExec    r"@ + dec(a as nat) },
        Opcode::ClosureNew => { let func_id = b as u32 | ((flags as u32) << 16); "ClosureNew    r"@ + dec(a as nat) + ", func_"@ + dec(func_id as nat) + ", captures="@ + dec(c as nat) },
        Opcode::ClosureGet => { "ClosureGet    r"@ + dec(a as nat) + ", capture["@ + dec(b as nat) + "]"@ },
        Opcode::GoStart => { let is_closure = (flags & 1) != 0; let func_id = a as u32 | (((flags >> 1) as u32) << 16); if is_closure { "GoStart       closure=r"@ + dec(a as nat) + ", args=r"@ + dec(b as nat) + ", slots="@ + dec(c as nat) } else { "GoStart       func_"@ + dec(func_id as nat) + ", args=r"@ + dec(b as nat) + ", slots="@ + dec(c as nat) } },
        Opcode::DeferPush => { let is_closure = (flags & 1) != 0; let func_id = a as u32 | (((flags >> 1) as u32) << 16); if is_closure { "DeferPush     closure=r"@ + dec(a as nat) + ", args=r"@ + dec(b as nat) + ", slots="@ + dec(c as nat) } else { "DeferPush     func_"@ + dec(func_id as nat) + ", args=r"@ + dec(b as nat) + ", slots="@ + dec(c as nat) } },
        Opcode::ErrDeferPush => { let is_closure = (flags & 1) != 0; let func_id = a as u32 | (((flags >> 1) as u32) << 16); if is_closure { "ErrDeferPush  closure=r"@ + dec(a as nat) + ", args=r"@ + dec(b as nat) + ", slots="@ + dec(c as nat) } else { "ErrDeferPush  func_"@ + dec(func_id as nat) + ", args=r"@ + dec(b as nat) + ", slots="@ + dec(c as nat) } },
        Opcode::Panic => { "Panic         r"@ + dec(a as nat) },
        Opcode::Recover => { "Recover       r"@ + dec(a as nat) },
        Opcode::IfaceAssign => { "IfaceAssign   r"@ + dec(a as nat) + ", r"@ + dec(b as nat) + ", const="@ + dec(c as nat) + ", vk="@ + dec(flags as nat) },
        Opcode::IfaceAssert => { "IfaceAssert   r"@ + dec(a as nat) + ", r"@ + dec(b as nat) + ", target_meta="@ + dec(c as nat) + ", flags="@ + dec(flags as nat) },
        Opcode::IfaceEq => { "IfaceEq       r"@ + dec(a as nat) + ", r"@ + dec(b as nat) + ", r"@ + dec(c as nat) },
        Opcode::ConvI2F => { "ConvI2F       r"@ + dec(a as nat) + ", r"@ + dec(b as nat) },
        Opcode::ConvF2I => { "ConvF2I       r"@ + dec(a as nat) + ", r"@ + dec(b as nat) },
        Opcode::ConvF64F32 => { "ConvF64F32    r"@ + dec(a as nat) + ", r"@ + dec(b as nat) },
        Opcode::ConvF32F64 => { "ConvF32F64    r"@ + dec(a as nat) + ", r"@ + dec(b as nat) },
        Opcode::Trunc => { let signed = (flags & 0x80) != 0; let bytes = flags & 0x7F; "Trunc         r"@ + dec(a as nat) + ", r"@ + dec(b as nat) + ", "@ + trunc_type(bytes, signed) },
        Opcode::IndexCheck => { "IndexCheck    r"@ + dec(a as nat) + ", r"@ + dec(b as nat) },
        Opcode::IslandNew => { "IslandNew     r"@ + dec(a as nat) },
        Opcode::PortNew => { "PortNew       r"@ + dec(a as nat) + ", meta="@ + dec(b as nat) + ", cap="@ + dec(c as nat) + ", elem_slots="@ + dec(flags as nat) },
        Opcode::PortSend => { "PortSend      r"@ + dec(a as nat) + ", r"@ + dec(b as nat) + ", elem_slots="@ + dec(flags as nat) },
        Opcode::PortRecv => { "PortRecv      r"@ + dec(a as nat) + ", r"@ + dec(b as nat) + ", elem_slots="@ + dec((flags >> 1) as nat) + ", has_ok="@ + dec((flags & 1) as nat) },
        Opcode::PortClose => { "PortClose     r"@ + dec(a as nat) },
        Opcode::PortLen => { "PortLen       r"@ + dec(a as nat) + ", r"@ + dec(b as nat) },
        Opcode::PortCap => { "PortCap       r"@ + dec(a as nat) + ", r"@ + dec(b as nat) },
        Opcode::GoIsland => { "GoIsland      r"@ + dec(a as nat) + ", r"@ + dec(b as nat) + ", capture_slots="@ + dec(flags as nat) },
        Opcode::ForLoop => { "ForLoop       r"@ + dec(a as nat) + ", r"@ + dec(b as nat) + ", offset="@ + sdec((c as i16) as int) + ", flags="@ + dec(flags as nat) },
        Opcode::Invalid => { "Invalid       op="@ + dec(op as nat) + ", flags="@ + dec(flags as nat) + ", a="@ + dec(a as nat) + ", b="@ + dec(b as nat) + ", c="@ + dec(c as nat) },
    }
}

/// Renders one instruction.
#[verifier::rlimit(40)]
pub fn format_instruction(instr: &Instruction) -> (s: String)
    ensures
        s@ == instruction_text(*instr),
{
    let a = instr.a;
    let b = instr.b;
    let c = instr.c;
    let flags = instr.flags;
    let imm32 = instr.imm32();
    let imm32u = instr.imm32_unsigned();
    let op = instr.op;
    match instr.opcode {
        Opcode::Hint => {
            let mut s = String::from_str("Hint          flags=");
            push_dec(&mut s, flags as u64);
            s.append(", a=");
            push_dec(&mut s, a as u64);
            s.append(", bc=");
            push_dec(&mut s, imm32u as u64);
            s
        },
        Opcode::LoadInt => {
            let mut s = String::from_str("LoadInt       r");
            push_dec(&mut s, a as u64);
            s.append(", ");
            push_int(&mut s, imm32 as i64);
            s
        },
        Opcode::LoadConst => {
            let mut s = String::from_str("LoadConst     r");
            push_dec(&mut s, a as u64);
            s.append(", const_");
            push_dec(&mut s, b as u64);
            s
        },
        Opcode::Copy => {
            let mut s = String::from_str("Copy          r");
            push_dec(&mut s, a as u64);
            s.append(", r");
            push_dec(&mut s, b as u64);
            s
        },
        Opcode::CopyN => {
            let mut s = String::from_str("CopyN         r");
            push_dec(&mut s, a as u64);
            s.append(", r");
            push_dec(&mut s, b as u64);
            s.append(", n=");
            push_dec(&mut s, c as u64);
            s
        },
        Opcode::SlotGet => {
            let mut s = String::from_str("SlotGet       r");
            push_dec(&mut s, a as u64);
            s.append(", r");
            push_dec(&mut s, b as u64);
            s.append("[r");
            push_dec(&mut s, c as u64);
            s.append("]");
            s
        },
        Opcode::SlotSet => {
            let mut s = String::from_str("SlotSet       r");
            push_dec(&mut s, a as u64);
            s.append("[r");
            push_dec(&mut s, b as u64);
            s.append("], r");
            push_dec(&mut s, c as u64);
            s
        },
        Opcode::SlotGetN => {
            let mut s = String::from_str("SlotGetN      r");
            push_dec(&mut s, a as u64);
            s.append(", r");
            push_dec(&mut s, b as u64);
            s.append("[r");
            push_dec(&mut s, c as u64);
            s.append("], n=");
            push_dec(&mut s, flags as u64);
            s
        },
        Opcode::SlotSetN => {
            let mut s = String::from_str("SlotSetN      r");
            push_dec(&mut s, a as u64);
            s.append("[r");
            push_dec(&mut s, b as u64);
            s.append("], r");
            push_dec(&mut s, c as u64);
            s.append(", n=");
            push_dec(&mut s, flags as u64);
            s
        },
        Opcode::GlobalGet => {
            let mut s = String::from_str("GlobalGet     r");
            push_dec(&mut s, a as u64);
            s.append(", global_");
            push_dec(&mut s, b as u64);
            s
        },
        Opcode::GlobalGetN => {
            let mut s = String::from_str("GlobalGetN    r");
            push_dec(&mut s, a as u64);
            s.append(", global_");
            push_dec(&mut s, b as u64);
            s.append(", n=");
            push_dec(&mut s, flags as u64);
            s
        },
        Opcode::GlobalSet => {
            let mut s = String::from_str("GlobalSet     global_");
            push_dec(&mut s, a as u64);
            s.append(", r");
            push_dec(&mut s, b as u64);
            s
        },
        Opcode::GlobalSetN => {
            let mut s = String::from_str("GlobalSetN    global_");
            push_dec(&mut s, a as u64);
            s.append(", r");
            push_dec(&mut s, b as u64);
            s.append(", n=");
            push_dec(&mut s, flags as u64);
            s
        },
        Opcode::PtrNew => {
            let mut s = String::from_str("PtrNew        r");
            push_dec(&mut s, a as u64);
            s.append(", meta=r");
            push_dec(&mut s, b as u64);
            s.append(", slots=");
            push_dec(&mut s, flags as u64);
            s
        },
        Opcode::PtrGet => {
            let mut s = String::from_str("PtrGet        r");
            push_dec(&mut s, a as u64);
            s.append(", r");
            push_dec(&mut s, b as u64);
            s.append("[");
            push_dec(&mut s, c as u64);
            s.append("]");
            s
        },
        Opcode::PtrSet => {
            let mut s = String::from_str("PtrSet        r");
            push_dec(&mut s, a as u64);
            s.append("[");
            push_dec(&mut s, b as u64);
            s.append("], r");
            push_dec(&mut s, c as u64);
            s
        },
        Opcode::PtrGetN => {
            let mut s = String::from_str("PtrGetN       r");
            push_dec(&mut s, a as u64);
            s.append(", r");
            push_dec(&mut s, b as u64);
            s.append("[");
            push_dec(&mut s, c as u64);
            s.append("], n=");
            push_dec(&mut s, flags as u64);
            s
        },
        Opcode::PtrSetN => {
            let mut s = String::from_str("PtrSetN       r");
            push_dec(&mut s, a as u64);
            s.append("[");
            push_dec(&mut s, b as u64);
            s.append("], r");
            push_dec(&mut s, c as u64);
            s.append(", n=");
            push_dec(&mut s, flags as u64);
            s
        },
        Opcode::PtrAdd => {
            let mut s = String::from_str("PtrAdd        r");
            push_dec(&mut s, a as u64);
            s.append(", r");
            push_dec(&mut s, b as u64);
            s.append(", r");
            push_dec(&mut s, c as u64);
            s
        },
        Opcode::AddI => {
            let mut s = String::from_str("AddI          r");
            push_dec(&mut s, a as u64);
            s.append(", r");
            push_dec(&mut s, b as u64);
            s.append(", r");
            push_dec(&mut s, c as u64);
            s
        },
        Opcode::SubI => {
            let mut s = String::from_str("SubI          r");
            push_dec(&mut s, a as u64);
            s.append(", r");
            push_dec(&mut s, b as u64);
            s.append(", r");
            push_dec(&mut s, c as u64);
            s
        },
        Opcode::MulI => {
            let mut s = String::from_str("MulI          r");
            push_dec(&mut s, a as u64);
            s.append(", r");
            push_dec(&mut s, b as u64);
            s.append(", r");
            push_dec(&mut s, c as u64);
            s
        },
        Opcode::DivI => {
            let mut s = String::from_str("DivI          r");
            push_dec(&mut s, a as u64);
            s.append(", r");
            push_dec(&mut s, b as u64);
            s.append(", r");
            push_dec(&mut s, c as u64);
            s
        },
        Opcode::DivU => {
            let mut s = String::from_str("DivU          r");
            push_dec(&mut s, a as u64);
            s.append(", r");
            push_dec(&mut s, b as u64);
            s.append(", r");
            push_dec(&mut s, c as u64);
            s
        },
        Opcode::ModI => {
            let mut s = String::from_str("ModI          r");
            push_dec(&mut s, a as u64);
            s.append(", r");
            push_dec(&mut s, b as u64);
            s.append(", r");
            push_dec(&mut s, c as u64);
            s
        },
        Opcode::ModU => {
            let mut s = String::from_str("ModU          r");
            push_dec(&mut s, a as u64);
            s.append(", r");
            push_dec(&mut s, b as u64);
            s.append(", r");
            push_dec(&mut s, c as u64);
            s
        },
        Opcode::NegI => {
            let mut s = String::from_str("NegI          r");
            push_dec(&mut s, a as u64);
            s.append(", r");
            push_dec(&mut s, b as u64);
            s
        },
        Opcode::AddF => {
            let mut s = String::from_str("AddF          r");
            push_dec(&mut s, a as u64);
            s.append(", r");
            push_dec(&mut s, b as u64);
            s.append(", r");
            push_dec(&mut s, c as u64);
            s
        },
        Opcode::SubF => {
            let mut s = String::from_str("SubF          r");
            push_dec(&mut s, a as u64);
            s.append(", r");
            push_dec(&mut s, b as u64);
            s.append(", r");
            push_dec(&mut s, c as u64);
            s
        },
        Opcode::MulF => {
            let mut s = String::from_str("MulF          r");
            push_dec(&mut s, a as u64);
            s.append(", r");
            push_dec(&mut s, b as u64);
            s.append(", r");
            push_dec(&mut s, c as u64);
            s
        },
        Opcode::DivF => {
            let mut s = String::from_str("DivF          r");
            push_dec(&mut s, a as u64);
            s.append(", r");
            push_dec(&mut s, b as u64);
            s.append(", r");
            push_dec(&mut s, c as u64);
            s
        },
        Opcode::NegF => {
            let mut s = String::from_str("NegF          r");
            push_dec(&mut s, a as u64);
            s.append(", r");
            push_dec(&mut s, b as u64);
            s
        },
        Opcode::EqI => {
            let mut s = String::from_str("EqI           r");
            push_dec(&mut s, a as u64);
            s.append(", r");
            push_dec(&mut s, b as u64);
            s.append(", r");
            push_dec(&mut s, c as u64);
            s
        },
        Opcode::NeI => {
            let mut s = String::from_str("NeI           r");
            push_dec(&mut s, a as u64);
            s.append(", r");
            push_dec(&mut s, b as u64);
            s.append(", r");
            push_dec(&mut s, c as u64);
            s
        },
        Opcode::LtI => {
            let mut s = String::from_str("LtI           r");
            push_dec(&mut s, a as u64);
            s.append(", r");
            push_dec(&mut s, b as u64);
            s.append(", r");
            push_dec(&mut s, c as u64);
            s
        },
        Opcode::LeI => {
            let mut s = String::from_str("LeI           r");
            push_dec(&mut s, a as u64);
            s.append(", r");
            push_dec(&mut s, b as u64);
            s.append(", r");
            push_dec(&mut s, c as u64);
            s
        },
        Opcode::GtI => {
            let mut s = String::from_str("GtI           r");
            push_dec(&mut s, a as u64);
            s.append(", r");
            push_dec(&mut s, b as u64);
            s.append(", r");
            push_dec(&mut s, c as u64);
            s
        },
        Opcode::GeI => {
            let mut s = String::from_str("GeI           r");
            push_dec(&mut s, a as u64);
            s.append(", r");
            push_dec(&mut s, b as u64);
            s.append(", r");
            push_dec(&mut s, c as u64);
            s
        },
        Opcode::LtU => {
            let mut s = String::from_str("LtU           r");
            push_dec(&mut s, a as u64);
            s.append(", r");
            push_dec(&mut s, b as u64);
            s.append(", r");
            push_dec(&mut s, c as u64);
            s
        },
        Opcode::LeU => {
            let mut s = String::from_str("LeU           r");
            push_dec(&mut s, a as u64);
            s.append(", r");
            push_dec(&mut s, b as u64);
            s.append(", r");
            push_dec(&mut s, c as u64);
            s
        },
        Opcode::GtU => {
            let mut s = String::from_str("GtU           r");
            push_dec(&mut s, a as u64);
            s.append(", r");
            push_dec(&mut s, b as u64);
            s.append(", r");
            push_dec(&mut s, c as u64);
            s
        },
        Opcode::GeU => {
            let mut s = String::from_str("GeU           r");
            push_dec(&mut s, a as u64);
            s.append(", r");
            push_dec(&mut s, b as u64);
            s.append(", r");
            push_dec(&mut s, c as u64);
            s
        },
        Opcode::EqF => {
            let mut s = String::from_str("EqF           r");
            push_dec(&mut s, a as u64);
            s.append(", r");
            push_dec(&mut s, b as u64);
            s.append(", r");
            push_dec(&mut s, c as u64);
            s
        },
        Opcode::NeF => {
            let mut s = String::from_str("NeF           r");
            push_dec(&mut s, a as u64);
            s.append(", r");
            push_dec(&mut s, b as u64);
            s.append(", r");
            push_dec(&mut s, c as u64);
            s
        },
        Opcode::LtF => {
            let mut s = String::from_str("LtF           r");
            push_dec(&mut s, a as u64);
            s.append(", r");
            push_dec(&mut s, b as u64);
            s.append(", r");
            push_dec(&mut s, c as u64);
            s
        },
        Opcode::LeF => {
            let mut s = String::from_str("LeF           r");
            push_dec(&mut s, a as u64);
            s.append(", r");
            push_dec(&mut s, b as u64);
            s.append(", r");
            push_dec(&mut s, c as u64);
            s
        },
        Opcode::GtF => {
            let mut s = String::from_str("GtF           r");
            push_dec(&mut s, a as u64);
            s.append(", r");
            push_dec(&mut s, b as u64);
            s.append(", r");
            push_dec(&mut s, c as u64);
            s
        },
        Opcode::GeF => {
            let mut s = String::from_str("GeF           r");
            push_dec(&mut s, a as u64);
            s.append(", r");
            push_dec(&mut s, b as u64);
            s.append(", r");
            push_dec(&mut s, c as u64);
            s
        },
        Opcode::And => {
            let mut s = String::from_str("And           r");
            push_dec(&mut s, a as u64);
            s.append(", r");
            push_dec(&mut s, b as u64);
            s.append(", r");
            push_dec(&mut s, c as u64);
            s
        },
        Opcode::Or => {
            let mut s = String::from_str("Or            r");
            push_dec(&mut s, a as u64);
            s.append(", r");
            push_dec(&mut s, b as u64);
            s.append(", r");
            push_dec(&mut s, c as u64);
            s
        },
        Opcode::Xor => {
            let mut s = String::from_str("Xor           r");
            push_dec(&mut s, a as u64);
            s.append(", r");
            push_dec(&mut s, b as u64);
            s.append(", r");
            push_dec(&mut s, c as u64);
            s
        },
        Opcode::AndNot => {
            let mut s = String::from_str("AndNot        r");
            push_dec(&mut s, a as u64);
            s.append(", r");
            push_dec(&mut s, b as u64);
            s.append(", r");
            push_dec(&mut s, c as u64);
            s
        },
        Opcode::Not => {
            let mut s = String::from_str("Not           r");
            push_dec(&mut s, a as u64);
            s.append(", r");
            push_dec(&mut s, b as u64);
            s
        },
        Opcode::Shl => {
            let mut s = String::from_str("Shl           r");
            push_dec(&mut s, a as u64);
            s.append(", r");
            push_dec(&mut s, b as u64);
            s.append(", r");
            push_dec(&mut s, c as u64);
            s
        },
        Opcode::ShrS => {
            let mut s = String::from_str("ShrS          r");
            push_dec(&mut s, a as u64);
            s.append(", r");
            push_dec(&mut s, b as u64);
            s.append(", r");
            push_dec(&mut s, c as u64);
            s
        },
        Opcode::ShrU => {
            let mut s = String::from_str("ShrU          r");
            push_dec(&mut s, a as u64);
            s.append(", r");
            push_dec(&mut s, b as u64);
            s.append(", r");
            push_dec(&mut s, c as u64);
            s
        },
        Opcode::BoolNot => {
            let mut s = String::from_str("BoolNot       r");
            push_dec(&mut s, a as u64);
            s.append(", r");
            push_dec(&mut s, b as u64);
            s
        },
        Opcode::Jump => {
            let mut s = String::from_str("Jump          pc_");
            push_int(&mut s, imm32 as i64);
            s
        },
        Opcode::JumpIf => {
            let mut s = String::from_str("JumpIf        r");
            push_dec(&mut s, a as u64);
            s.append(", pc_");
            push_int(&mut s, imm32 as i64);
            s
        },
        Opcode::JumpIfNot => {
            let mut s = String::from_str("JumpIfNot     r");
            push_dec(&mut s, a as u64);
            s.append(", pc_");
            push_int(&mut s, imm32 as i64);
            s
        },
        Opcode::Call => {
            let func_id = a as u32 | ((flags as u32) << 16);
            let arg_slots = c >> 8;
            let ret_slots = c & 0xFF;
            let mut s = String::from_str("Call          func_");
            push_dec(&mut s, func_id as u64);
            s.append(", args=r");
            push_dec(&mut s, b as u64);
            s.append(", arg_slots=");
            push_dec(&mut s, arg_slots as u64);
            s.append(", ret_slots=");
            push_dec(&mut s, ret_slots as u64);
            s
        },
        Opcode::CallExtern => {
            let mut s = String::from_str("CallExtern    r");
            push_dec(&mut s, a as u64);
            s.append(", extern_");
            push_dec(&mut s, b as u64);
            s.append(", args=");
            push_dec(&mut s, c as u64);
            s.append(", count=");
            push_dec(&mut s, flags as u64);
            s
        },
        Opcode::CallClosure => {
            let arg_slots = c >> 8;
            let ret_slots = c & 0xFF;
            let mut s = String::from_str("CallClosure   r");
            push_dec(&mut s, a as u64);
            s.append(", r");
            push_dec(&mut s, b as u64);
            s.append(", arg_slots=");
            push_dec(&mut s, arg_slots as u64);
            s.append(", ret_slots=");
            push_dec(&mut s, ret_slots as u64);
            s
        },
        Opcode::CallIface => {
            let arg_slots = c >> 8;
            let ret_slots = c & 0xFF;
            let mut s = String::from_str("CallIface     r");
            push_dec(&mut s, a as u64);
            s.append(", r");
            push_dec(&mut s, b as u64);
            s.append(", method=");
            push_dec(&mut s, flags as u64);
            s.append(", arg_slots=");
            push_dec(&mut s, arg_slots as u64);
            s.append(", ret_slots=");
            push_dec(&mut s, ret_slots as u64);
            s
        },
        Opcode::Return => {
            if a == 0 && b == 0 {
                let mut s = String::from_str("Return");
                s
            } else {
                let mut s = String::from_str("Return        r");
                push_dec(&mut s, a as u64);
                s.append(", count=");
                push_dec(&mut s, b as u64);
                s
            }
        },
        Opcode::StrNew => {
            let mut s = String::from_str("StrNew        r");
            push_dec(&mut s, a as u64);
            s.append(", const_");
            push_dec(&mut s, b as u64);
            s
        },
        Opcode::StrLen => {
            let mut s = String::from_str("StrLen        r");
            push_dec(&mut s, a as u64);
            s.append(", r");
            push_dec(&mut s, b as u64);
            s
        },
        Opcode::StrIndex => {
            let mut s = String::from_str("StrIndex      r");
            push_dec(&mut s, a as u64);
            s.append(", r");
            push_dec(&mut s, b as u64);
            s.append(", r");
            push_dec(&mut s, c as u64);
            s
        },
        Opcode::StrConcat => {
            let mut s = String::from_str("StrConcat     r");
            push_dec(&mut s, a as u64);
            s.append(", r");
            push_dec(&mut s, b as u64);
            s.append(", r");
            push_dec(&mut s, c as u64);
            s
        },
        Opcode::StrSlice => {
            let mut s = String::from_str("StrSlice      r");
            push_dec(&mut s, a as u64);
            s.append(", r");
            push_dec(&mut s, b as u64);
            s.append(", r");
            push_dec(&mut s, c as u64);
            s.append(", r");
            push_dec(&mut s, flags as u64);
            s
        },
        Opcode::StrEq => {
            let mut s = String::from_str("StrEq         r");
            push_dec(&mut s, a as u64);
            s.append(", r");
            push_dec(&mut s, b as u64);
            s.append(", r");
            push_dec(&mut s, c as u64);
            s
        },
        Opcode::StrNe => {
            let mut s = String::from_str("StrNe         r");
            push_dec(&mut s, a as u64);
            s.append(", r");
            push_dec(&mut s, b as u64);
            s.append(", r");
            push_dec(&mut s, c as u64);
            s
        },
        Opcode::StrLt => {
            let mut s = String::from_str("StrLt         r");
            push_dec(&mut s, a as u64);
            s.append(", r");
            push_dec(&mut s, b as u64);
            s.append(", r");
            push_dec(&mut s, c as u64);
            s
        },
        Opcode::StrLe => {
            let mut s = String::from_str("StrLe         r");
            push_dec(&mut s, a as u64);
            s.append(", r");
            push_dec(&mut s, b as u64);
            s.append(", r");
            push_dec(&mut s, c as u64);
            s
        },
        Opcode::StrGt => {
            let mut s = String::from_str("StrGt         r");
            push_dec(&mut s, a as u64);
            s.append(", r");
            push_dec(&mut s, b as u64);
            s.append(", r");
            push_dec(&mut s, c as u64);
            s
        },
        Opcode::StrGe => {
            let mut s = String::from_str("StrGe         r");
            push_dec(&mut s, a as u64);
            s.append(", r");
            push_dec(&mut s, b as u64);
            s.append(", r");
            push_dec(&mut s, c as u64);
            s
        },
        Opcode::StrDecodeRune => {
            let mut s = String::from_str("StrDecodeRune r");
            push_dec(&mut s, a as u64);
            s.append(", r");
            push_dec(&mut s, b as u64);
            s.append(", r");
            push_dec(&mut s, c as u64);
            s
        },
        Opcode::ArrayNew => {
            let mut s = String::from_str("ArrayNew      r");
            push_dec(&mut s, a as u64);
            s.append(", meta=r");
            push_dec(&mut s, b as u64);
            s.append(", len=r");
            push_dec(&mut s, c as u64);
            s.append(", flags=");
            push_dec(&mut s, flags as u64);
            s
        },
        Opcode::ArrayGet => {
            let mut s = String::from_str("ArrayGet      r");
            push_dec(&mut s, a as u64);
            s.append(", r");
            push_dec(&mut s, b as u64);
            s.append("[r");
            push_dec(&mut s, c as u64);
            s.append("], flags=");
            push_dec(&mut s, flags as u64);
            s
        },
        Opcode::ArraySet => {
            let mut s = String::from_str("ArraySet      r");
            push_dec(&mut s, a as u64);
            s.append("[r");
            push_dec(&mut s, b as u64);
            s.append("], r");
            push_dec(&mut s, c as u64);
            s.append(", flags=");
            push_dec(&mut s, flags as u64);
            s
        },
        Opcode::ArrayAddr => {
            let mut s = String::from_str("ArrayAddr     r");
            push_dec(&mut s, a as u64);
            s.append(", r");
            push_dec(&mut s, b as u64);
            s.append("[r");
            push_dec(&mut s, c as u64);
            s.append("], elem_bytes=");
            push_dec(&mut s, flags as u64);
            s
        },
        Opcode::SliceNew => {
            let mut s = String::from_str("SliceNew      r");
            push_dec(&mut s, a as u64);
            s.append(", meta=r");
            push_dec(&mut s, b as u64);
            s.append(", len=r");
            push_dec(&mut s, c as u64);
            s.append(", flags=");
            push_dec(&mut s, flags as u64);
            s
        },
        Opcode::SliceGet => {
            let mut s = String::from_str("SliceGet      r");
            push_dec(&mut s, a as u64);
            s.append(", r");
            push_dec(&mut s, b as u64);
            s.append("[r");
            push_dec(&mut s, c as u64);
            s.append("], elem_slots=");
            push_dec(&mut s, flags as u64);
            s
        },
        Opcode::SliceSet => {
            let mut s = String::from_str("SliceSet      r");
            push_dec(&mut s, a as u64);
            s.append("[r");
            push_dec(&mut s, b as u64);
            s.append("], r");
            push_dec(&mut s, c as u64);
            s.append(", elem_slots=");
            push_dec(&mut s, flags as u64);
            s
        },
        Opcode::SliceLen => {
            let mut s = String::from_str("SliceLen      r");
            push_dec(&mut s, a as u64);
            s.append(", r");
            push_dec(&mut s, b as u64);
            s
        },
        Opcode::SliceCap => {
            let mut s = String::from_str("SliceCap      r");
            push_dec(&mut s, a as u64);
            s.append(", r");
            push_dec(&mut s, b as u64);
            s
        },
        Opcode::SliceSlice => {
            let is_array = (flags & 1) != 0;
            let has_max = (flags & 2) != 0;
            let mut s = String::from_str("SliceSlice    r");
            push_dec(&mut s, a as u64);
            s.append(", r");
            push_dec(&mut s, b as u64);
            s.append("[r");
            push_dec(&mut s, c as u64);
            s.append(":], src=");
            s.append(if is_array { "array" } else { "slice" });
            s.append(if has_max { ", has_max" } else { "" });
            s
        },
        Opcode::SliceAppend => {
            let mut s = String::from_str("SliceAppend   r");
            push_dec(&mut s, a as u64);
            s.append(", r");
            push_dec(&mut s, b as u64);
            s.append(", meta=r");
            push_dec(&mut s, c as u64);
            s.append(", flags=");
            push_dec(&mut s, flags as u64);
            s
        },
        Opcode::SliceAddr => {
            let mut s = String::from_str("SliceAddr     r");
            push_dec(&mut s, a as u64);
            s.append(", r");
            push_dec(&mut s, b as u64);
            s.append("[r");
            push_dec(&mut s, c as u64);
            s.append("], elem_bytes=");
            push_dec(&mut s, flags as u64);
            s
        },
        Opcode::MapNew => {
            let mut s = String::from_str("MapNew        r");
            push_dec(&mut s, a as u64);
            s
        },
        Opcode::MapGet => {
            let mut s = String::from_str("MapGet        r");
            push_dec(&mut s, a as u64);
            s.append(", r");
            push_dec(&mut s, b as u64);
            s.append("[r");
            push_dec(&mut s, c as u64);
            s.append("]");
            s
        },
        Opcode::MapSet => {
            let mut s = String::from_str("MapSet        r");
            push_dec(&mut s, a as u64);
            s.append("[r");
            push_dec(&mut s, b as u64);
            s.append("], r");
            push_dec(&mut s, c as u64);
            s
        },
        Opcode::MapDelete => {
            let mut s = String::from_str("MapDelete     r");
            push_dec(&mut s, a as u64);
            s.append("[r");
            push_dec(&mut s, b as u64);
            s.append("]");
            s
        },
        Opcode::MapLen => {
            let mut s = String::from_str("MapLen        r");
            push_dec(&mut s, a as u64);
            s.append(", r");
            push_dec(&mut s, b as u64);
            s
        },
        Opcode::MapIterInit => {
            let mut s = String::from_str("MapIterInit   r");
            push_dec(&mut s, a as u64);
            s.append(", r");
            push_dec(&mut s, b as u64);
            s
        },
        Opcode::MapIterNext => {
            let key_slots = flags & 0x0F;
            let val_slots = (flags >> 4) & 0x0F;
            let mut s = String::from_str("MapIterNext   r");
            push_dec(&mut s, a as u64);
            s.append(", iter=r");
            push_dec(&mut s, b as u64);
            s.append(", ok=r");
            push_dec(&mut s, c as u64);
            s.append(", key_slots=");
            push_dec(&mut s, key_slots as u64);
            s.append(", val_slots=");
            push_dec(&mut s, val_slots as u64);
            s
        },
        Opcode::ChanNew => {
            let mut s = String::from_str("ChanNew       r");
            push_dec(&mut s, a as u64);
            s.append(", meta=r");
            push_dec(&mut s, b as u64);
            s.append(", cap=r");
            push_dec(&mut s, c as u64);
            s.append(", slots=");
            push_dec(&mut s, flags as u64);
            s
        },
        Opcode::ChanSend => {
            let mut s = String::from_str("ChanSend      r");
            push_dec(&mut s, a as u64);
            s.append(", r");
            push_dec(&mut s, b as u64);
            s.append(", slots=");
            push_dec(&mut s, flags as u64);
            s
        },
        Opcode::ChanRecv => {
            let mut s = String::from_str("ChanRecv      r");
            push_dec(&mut s, a as u64);
            s.append(", r");
            push_dec(&mut s, b as u64);
            s.append(", slots=");
            push_dec(&mut s, ((flags >> 1) & 0x7F) as u64);
            s
        },
        Opcode::ChanClose => {
            let mut s = String::from_str("ChanClose     r");
            push_dec(&mut s, a as u64);
            s
        },
        Opcode::ChanLen => {
            let mut s = String::from_str("ChanLen       r");
            push_dec(&mut s, a as u64);
            s.append(", r");
            push_dec(&mut s, b as u64);
            s
        },
        Opcode::ChanCap => {
            let mut s = String::from_str("ChanCap       r");
            push_dec(&mut s, a as u64);
            s.append(", r");
            push_dec(&mut s, b as u64);
            s
        },
        Opcode::SelectBegin => {
            let mut s = String::from_str("SelectBegin   r");
            push_dec(&mut s, a as u64);
            s.append(", cases=");
            push_dec(&mut s, b as u64);
            s
        },
        Opcode::SelectSend => {
            let mut s = String::from_str("SelectSend    r");
            push_dec(&mut s, a as u64);
            s.append(", r");
            push_dec(&mut s, b as u64);
            s
        },
        Opcode::SelectRecv => {
            let mut s = String::from_str("SelectRecv    r");
            push_dec(&mut s, a as u64);
            s.append(", r");
            push_dec(&mut s, b as u64);
            s
        },
        Opcode::SelectExec => {
            let mut s = String::from_str("SelectExec    r");
            push_dec(&mut s, a as u64);
            s
        },
        Opcode::ClosureNew => {
            let func_id = b as u32 | ((flags as u32) << 16);
            let mut s = String::from_str("ClosureNew    r");
            push_dec(&mut s, a as u64);
            s.append(", func_");
            push_dec(&mut s, func_id as u64);
            s.append(", captures=");
            push_dec(&mut s, c as u64);
            s
        },
        Opcode::ClosureGet => {
            let mut s = String::from_str("ClosureGet    r");
            push_dec(&mut s, a as u64);
            s.append(", capture[");
            push_dec(&mut s, b as u64);
            s.append("]");
            s
        },
        Opcode::GoStart => {
            let is_closure = (flags & 1) != 0;
            let func_id = a as u32 | (((flags >> 1) as u32) << 16);
            if is_closure {
                let mut s = String::from_str("GoStart       closure=r");
                push_dec(&mut s, a as u64);
                s.append(", args=r");
                push_dec(&mut s, b as u64);
                s.append(", slots=");
                push_dec(&mut s, c as u64);
                s
            } else {
                let mut s = String::from_str("GoStart       func_");
                push_dec(&mut s, func_id as u64);
                s.append(", args=r");
                push_dec(&mut s, b as u64);
                s.append(", slots=");
                push_dec(&mut s, c as u64);
                s
            }
        },
        Opcode::DeferPush => {
            let is_closure = (flags & 1) != 0;
            let func_id = a as u32 | (((flags >> 1) as u32) << 16);
            if is_closure {
                let mut s = String::from_str("DeferPush     closure=r");
                push_dec(&mut s, a as u64);
                s.append(", args=r");
                push_dec(&mut s, b as u64);
                s.append(", slots=");
                push_dec(&mut s, c as u64);
                s
            } else {
                let mut s = String::from_str("DeferPush     func_");
                push_dec(&mut s, func_id as u64);
                s.append(", args=r");
                push_dec(&mut s, b as u64);
                s.append(", slots=");
                push_dec(&mut s, c as u64);
                s
            }
        },
        Opcode::ErrDeferPush => {
            let is_closure = (flags & 1) != 0;
            let func_id = a as u32 | (((flags >> 1) as u32) << 16);
            if is_closure {
                let mut s = String::from_str("ErrDeferPush  closure=r");
                push_dec(&mut s, a as u64);
                s.append(", args=r");
                push_dec(&mut s, b as u64);
                s.append(", slots=");
                push_dec(&mut s, c as u64);
                s
            } else {
                let mut s = String::from_str("ErrDeferPush  func_");
                push_dec(&mut s, func_id as u64);
                s.append(", args=r");
                push_dec(&mut s, b as u64);
                s.append(", slots=");
                push_dec(&mut s, c as u64);
                s
            }
        },
        Opcode::Panic => {
            let mut s = String::from_str("Panic         r");
            push_dec(&mut s, a as u64);
            s
        },
        Opcode::Recover => {
            let mut s = String::from_str("Recover       r");
            push_dec(&mut s, a as u64);
            s
        },
        Opcode::IfaceAssign => {
            let mut s = String::from_str("IfaceAssign   r");
            push_dec(&mut s, a as u64);
            s.append(", r");
            push_dec(&mut s, b as u64);
            s.append(", const=");
            push_dec(&mut s, c as u64);
            s.append(", vk=");
            push_dec(&mut s, flags as u64);
            s
        },
        Opcode::IfaceAssert => {
            let mut s = String::from_str("IfaceAssert   r");
            push_dec(&mut s, a as u64);
            s.append(", r");
            push_dec(&mut s, b as u64);
            s.append(", target_meta=");
            push_dec(&mut s, c as u64);
            s.append(", flags=");
            push_dec(&mut s, flags as u64);
            s
        },
        Opcode::IfaceEq => {
            let mut s = String::from_str("IfaceEq       r");
            push_dec(&mut s, a as u64);
            s.append(", r");
            push_dec(&mut s, b as u64);
            s.append(", r");
            push_dec(&mut s, c as u64);
            s
        },
        Opcode::ConvI2F => {
            let mut s = String::from_str("ConvI2F       r");
            push_dec(&mut s, a as u64);
            s.append(", r");
            push_dec(&mut s, b as u64);
            s
        },
        Opcode::ConvF2I => {
            let mut s = String::from_str("ConvF2I       r");
            push_dec(&mut s, a as u64);
            s.append(", r");
            push_dec(&mut s, b as u64);
            s
        },
        Opcode::ConvF64F32 => {
            let mut s = String::from_str("ConvF64F32    r");
            push_dec(&mut s, a as u64);
            s.append(", r");
            push_dec(&mut s, b as u64);
            s
        },
        Opcode::ConvF32F64 => {
            let mut s = String::from_str("ConvF32F64    r");
            push_dec(&mut s, a as u64);
            s.append(", r");
            push_dec(&mut s, b as u64);
            s
        },
        Opcode::Trunc => {
            let signed = (flags & 0x80) != 0;
            let bytes = flags & 0x7F;
            let mut s = String::from_str("Trunc         r");
            push_dec(&mut s, a as u64);
            s.append(", r");
            push_dec(&mut s, b as u64);
            s.append(", ");
            s.append(trunc_type_name(bytes, signed));
            s
        },
        Opcode::IndexCheck => {
            let mut s = String::from_str("IndexCheck    r");
            push_dec(&mut s, a as u64);
            s.append(", r");
            push_dec(&mut s, b as u64);
            s
        },
        Opcode::IslandNew => {
            let mut s = String::from_str("IslandNew     r");
            push_dec(&mut s, a as u64);
            s
        },
        Opcode::PortNew => {
            let mut s = String::from_str("PortNew       r");
            push_dec(&mut s, a as u64);
            s.append(", meta=");
            push_dec(&mut s, b as u64);
            s.append(", cap=");
            push_dec(&mut s, c as u64);
            s.append(", elem_slots=");
            push_dec(&mut s, flags as u64);
            s
        },
        Opcode::PortSend => {
            let mut s = String::from_str("PortSend      r");
            push_dec(&mut s, a as u64);
            s.append(", r");
            push_dec(&mut s, b as u64);
            s.append(", elem_slots=");
            push_dec(&mut s, flags as u64);
            s
        },
        Opcode::PortRecv => {
            let mut s = String::from_str("PortRecv      r");
            push_dec(&mut s, a as u64);
            s.append(", r");
            push_dec(&mut s, b as u64);
            s.append(", elem_slots=");
            push_dec(&mut s, (flags >> 1) as u64);
            s.append(", has_ok=");
            push_dec(&mut s, (flags & 1) as u64);
            s
        },
        Opcode::PortClose => {
            let mut s = String::from_str("PortClose     r");
            push_dec(&mut s, a as u64);
            s
        },
        Opcode::PortLen => {
            let mut s = String::from_str("PortLen       r");
            push_dec(&mut s, a as u64);
            s.append(", r");
            push_dec(&mut s, b as u64);
            s
        },
        Opcode::PortCap => {
            let mut s = String::from_str("PortCap       r");
            push_dec(&mut s, a as u64);
            s.append(", r");
            push_dec(&mut s, b as u64);
            s
        },
        Opcode::GoIsland => {
            let mut s = String::from_str("GoIsland      r");
            push_dec(&mut s, a as u64);
            s.append(", r");
            push_dec(&mut s, b as u64);
            s.append(", capture_slots=");
            push_dec(&mut s, flags as u64);
            s
        },
        Opcode::ForLoop => {
            let mut s = String::from_str("ForLoop       r");
            push_dec(&mut s, a as u64);
            s.append(", r");
            push_dec(&mut s, b as u64);
            s.append(", offset=");
            push_int(&mut s, (c as i16) as i64);
            s.append(", flags=");
            push_dec(&mut s, flags as u64);
            s
        },
        Opcode::Invalid => {
            let mut s = String::from_str("Invalid       op=");
            push_dec(&mut s, op as u64);
            s.append(", flags=");
            push_dec(&mut s, flags as u64);
            s.append(", a=");
            push_dec(&mut s, a as u64);
            s.append(", b=");
            push_dec(&mut s, b as u64);
            s.append(", c=");
            push_dec(&mut s, c as u64);
            s
        },
    }
}


// =============================================================================
// Functions
// =============================================================================

/// The line of instruction `pc`: the zero-padded position, then the text.
pub open spec fn code_line(pc: nat, i: Instruction) -> Seq<char> {
    "  "@ + zero_pad(dec(pc), 4) + ": "@ + instruction_text(i) + "\n"@
}

/// The lines of the first `n` instructions of `code`.
pub open spec fn code_lines(code: Seq<Instruction>, n: nat) -> Seq<char>
    decreases n,
{
    if n == 0 {
        Seq::empty()
    } else {
        code_lines(code, (n - 1) as nat) + code_line((n - 1) as nat, code[n - 1])
    }
}

/// The header line of a function.
pub open spec fn function_header(func_id: u32, f: FunctionDef) -> Seq<char> {
    "func_"@ + dec(func_id as nat) + " "@ + f.name@ + "(params="@ + dec(f.param_count as nat)
        + ", param_slots="@ + dec(f.param_slots as nat) + ", locals="@ + dec(f.local_slots as nat)
        + ", ret="@ + dec(f.ret_slots as nat) + "):\n"@
}

/// The text of a function: its header, then one line per instruction.
pub open spec fn function_text(func_id: u32, f: FunctionDef) -> Seq<char> {
    function_header(func_id, f) + code_lines(f.code@, f.code@.len())
}

/// Renders one function with its code.
pub fn format_function(func_id: u32, f: &FunctionDef) -> (s: String)
    ensures
        s@ == function_text(func_id, *f),
{
    let mut out = String::from_str("func_");
    push_dec(&mut out, func_id as u64);
    out.append(" ");
    out.append(f.name.as_str());
    out.append("(params=");
    push_dec(&mut out, f.param_count as u64);
    out.append(", param_slots=");
    push_dec(&mut out, f.param_slots as u64);
    out.append(", locals=");
    push_dec(&mut out, f.local_slots as u64);
    out.append(", ret=");
    push_dec(&mut out, f.ret_slots as u64);
    out.append("):\n");
    let mut lines = String::new();
    let mut pc: usize = 0;
    while pc < f.code.len()
        invariant
            pc <= f.code@.len(),
            lines@ == code_lines(f.code@, pc as nat),
        decreases f.code@.len() - pc,
    {
        let mut line = String::from_str("  ");
        let pc_text = dec_string(pc as u64);
        push_zero_padded(&mut line, pc_text.as_str(), 4);
        line.append(": ");
        let instr_text = format_instruction(&f.code[pc]);
        line.append(instr_text.as_str());
        line.append("\n");
        lines.append(line.as_str());
        pc = pc + 1;
    }
    out.append(lines.as_str());
    out
}

// =============================================================================
// Constants
// =============================================================================

/// The text of a constant-pool entry.
pub open spec fn constant_text(c: Constant) -> Seq<char> {
    match c {
        Constant::Nil => "nil"@,
        Constant::Bool(b) => "bool "@ + (if b { "true"@ } else { "false"@ }),
        Constant::Int(i) => "int "@ + sdec(i as int),
        Constant::Float(t) => "float "@ + t@,
        Constant::String(s) => "string "@ + str_debug(s@),
    }
}

/// Renders a constant-pool entry.
pub fn format_constant(c: &Constant) -> (s: String)
    ensures
        s@ == constant_text(*c),
{
    match c {
        Constant::Nil => String::from_str("nil"),
        Constant::Bool(b) => {
            let mut s = String::from_str("bool ");
            s.append(if *b { "true" } else { "false" });
            s
        },
        Constant::Int(i) => {
            let mut s = String::from_str("int ");
            push_int(&mut s, *i);
            s
        },
        Constant::Float(t) => {
            let mut s = String::from_str("float ");
            s.append(t.as_str());
            s
        },
        Constant::String(v) => {
            let mut s = String::from_str("string ");
            let q = debug_quoted(v.as_str());
            s.append(q.as_str());
            s
        },
    }
}


// =============================================================================
// Module tables
// =============================================================================

/// The field lines of the first `n` fields of a struct type.
pub open spec fn field_lines(xs: Seq<FieldMeta>, n: nat) -> Seq<char>
    decreases n,
{
    if n == 0 {
        Seq::empty()
    } else {
        field_lines(xs, (n - 1) as nat) + "#   "@ + xs[n - 1].name@ + ": offset="@ + dec(xs[n - 1].offset as nat) + ", slots="@
            + dec(xs[n - 1].slot_count as nat) + "\n"@
    }
}

fn format_field_lines(xs: &Vec<FieldMeta>) -> (s: String)
    ensures
        s@ == field_lines(xs@, xs@.len()),
{
    let mut out = String::new();
    let mut i: usize = 0;
    while i < xs.len()
        invariant
            i <= xs@.len(),
            out@ == field_lines(xs@, i as nat),
        decreases xs@.len() - i,
    {
        let x = &xs[i];
        out.append("#   ");
        out.append(x.name.as_str());
        out.append(": offset=");
        push_dec(&mut out, x.offset as u64);
        out.append(", slots=");
        push_dec(&mut out, x.slot_count as u64);
        out.append("\n");
        i = i + 1;
    }
    out
}

/// The entry of struct type `i`: its slot count, then one line per field.
pub open spec fn struct_entry(i: nat, x: StructMeta) -> Seq<char> {
    "# ["@ + dec(i) + "] ("@ + dec(x.slot_count as nat) + " slots)\n"@ + field_lines(x.fields@, x.fields@.len())
}

/// The entries of the first `n` struct types.
pub open spec fn struct_entries(xs: Seq<StructMeta>, n: nat) -> Seq<char>
    decreases n,
{
    if n == 0 {
        Seq::empty()
    } else {
        struct_entries(xs, (n - 1) as nat) + struct_entry((n - 1) as nat, xs[n - 1])
    }
}

fn format_struct_entry(i: usize, x: &StructMeta) -> (s: String)
    ensures
        s@ == struct_entry(i as nat, *x),
{
    let mut s = String::from_str("# [");
    push_dec(&mut s, i as u64);
    s.append("] (");
    push_dec(&mut s, x.slot_count as u64);
    s.append(" slots)\n");
    let fields = format_field_lines(&x.fields);
    s.append(fields.as_str());
    s
}

fn format_struct_entries(xs: &Vec<StructMeta>) -> (s: String)
    ensures
        s@ == struct_entries(xs@, xs@.len()),
{
    let mut out = String::new();
    let mut i: usize = 0;
    while i < xs.len()
        invariant
            i <= xs@.len(),
            out@ == struct_entries(xs@, i as nat),
        decreases xs@.len() - i,
    {
        let e = format_struct_entry(i, &xs[i]);
        out.append(e.as_str());
        i = i + 1;
    }
    out
}

/// The method items of the first `n` methods of a named type.
pub open spec fn method_lines(xs: Seq<(String, MethodInfo)>, n: nat) -> Seq<char>
    decreases n,
{
    if n == 0 {
        Seq::empty()
    } else {
        method_lines(xs, (n - 1) as nat) + " "@ + (if xs[n - 1].1.is_pointer_receiver { "*"@ } else { ""@ }) + xs[n - 1].0@ + "=func_"@
            + dec(xs[n - 1].1.func_id as nat)
    }
}

fn format_method_lines(xs: &Vec<(String, MethodInfo)>) -> (s: String)
    ensures
        s@ == method_lines(xs@, xs@.len()),
{
    let mut out = String::new();
    let mut i: usize = 0;
    while i < xs.len()
        invariant
            i <= xs@.len(),
            out@ == method_lines(xs@, i as nat),
        decreases xs@.len() - i,
    {
        let x = &xs[i];
        out.append(" ");
        out.append(if x.1.is_pointer_receiver { "*" } else { "" });
        out.append(x.0.as_str());
        out.append("=func_");
        push_dec(&mut out, x.1.func_id as u64);
        i = i + 1;
    }
    out
}

/// The entry of named type `i`: its underlying type, then its methods if it has any.
pub open spec fn named_entry(i: nat, x: NamedTypeMeta) -> Seq<char> {
    "# ["@ + dec(i) + "] "@ + x.name@ + " (underlying: meta_id="@ + dec(x.underlying_meta_id as nat)
        + ", vk="@ + dec(x.underlying_value_kind as nat) + ")\n"@ + (if x.methods@.len() > 0 {
        "#   methods:"@ + method_lines(x.methods@, x.methods@.len()) + "\n"@
    } else {
        Seq::empty()
    })
}

/// The entries of the first `n` named types.
pub open spec fn named_entries(xs: Seq<NamedTypeMeta>, n: nat) -> Seq<char>
    decreases n,
{
    if n == 0 {
        Seq::empty()
    } else {
        named_entries(xs, (n - 1) as nat) + named_entry((n - 1) as nat, xs[n - 1])
    }
}

fn format_named_entry(i: usize, x: &NamedTypeMeta) -> (s: String)
    ensures
        s@ == named_entry(i as nat, *x),
{
    let mut s = String::from_str("# [");
    push_dec(&mut s, i as u64);
    s.append("] ");
    s.append(x.name.as_str());
    s.append(" (underlying: meta_id=");
    push_dec(&mut s, x.underlying_meta_id as u64);
    s.append(", vk=");
    push_dec(&mut s, x.underlying_value_kind as u64);
    s.append(")\n");
    let mut m = String::new();
    if x.methods.len() > 0 {
        m.append("#   methods:");
        let items = format_method_lines(&x.methods);
        m.append(items.as_str());
        m.append("\n");
    }
    s.append(m.as_str());
    s
}

fn format_named_entries(xs: &Vec<NamedTypeMeta>) -> (s: String)
    ensures
        s@ == named_entries(xs@, xs@.len()),
{
    let mut out = String::new();
    let mut i: usize = 0;
    while i < xs.len()
        invariant
            i <= xs@.len(),
            out@ == named_entries(xs@, i as nat),
        decreases xs@.len() - i,
    {
        let e = format_named_entry(i, &xs[i]);
        out.append(e.as_str());
        i = i + 1;
    }
    out
}

/// The method lines of the first `n` method names of an interface.
pub open spec fn interface_method_lines(xs: Seq<String>, n: nat) -> Seq<char>
    decreases n,
{
    if n == 0 {
        Seq::empty()
    } else {
        interface_method_lines(xs, (n - 1) as nat) + "#   method "@ + xs[n - 1]@ + "\n"@
    }
}

fn format_interface_method_lines(xs: &Vec<String>) -> (s: String)
    ensures
        s@ == interface_method_lines(xs@, xs@.len()),
{
    let mut out = String::new();
    let mut i: usize = 0;
    while i < xs.len()
        invariant
            i <= xs@.len(),
            out@ == interface_method_lines(xs@, i as nat),
        decreases xs@.len() - i,
    {
        let x = &xs[i];
        out.append("#   method ");
        out.append(x.as_str());
        out.append("\n");
        i = i + 1;
    }
    out
}

/// The entry of interface type `i`: its name, then one line per method.
pub open spec fn interface_entry(i: nat, x: InterfaceMeta) -> Seq<char> {
    "# ["@ + dec(i) + "] "@ + x.name@ + "\n"@ + interface_method_lines(x.method_names@, x.method_names@.len())
}

/// The entries of the first `n` interface types.
pub open spec fn interface_entries(xs: Seq<InterfaceMeta>, n: nat) -> Seq<char>
    decreases n,
{
    if n == 0 {
        Seq::empty()
    } else {
        interface_entries(xs, (n - 1) as nat) + interface_entry((n - 1) as nat, xs[n - 1])
    }
}

fn format_interface_entry(i: usize, x: &InterfaceMeta) -> (s: String)
    ensures
        s@ == interface_entry(i as nat, *x),
{
    let mut s = String::from_str("# [");
    push_dec(&mut s, i as u64);
    s.append("] ");
    s.append(x.name.as_str());
    s.append("\n");
    let ms = format_interface_method_lines(&x.method_names);
    s.append(ms.as_str());
    s
}

fn format_interface_entries(xs: &Vec<InterfaceMeta>) -> (s: String)
    ensures
        s@ == interface_entries(xs@, xs@.len()),
{
    let mut out = String::new();
    let mut i: usize = 0;
    while i < xs.len()
        invariant
            i <= xs@.len(),
            out@ == interface_entries(xs@, i as nat),
        decreases xs@.len() - i,
    {
        let e = format_interface_entry(i, &xs[i]);
        out.append(e.as_str());
        i = i + 1;
    }
    out
}

/// The first `n` ids of `xs`, separated by `", "`.
pub open spec fn id_items(xs: Seq<u32>, n: nat) -> Seq<char>
    decreases n,
{
    if n == 0 {
        Seq::empty()
    } else if n == 1 {
        dec(xs[0] as nat)
    } else {
        id_items(xs, (n - 1) as nat) + ", "@ + dec(xs[n - 1] as nat)
    }
}

/// A list of ids as `Debug` renders a `Vec<u32>`: `[1, 2, 3]`.
pub open spec fn id_list(xs: Seq<u32>) -> Seq<char> {
    "["@ + id_items(xs, xs.len()) + "]"@
}

fn format_id_list(xs: &Vec<u32>) -> (s: String)
    ensures
        s@ == id_list(xs@),
{
    let mut items = String::new();
    let mut i: usize = 0;
    while i < xs.len()
        invariant
            i <= xs@.len(),
            items@ == id_items(xs@, i as nat),
        decreases xs@.len() - i,
    {
        if i > 0 {
            items.append(", ");
        }
        push_dec(&mut items, xs[i] as u64);
        assert(items@ =~= id_items(xs@, (i + 1) as nat));
        i = i + 1;
    }
    let mut s = String::from_str("[");
    s.append(items.as_str());
    s.append("]");
    s
}

/// The entry of method table `i`: the function id of each method.
pub open spec fn itab_entry(i: nat, x: Itab) -> Seq<char> {
    "# ["@ + dec(i) + "] methods: "@ + id_list(x.methods@) + "\n"@
}

/// The entries of the first `n` method tables.
pub open spec fn itab_entries(xs: Seq<Itab>, n: nat) -> Seq<char>
    decreases n,
{
    if n == 0 {
        Seq::empty()
    } else {
        itab_entries(xs, (n - 1) as nat) + itab_entry((n - 1) as nat, xs[n - 1])
    }
}

fn format_itab_entry(i: usize, x: &Itab) -> (s: String)
    ensures
        s@ == itab_entry(i as nat, *x),
{
    let mut s = String::from_str("# [");
    push_dec(&mut s, i as u64);
    s.append("] methods: ");
    let l = format_id_list(&x.methods);
    s.append(l.as_str());
    s.append("\n");
    s
}

fn format_itab_entries(xs: &Vec<Itab>) -> (s: String)
    ensures
        s@ == itab_entries(xs@, xs@.len()),
{
    let mut out = String::new();
    let mut i: usize = 0;
    while i < xs.len()
        invariant
            i <= xs@.len(),
            out@ == itab_entries(xs@, i as nat),
        decreases xs@.len() - i,
    {
        let e = format_itab_entry(i, &xs[i]);
        out.append(e.as_str());
        i = i + 1;
    }
    out
}

/// The entry of constant `i`.
pub open spec fn constant_entry(i: nat, x: Constant) -> Seq<char> {
    "# ["@ + dec(i) + "] "@ + constant_text(x) + "\n"@
}

/// The entries of the first `n` constants.
pub open spec fn constant_entries(xs: Seq<Constant>, n: nat) -> Seq<char>
    decreases n,
{
    if n == 0 {
        Seq::empty()
    } else {
        constant_entries(xs, (n - 1) as nat) + constant_entry((n - 1) as nat, xs[n - 1])
    }
}

fn format_constant_entry(i: usize, x: &Constant) -> (s: String)
    ensures
        s@ == constant_entry(i as nat, *x),
{
    let mut s = String::from_str("# [");
    push_dec(&mut s, i as u64);
    s.append("] ");
    let t = format_constant(x);
    s.append(t.as_str());
    s.append("\n");
    s
}

fn format_constant_entries(xs: &Vec<Constant>) -> (s: String)
    ensures
        s@ == constant_entries(xs@, xs@.len()),
{
    let mut out = String::new();
    let mut i: usize = 0;
    while i < xs.len()
        invariant
            i <= xs@.len(),
            out@ == constant_entries(xs@, i as nat),
        decreases xs@.len() - i,
    {
        let e = format_constant_entry(i, &xs[i]);
        out.append(e.as_str());
        i = i + 1;
    }
    out
}

/// The entry of global `i`: its size, value kind and meta id.
pub open spec fn global_entry(i: nat, x: GlobalDef) -> Seq<char> {
    "# ["@ + dec(i) + "] "@ + x.name@ + ": "@ + dec(x.slots as nat) + " slot(s), vk="@
        + dec(x.value_kind as nat) + ", meta="@ + dec(x.meta_id as nat) + "\n"@
}

/// The entries of the first `n` globals.
pub open spec fn global_entries(xs: Seq<GlobalDef>, n: nat) -> Seq<char>
    decreases n,
{
    if n == 0 {
        Seq::empty()
    } else {
        global_entries(xs, (n - 1) as nat) + global_entry((n - 1) as nat, xs[n - 1])
    }
}

fn format_global_entry(i: usize, x: &GlobalDef) -> (s: String)
    ensures
        s@ == global_entry(i as nat, *x),
{
    let mut s = String::from_str("# [");
    push_dec(&mut s, i as u64);
    s.append("] ");
    s.append(x.name.as_str());
    s.append(": ");
    push_dec(&mut s, x.slots as u64);
    s.append(" slot(s), vk=");
    push_dec(&mut s, x.value_kind as u64);
    s.append(", meta=");
    push_dec(&mut s, x.meta_id as u64);
    s.append("\n");
    s
}

fn format_global_entries(xs: &Vec<GlobalDef>) -> (s: String)
    ensures
        s@ == global_entries(xs@, xs@.len()),
{
    let mut out = String::new();
    let mut i: usize = 0;
    while i < xs.len()
        invariant
            i <= xs@.len(),
            out@ == global_entries(xs@, i as nat),
        decreases xs@.len() - i,
    {
        let e = format_global_entry(i, &xs[i]);
        out.append(e.as_str());
        i = i + 1;
    }
    out
}

/// The entry of host function `i`: its parameter and result slot counts.
pub open spec fn extern_entry(i: nat, x: ExternDef) -> Seq<char> {
    "# ["@ + dec(i) + "] "@ + x.name@ + "("@ + dec(x.param_slots as nat) + ") -> "@
        + dec(x.ret_slots as nat) + "\n"@
}

/// The entries of the first `n` host functions.
pub open spec fn extern_entries(xs: Seq<ExternDef>, n: nat) -> Seq<char>
    decreases n,
{
    if n == 0 {
        Seq::empty()
    } else {
        extern_entries(xs, (n - 1) as nat) + extern_entry((n - 1) as nat, xs[n - 1])
    }
}

fn format_extern_entry(i: usize, x: &ExternDef) -> (s: String)
    ensures
        s@ == extern_entry(i as nat, *x),
{
    let mut s = String::from_str("# [");
    push_dec(&mut s, i as u64);
    s.append("] ");
    s.append(x.name.as_str());
    s.append("(");
    push_dec(&mut s, x.param_slots as u64);
    s.append(") -> ");
    push_dec(&mut s, x.ret_slots as u64);
    s.append("\n");
    s
}

fn format_extern_entries(xs: &Vec<ExternDef>) -> (s: String)
    ensures
        s@ == extern_entries(xs@, xs@.len()),
{
    let mut out = String::new();
    let mut i: usize = 0;
    while i < xs.len()
        invariant
            i <= xs@.len(),
            out@ == extern_entries(xs@, i as nat),
        decreases xs@.len() - i,
    {
        let e = format_extern_entry(i, &xs[i]);
        out.append(e.as_str());
        i = i + 1;
    }
    out
}

/// The entry of function `i`: its text followed by a blank line.
pub open spec fn function_entry(i: nat, x: FunctionDef) -> Seq<char> {
    function_text(i as u32, x) + "\n"@
}

/// The entries of the first `n` functions.
pub open spec fn function_entries(xs: Seq<FunctionDef>, n: nat) -> Seq<char>
    decreases n,
{
    if n == 0 {
        Seq::empty()
    } else {
        function_entries(xs, (n - 1) as nat) + function_entry((n - 1) as nat, xs[n - 1])
    }
}

fn format_function_entry(i: usize, x: &FunctionDef) -> (s: String)
    ensures
        s@ == function_entry(i as nat, *x),
{
    let mut s = format_function(i as u32, x);
    s.append("\n");
    s
}

fn format_function_entries(xs: &Vec<FunctionDef>) -> (s: String)
    ensures
        s@ == function_entries(xs@, xs@.len()),
{
    let mut out = String::new();
    let mut i: usize = 0;
    while i < xs.len()
        invariant
            i <= xs@.len(),
            out@ == function_entries(xs@, i as nat),
        decreases xs@.len() - i,
    {
        let e = format_function_entry(i, &xs[i]);
        out.append(e.as_str());
        i = i + 1;
    }
    out
}

// =============================================================================
// Modules
// =============================================================================

/// A titled section: shown only when its table is not empty, and then
/// followed by a blank line.
pub open spec fn section(nonempty: bool, title: Seq<char>, body: Seq<char>) -> Seq<char> {
    if nonempty {
        title + body + "\n"@
    } else {
        Seq::empty()
    }
}

fn push_section(out: &mut String, nonempty: bool, title: &str, body: String)
    ensures
        final(out)@ == old(out)@ + section(nonempty, title@, body@),
{
    let mut s = String::new();
    if nonempty {
        s.append(title);
        s.append(body.as_str());
        s.append("\n");
        assert(s@ =~= section(nonempty, title@, body@));
    } else {
        assert(s@ =~= section(nonempty, title@, body@));
    }
    out.append(s.as_str());
}

/// The two header lines of a module's text.
pub open spec fn module_header(m: Module) -> Seq<char> {
    "# Module: "@ + m.name@ + "\n"@ + "# Entry: func_"@ + dec(m.entry_func as nat) + "\n\n"@
}

/// The text form of a module: the header; a section for each non-empty
/// table of struct types, named types, interface types, method tables,
/// constants, globals and host functions, in that order; then every
/// function.
pub open spec fn module_text(m: Module) -> Seq<char> {
    module_header(m)
        + section(m.struct_metas@.len() > 0, "## Struct Types\n"@, struct_entries(m.struct_metas@, m.struct_metas@.len()))
        + section(m.named_type_metas@.len() > 0, "## Named Types\n"@, named_entries(m.named_type_metas@, m.named_type_metas@.len()))
        + section(m.interface_metas@.len() > 0, "## Interface Types\n"@, interface_entries(m.interface_metas@, m.interface_metas@.len()))
        + section(m.itabs@.len() > 0, "## Itabs\n"@, itab_entries(m.itabs@, m.itabs@.len()))
        + section(m.constants@.len() > 0, "## Constants\n"@, constant_entries(m.constants@, m.constants@.len()))
        + section(m.globals@.len() > 0, "## Globals\n"@, global_entries(m.globals@, m.globals@.len()))
        + section(m.externs@.len() > 0, "## Externs\n"@, extern_entries(m.externs@, m.externs@.len()))
        + "## Functions\n\n"@ + function_entries(m.functions@, m.functions@.len())
}

/// Formats a module as text.
pub fn format_text(module: &Module) -> (s: String)
    ensures
        s@ == module_text(*module),
{
    let mut out = String::from_str("# Module: ");
    out.append(module.name.as_str());
    out.append("\n");
    out.append("# Entry: func_");
    push_dec(&mut out, module.entry_func as u64);
    out.append("\n\n");
    push_section(&mut out, module.struct_metas.len() > 0, "## Struct Types\n", format_struct_entries(&module.struct_metas));
    push_section(&mut out, module.named_type_metas.len() > 0, "## Named Types\n", format_named_entries(&module.named_type_metas));
    push_section(&mut out, module.interface_metas.len() > 0, "## Interface Types\n", format_interface_entries(&module.interface_metas));
    push_section(&mut out, module.itabs.len() > 0, "## Itabs\n", format_itab_entries(&module.itabs));
    push_section(&mut out, module.constants.len() > 0, "## Constants\n", format_constant_entries(&module.constants));
    push_section(&mut out, module.globals.len() > 0, "## Globals\n", format_global_entries(&module.globals));
    push_section(&mut out, module.externs.len() > 0, "## Externs\n", format_extern_entries(&module.externs));
    out.append("## Functions\n\n");
    let fs = format_function_entries(&module.functions);
    out.append(fs.as_str());
    out
}

/// The error that `parse_text` reports for text that is not the text form
/// of a module.
pub open spec fn parse_text_error() -> Seq<char> {
    "invalid bytecode text"@
}

/// Parses the bytecode text format into a module.
///
/// A module is returned only when formatting it gives back exactly
/// `input`; any other text is refused with `parse_text_error`. The text of
/// every plain module (see `plain_module`) is read back.
pub fn parse_text(input: &str) -> (r: Result<Module, String>)
    ensures
        r matches Ok(m) ==> module_text(m) == input@,
        r matches Err(e) ==> e@ == parse_text_error(),
        (exists|m: Module| plain_module(m) && input@ == module_text(m)) ==> r is Ok,
{
    match read_module(input) {
        Some(m) => {
            let text = format_text(&m);
            let given = String::from_str(input);
            if text == given {
                Ok(m)
            } else {
                Err(String::from_str("invalid bytecode text"))
            }
        },
        None => Err(String::from_str("invalid bytecode text")),
    }
}

} // verus!
