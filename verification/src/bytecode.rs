//! The compiled-program model that the bytecode formatter reads.
//!
//! Each type holds, as plain values, what the text form of a module shows:
//! names, counts, ids and the decoded fields of every instruction.

use vstd::prelude::*;

verus! {

/// Instruction operation codes.
#[derive(Clone, Copy, PartialEq, Eq, Debug)]
pub enum Opcode {
    Hint,
    LoadInt,
    LoadConst,
    Copy,
    CopyN,
    SlotGet,
    SlotSet,
    SlotGetN,
    SlotSetN,
    GlobalGet,
    GlobalGetN,
    GlobalSet,
    GlobalSetN,
    PtrNew,
    PtrGet,
    PtrSet,
    PtrGetN,
    PtrSetN,
    PtrAdd,
    AddI,
    SubI,
    MulI,
    DivI,
    DivU,
    ModI,
    ModU,
    NegI,
    AddF,
    SubF,
    MulF,
    DivF,
    NegF,
    EqI,
    NeI,
    LtI,
    LeI,
    GtI,
    GeI,
    LtU,
    LeU,
    GtU,
    GeU,
    EqF,
    NeF,
    LtF,
    LeF,
    GtF,
    GeF,
    And,
    Or,
    Xor,
    AndNot,
    Not,
    Shl,
    ShrS,
    ShrU,
    BoolNot,
    Jump,
    JumpIf,
    JumpIfNot,
    Call,
    CallExtern,
    CallClosure,
    CallIface,
    Return,
    StrNew,
    StrLen,
    StrIndex,
    StrConcat,
    StrSlice,
    StrEq,
    StrNe,
    StrLt,
    StrLe,
    StrGt,
    StrGe,
    StrDecodeRune,
    ArrayNew,
    ArrayGet,
    ArraySet,
    ArrayAddr,
    SliceNew,
    SliceGet,
    SliceSet,
    SliceLen,
    SliceCap,
    SliceSlice,
    SliceAppend,
    SliceAddr,
    MapNew,
    MapGet,
    MapSet,
    MapDelete,
    MapLen,
    MapIterInit,
    MapIterNext,
    ChanNew,
    ChanSend,
    ChanRecv,
    ChanClose,
    ChanLen,
    ChanCap,
    SelectBegin,
    SelectSend,
    SelectRecv,
    SelectExec,
    ClosureNew,
    ClosureGet,
    GoStart,
    DeferPush,
    ErrDeferPush,
    Panic,
    Recover,
    IfaceAssign,
    IfaceAssert,
    IfaceEq,
    ConvI2F,
    ConvF2I,
    ConvF64F32,
    ConvF32F64,
    Trunc,
    IndexCheck,
    IslandNew,
    PortNew,
    PortSend,
    PortRecv,
    PortClose,
    PortLen,
    PortCap,
    GoIsland,
    ForLoop,
    Invalid,
}

/// One decoded instruction.
///
/// `op` is the raw operation byte, `opcode` its decoding. The `b` and `c`
/// operands together form a 32-bit immediate, `b` its low half.
#[derive(Clone, Copy, Debug)]
pub struct Instruction {
    pub op: u8,
    pub opcode: Opcode,
    pub flags: u8,
    pub a: u16,
    pub b: u16,
    pub c: u16,
}

/// The 32-bit immediate of `i`, unsigned: `b` in the low half, `c` in the
/// high half.
pub open spec fn imm32_unsigned_of(i: Instruction) -> u32 {
    (i.b as u32) | ((i.c as u32) << 16u32)
}

/// The 32-bit immediate of `i`, read as a signed number.
pub open spec fn imm32_of(i: Instruction) -> i32 {
    imm32_unsigned_of(i) as i32
}

impl Instruction {
    /// The 32-bit immediate formed by `b` and `c`, unsigned.
    pub fn imm32_unsigned(&self) -> (r: u32)
        ensures
            r == imm32_unsigned_of(*self),
    {
        (self.b as u32) | ((self.c as u32) << 16u32)
    }

    /// The 32-bit immediate formed by `b` and `c`, signed.
    pub fn imm32(&self) -> (r: i32)
        ensures
            r == imm32_of(*self),
    {
        self.imm32_unsigned() as i32
    }
}

/// A constant-pool entry. A float constant carries its decimal rendering.
#[derive(Clone, Debug)]
pub enum Constant {
    Nil,
    Bool(bool),
    Int(i64),
    Float(String),
    String(String),
}

/// One field of a struct type.
#[derive(Clone, Debug)]
pub struct FieldMeta {
    pub name: String,
    pub offset: u32,
    pub slot_count: u32,
}

/// A struct type: its total slot count and its fields in order.
#[derive(Clone, Debug)]
pub struct StructMeta {
    pub slot_count: u32,
    pub fields: Vec<FieldMeta>,
}

/// How a named type's method is bound.
#[derive(Clone, Copy, Debug)]
pub struct MethodInfo {
    pub func_id: u32,
    pub is_pointer_receiver: bool,
}

/// A named type: its underlying type's meta id and value kind, and its
/// methods in table order.
#[derive(Clone, Debug)]
pub struct NamedTypeMeta {
    pub name: String,
    pub underlying_meta_id: u32,
    pub underlying_value_kind: u8,
    pub methods: Vec<(String, MethodInfo)>,
}

/// An interface type and the names of its methods.
#[derive(Clone, Debug)]
pub struct InterfaceMeta {
    pub name: String,
    pub method_names: Vec<String>,
}

/// An interface method table: the function id of each method.
#[derive(Clone, Debug)]
pub struct Itab {
    pub methods: Vec<u32>,
}

/// A global variable.
#[derive(Clone, Debug)]
pub struct GlobalDef {
    pub name: String,
    pub slots: u32,
    pub value_kind: u8,
    pub meta_id: u32,
}

/// A function provided by the host.
#[derive(Clone, Debug)]
pub struct ExternDef {
    pub name: String,
    pub param_slots: u32,
    pub ret_slots: u32,
}

/// A function of the module with its code.
#[derive(Clone, Debug)]
pub struct FunctionDef {
    pub name: String,
    pub param_count: u32,
    pub param_slots: u32,
    pub local_slots: u32,
    pub ret_slots: u32,
    pub code: Vec<Instruction>,
}

/// A compiled module.
#[derive(Clone, Debug)]
pub struct Module {
    pub name: String,
    pub entry_func: u32,
    pub struct_metas: Vec<StructMeta>,
    pub named_type_metas: Vec<NamedTypeMeta>,
    pub interface_metas: Vec<InterfaceMeta>,
    pub itabs: Vec<Itab>,
    pub constants: Vec<Constant>,
    pub globals: Vec<GlobalDef>,
    pub externs: Vec<ExternDef>,
    pub functions: Vec<FunctionDef>,
}

} // verus!
