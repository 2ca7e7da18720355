use vox::bytecode::{
    Constant, ExternDef, FieldMeta, FunctionDef, GlobalDef, InterfaceMeta, Instruction, Itab, MethodInfo,
    Module, NamedTypeMeta, Opcode, StructMeta,
};
use vox::format::{format_constant, format_function, format_instruction, format_text, parse_text};

fn instr(opcode: Opcode, a: u16, b: u16, c: u16, flags: u8) -> Instruction {
    Instruction { op: 0, opcode, flags, a, b, c }
}

fn empty_module(name: &str) -> Module {
    Module {
        name: name.to_string(),
        entry_func: 0,
        struct_metas: vec![],
        named_type_metas: vec![],
        interface_metas: vec![],
        itabs: vec![],
        constants: vec![],
        globals: vec![],
        externs: vec![],
        functions: vec![],
    }
}

#[test]
fn three_register_instruction() {
    assert_eq!(format_instruction(&instr(Opcode::AddI, 1, 2, 3, 0)), "AddI          r1, r2, r3");
    assert_eq!(format_instruction(&instr(Opcode::StrDecodeRune, 4, 5, 6, 0)), "StrDecodeRune r4, r5, r6");
}

#[test]
fn immediate_instructions() {
    let i = instr(Opcode::LoadInt, 0, 0xFFFB, 0xFFFF, 0);
    assert_eq!(i.imm32(), -5);
    assert_eq!(format_instruction(&i), "LoadInt       r0, -5");
    let h = instr(Opcode::Hint, 7, 0x2800, 0xEE6B, 3);
    assert_eq!(h.imm32_unsigned(), 4000000000);
    assert_eq!(format_instruction(&h), "Hint          flags=3, a=7, bc=4000000000");
    let j = instr(Opcode::JumpIfNot, 2, 0xFFF4, 0xFFFF, 0);
    assert_eq!(format_instruction(&j), "JumpIfNot     r2, pc_-12");
}

#[test]
fn call_instruction_decodes_packed_operands() {
    let i = instr(Opcode::Call, 5, 2, (3 << 8) | 1, 1);
    assert_eq!(format_instruction(&i), "Call          func_65541, args=r2, arg_slots=3, ret_slots=1");
    let c = instr(Opcode::CallIface, 1, 4, (2 << 8) | 3, 9);
    assert_eq!(format_instruction(&c), "CallIface     r1, r4, method=9, arg_slots=2, ret_slots=3");
}

#[test]
fn return_with_and_without_values() {
    assert_eq!(format_instruction(&instr(Opcode::Return, 0, 0, 0, 0)), "Return");
    assert_eq!(format_instruction(&instr(Opcode::Return, 1, 2, 0, 0)), "Return        r1, count=2");
}

#[test]
fn slice_slice_modes() {
    assert_eq!(format_instruction(&instr(Opcode::SliceSlice, 1, 2, 3, 3)), "SliceSlice    r1, r2[r3:], src=array, has_max");
    assert_eq!(format_instruction(&instr(Opcode::SliceSlice, 1, 2, 3, 0)), "SliceSlice    r1, r2[r3:], src=slice");
}

#[test]
fn trunc_type_names() {
    assert_eq!(format_instruction(&instr(Opcode::Trunc, 1, 2, 0, 0x84)), "Trunc         r1, r2, i32");
    assert_eq!(format_instruction(&instr(Opcode::Trunc, 1, 2, 0, 0x01)), "Trunc         r1, r2, u8");
    assert_eq!(format_instruction(&instr(Opcode::Trunc, 1, 2, 0, 0x03)), "Trunc         r1, r2, ?");
}

#[test]
fn go_and_defer_forms() {
    assert_eq!(format_instruction(&instr(Opcode::GoStart, 3, 4, 2, 1)), "GoStart       closure=r3, args=r4, slots=2");
    assert_eq!(format_instruction(&instr(Opcode::GoStart, 7, 4, 2, 2)), "GoStart       func_65543, args=r4, slots=2");
    assert_eq!(format_instruction(&instr(Opcode::ErrDeferPush, 7, 1, 0, 0)), "ErrDeferPush  func_7, args=r1, slots=0");
    assert_eq!(format_instruction(&instr(Opcode::ClosureNew, 1, 9, 2, 1)), "ClosureNew    r1, func_65545, captures=2");
}

#[test]
fn flag_fields() {
    assert_eq!(
        format_instruction(&instr(Opcode::MapIterNext, 1, 2, 3, 0x21)),
        "MapIterNext   r1, iter=r2, ok=r3, key_slots=1, val_slots=2"
    );
    assert_eq!(format_instruction(&instr(Opcode::ChanRecv, 1, 2, 0, 0x05)), "ChanRecv      r1, r2, slots=2");
    assert_eq!(format_instruction(&instr(Opcode::PortRecv, 1, 2, 0, 0x05)), "PortRecv      r1, r2, elem_slots=2, has_ok=1");
}

#[test]
fn for_loop_offset_is_signed() {
    assert_eq!(format_instruction(&instr(Opcode::ForLoop, 1, 2, 0xFFFF, 0)), "ForLoop       r1, r2, offset=-1, flags=0");
}

#[test]
fn invalid_instruction_shows_raw_opcode() {
    let mut i = instr(Opcode::Invalid, 1, 2, 3, 0);
    i.op = 200;
    assert_eq!(format_instruction(&i), "Invalid       op=200, flags=0, a=1, b=2, c=3");
}

#[test]
fn constants() {
    assert_eq!(format_constant(&Constant::Nil), "nil");
    assert_eq!(format_constant(&Constant::Bool(true)), "bool true");
    assert_eq!(format_constant(&Constant::Int(-3)), "int -3");
    assert_eq!(format_constant(&Constant::Float("1.5".to_string())), "float 1.5");
    assert_eq!(format_constant(&Constant::String("a\"b\n".to_string())), "string \"a\\\"b\\n\"");
}

#[test]
fn function_lines_are_numbered() {
    let li = instr(Opcode::LoadInt, 0, 42, 0, 0);
    let f = FunctionDef {
        name: "main".to_string(),
        param_count: 1,
        param_slots: 2,
        local_slots: 3,
        ret_slots: 4,
        code: vec![li, instr(Opcode::Return, 0, 0, 0, 0)],
    };
    assert_eq!(
        format_function(9, &f),
        "func_9 main(params=1, param_slots=2, locals=3, ret=4):\n  0000: LoadInt       r0, 42\n  0001: Return\n"
    );
}

#[test]
fn minimal_module_text() {
    let mut m = empty_module("demo");
    m.entry_func = 0;
    m.functions.push(FunctionDef {
        name: "main".to_string(),
        param_count: 0,
        param_slots: 0,
        local_slots: 0,
        ret_slots: 0,
        code: vec![instr(Opcode::Return, 0, 0, 0, 0)],
    });
    assert_eq!(
        format_text(&m),
        "# Module: demo\n# Entry: func_0\n\n## Functions\n\nfunc_0 main(params=0, param_slots=0, locals=0, ret=0):\n  0000: Return\n\n"
    );
}

#[test]
fn module_sections_in_order() {
    let mut m = empty_module("m");
    m.entry_func = 3;
    m.struct_metas.push(StructMeta {
        slot_count: 2,
        fields: vec![FieldMeta { name: "x".to_string(), offset: 0, slot_count: 1 }, FieldMeta { name: "y".to_string(), offset: 1, slot_count: 1 }],
    });
    m.named_type_metas.push(NamedTypeMeta {
        name: "Point".to_string(),
        underlying_meta_id: 5,
        underlying_value_kind: 7,
        methods: vec![
            ("Len".to_string(), MethodInfo { func_id: 2, is_pointer_receiver: false }),
            ("Move".to_string(), MethodInfo { func_id: 4, is_pointer_receiver: true }),
        ],
    });
    m.named_type_metas.push(NamedTypeMeta { name: "Id".to_string(), underlying_meta_id: 1, underlying_value_kind: 2, methods: vec![] });
    m.interface_metas.push(InterfaceMeta { name: "Shape".to_string(), method_names: vec!["Area".to_string()] });
    m.itabs.push(Itab { methods: vec![1, 2, 3] });
    m.itabs.push(Itab { methods: vec![] });
    m.constants.push(Constant::Int(10));
    m.globals.push(GlobalDef { name: "g".to_string(), slots: 1, value_kind: 3, meta_id: 8 });
    m.externs.push(ExternDef { name: "print".to_string(), param_slots: 2, ret_slots: 0 });
    let expected = "# Module: m\n# Entry: func_3\n\n\
## Struct Types\n# [0] (2 slots)\n#   x: offset=0, slots=1\n#   y: offset=1, slots=1\n\n\
## Named Types\n# [0] Point (underlying: meta_id=5, vk=7)\n#   methods: Len=func_2 *Move=func_4\n# [1] Id (underlying: meta_id=1, vk=2)\n\n\
## Interface Types\n# [0] Shape\n#   method Area\n\n\
## Itabs\n# [0] methods: [1, 2, 3]\n# [1] methods: []\n\n\
## Constants\n# [0] int 10\n\n\
## Globals\n# [0] g: 1 slot(s), vk=3, meta=8\n\n\
## Externs\n# [0] print(2) -> 0\n\n\
## Functions\n\n";
    assert_eq!(format_text(&m), expected);
}

#[test]
fn parse_text_refuses_malformed_text() {
    for bad in ["", "# Module: x\n", "hello", "# Module: m\n# Entry: func_0\n\n## Functions\n\nfunc_0 main(params=0"] {
        match parse_text(bad) {
            Ok(_) => panic!("malformed text must be refused"),
            Err(e) => assert_eq!(e, "invalid bytecode text"),
        }
    }
}

fn round_trip(m: &Module) {
    let text = format_text(m);
    match parse_text(&text) {
        Ok(back) => assert_eq!(format_text(&back), text),
        Err(e) => panic!("{} on:\n{}", e, text),
    }
}

#[test]
fn parse_text_reads_back_a_full_module() {
    let mut m = empty_module("demo/app");
    m.entry_func = 1;
    m.struct_metas.push(StructMeta {
        slot_count: 2,
        fields: vec![FieldMeta { name: "x".to_string(), offset: 0, slot_count: 1 }, FieldMeta { name: "y".to_string(), offset: 1, slot_count: 1 }],
    });
    m.struct_metas.push(StructMeta { slot_count: 0, fields: vec![] });
    m.named_type_metas.push(NamedTypeMeta {
        name: "Point".to_string(),
        underlying_meta_id: 5,
        underlying_value_kind: 7,
        methods: vec![
            ("Len".to_string(), MethodInfo { func_id: 2, is_pointer_receiver: false }),
            ("Move".to_string(), MethodInfo { func_id: 4, is_pointer_receiver: true }),
        ],
    });
    m.named_type_metas.push(NamedTypeMeta { name: "Id".to_string(), underlying_meta_id: 1, underlying_value_kind: 2, methods: vec![] });
    m.interface_metas.push(InterfaceMeta { name: "Shape".to_string(), method_names: vec!["Area".to_string(), "Perim".to_string()] });
    m.interface_metas.push(InterfaceMeta { name: "Empty".to_string(), method_names: vec![] });
    m.itabs.push(Itab { methods: vec![1, 2, 3] });
    m.itabs.push(Itab { methods: vec![] });
    m.itabs.push(Itab { methods: vec![4000000000] });
    m.constants.push(Constant::Nil);
    m.constants.push(Constant::Bool(true));
    m.constants.push(Constant::Bool(false));
    m.constants.push(Constant::Int(-9223372036854775808));
    m.constants.push(Constant::Int(42));
    m.constants.push(Constant::Float("2.5e10".to_string()));
    m.constants.push(Constant::String("a\"b\n\t\\ é \u{7f} ok".to_string()));
    m.constants.push(Constant::String(String::new()));
    m.globals.push(GlobalDef { name: "g".to_string(), slots: 1, value_kind: 3, meta_id: 8 });
    m.globals.push(GlobalDef { name: "pkg.var".to_string(), slots: 12, value_kind: 0, meta_id: 0 });
    m.externs.push(ExternDef { name: "fmt.Println".to_string(), param_slots: 2, ret_slots: 0 });
    m.functions.push(FunctionDef { name: "init".to_string(), param_count: 0, param_slots: 0, local_slots: 0, ret_slots: 0, code: vec![] });
    m.functions.push(FunctionDef {
        name: "main".to_string(),
        param_count: 1,
        param_slots: 2,
        local_slots: 3,
        ret_slots: 4,
        code: vec![instr(Opcode::LoadInt, 0, 0xFFFB, 0xFFFF, 0), instr(Opcode::Return, 0, 0, 0, 0)],
    });
    round_trip(&m);
    let back = parse_text(&format_text(&m)).unwrap();
    assert_eq!(back.name, "demo/app");
    assert_eq!(back.entry_func, 1);
    assert_eq!(back.functions.len(), 2);
    assert_eq!(back.functions[1].code[0].imm32(), -5);
}

#[test]
fn parse_text_reads_back_names_holding_separators() {
    let mut m = empty_module("m: (x) -> y");
    m.interface_metas.push(InterfaceMeta { name: "# [0] I".to_string(), method_names: vec!["#   method x".to_string(), "".to_string()] });
    m.itabs.push(Itab { methods: vec![0, 7] });
    m.struct_metas.push(StructMeta {
        slot_count: 3,
        fields: vec![FieldMeta { name: "a: offset=1, slots=2".to_string(), offset: 5, slot_count: 6 }, FieldMeta { name: String::new(), offset: 0, slot_count: 0 }],
    });
    m.struct_metas.push(StructMeta { slot_count: 0, fields: vec![] });
    m.named_type_metas.push(NamedTypeMeta {
        name: "T (underlying: meta_id=1, vk=2)".to_string(),
        underlying_meta_id: 3,
        underlying_value_kind: 4,
        methods: vec![
            ("a b".to_string(), MethodInfo { func_id: 5, is_pointer_receiver: false }),
            ("*p".to_string(), MethodInfo { func_id: 6, is_pointer_receiver: false }),
            ("q".to_string(), MethodInfo { func_id: 7, is_pointer_receiver: true }),
        ],
    });
    m.named_type_metas.push(NamedTypeMeta { name: String::new(), underlying_meta_id: 0, underlying_value_kind: 0, methods: vec![] });
    m.constants.push(Constant::Float("1.0 (x): y".to_string()));
    m.constants.push(Constant::Int(-1));
    m.globals.push(GlobalDef { name: "a: 1 slot(s), vk=2, meta=3".to_string(), slots: 4, value_kind: 5, meta_id: 6 });
    m.externs.push(ExternDef { name: "f(1) -> 2".to_string(), param_slots: 3, ret_slots: 4 });
    m.functions.push(FunctionDef { name: "main".to_string(), param_count: 0, param_slots: 0, local_slots: 0, ret_slots: 0, code: vec![] });
    m.functions.push(FunctionDef { name: "f(params=1, ret=2)".to_string(), param_count: 3, param_slots: 4, local_slots: 5, ret_slots: 6, code: vec![] });
    round_trip(&m);
    let back = parse_text(&format_text(&m)).unwrap();
    assert_eq!(back.functions[1].name, "f(params=1, ret=2)");
    assert_eq!(back.functions[1].local_slots, 5);
    assert_eq!(back.globals[0].name, "a: 1 slot(s), vk=2, meta=3");
    assert_eq!(back.globals[0].slots, 4);
    assert_eq!(back.externs[0].name, "f(1) -> 2");
    assert_eq!(back.externs[0].param_slots, 3);
    assert_eq!(back.interface_metas[0].method_names.len(), 2);
    assert_eq!(back.itabs[0].methods, vec![0, 7]);
    assert_eq!(back.struct_metas[0].fields[0].name, "a: offset=1, slots=2");
    assert_eq!(back.struct_metas[0].fields[0].offset, 5);
    assert_eq!(back.struct_metas.len(), 2);
    assert_eq!(back.named_type_metas[0].name, "T (underlying: meta_id=1, vk=2)");
    assert_eq!(back.named_type_metas[0].underlying_meta_id, 3);
    assert_eq!(back.named_type_metas[0].methods[0].0, "a b");
    assert_eq!(back.named_type_metas[0].methods.len(), 3);
}

fn has_line(text: &str, line: &str) -> bool {
    text.lines().any(|l| l == line)
}

#[test]
fn section_title_lines_follow_the_tables() {
    let mut m = empty_module("m");
    let text = format_text(&m);
    for title in ["## Struct Types", "## Named Types", "## Interface Types", "## Itabs", "## Constants", "## Globals", "## Externs"] {
        assert!(!has_line(&text, title));
    }
    assert!(has_line(&text, "## Functions"));
    m.globals.push(GlobalDef { name: "## Struct Types".to_string(), slots: 1, value_kind: 0, meta_id: 0 });
    m.externs.push(ExternDef { name: "x".to_string(), param_slots: 0, ret_slots: 0 });
    let text = format_text(&m);
    assert!(has_line(&text, "## Globals"));
    assert!(has_line(&text, "## Externs"));
    assert!(!has_line(&text, "## Struct Types"));
    assert_eq!(text.lines().filter(|l| *l == "## Functions").count(), 1);
}

const ALL_OPCODES: [Opcode; 132] = [Opcode::Hint, Opcode::LoadInt, Opcode::LoadConst, Opcode::Copy, Opcode::CopyN, Opcode::SlotGet, Opcode::SlotSet, Opcode::SlotGetN, Opcode::SlotSetN, Opcode::GlobalGet, Opcode::GlobalGetN, Opcode::GlobalSet, Opcode::GlobalSetN, Opcode::PtrNew, Opcode::PtrGet, Opcode::PtrSet, Opcode::PtrGetN, Opcode::PtrSetN, Opcode::PtrAdd, Opcode::AddI, Opcode::SubI, Opcode::MulI, Opcode::DivI, Opcode::DivU, Opcode::ModI, Opcode::ModU, Opcode::NegI, Opcode::AddF, Opcode::SubF, Opcode::MulF, Opcode::DivF, Opcode::NegF, Opcode::EqI, Opcode::NeI, Opcode::LtI, Opcode::LeI, Opcode::GtI, Opcode::GeI, Opcode::LtU, Opcode::LeU, Opcode::GtU, Opcode::GeU, Opcode::EqF, Opcode::NeF, Opcode::LtF, Opcode::LeF, Opcode::GtF, Opcode::GeF, Opcode::And, Opcode::Or, Opcode::Xor, Opcode::AndNot, Opcode::Not, Opcode::Shl, Opcode::ShrS, Opcode::ShrU, Opcode::BoolNot, Opcode::Jump, Opcode::JumpIf, Opcode::JumpIfNot, Opcode::Call, Opcode::CallExtern, Opcode::CallClosure, Opcode::CallIface, Opcode::Return, Opcode::StrNew, Opcode::StrLen, Opcode::StrIndex, Opcode::StrConcat, Opcode::StrSlice, Opcode::StrEq, Opcode::StrNe, Opcode::StrLt, Opcode::StrLe, Opcode::StrGt, Opcode::StrGe, Opcode::StrDecodeRune, Opcode::ArrayNew, Opcode::ArrayGet, Opcode::ArraySet, Opcode::ArrayAddr, Opcode::SliceNew, Opcode::SliceGet, Opcode::SliceSet, Opcode::SliceLen, Opcode::SliceCap, Opcode::SliceSlice, Opcode::SliceAppend, Opcode::SliceAddr, Opcode::MapNew, Opcode::MapGet, Opcode::MapSet, Opcode::MapDelete, Opcode::MapLen, Opcode::MapIterInit, Opcode::MapIterNext, Opcode::ChanNew, Opcode::ChanSend, Opcode::ChanRecv, Opcode::ChanClose, Opcode::ChanLen, Opcode::ChanCap, Opcode::SelectBegin, Opcode::SelectSend, Opcode::SelectRecv, Opcode::SelectExec, Opcode::ClosureNew, Opcode::ClosureGet, Opcode::GoStart, Opcode::DeferPush, Opcode::ErrDeferPush, Opcode::Panic, Opcode::Recover, Opcode::IfaceAssign, Opcode::IfaceAssert, Opcode::IfaceEq, Opcode::ConvI2F, Opcode::ConvF2I, Opcode::ConvF64F32, Opcode::ConvF32F64, Opcode::Trunc, Opcode::IndexCheck, Opcode::IslandNew, Opcode::PortNew, Opcode::PortSend, Opcode::PortRecv, Opcode::PortClose, Opcode::PortLen, Opcode::PortCap, Opcode::GoIsland, Opcode::ForLoop, Opcode::Invalid];

#[test]
fn parse_text_reads_back_every_instruction() {
    let samples = [(1u16, 2u16, 3u16, 0u8), (7, 0xFFF4, 0xFFFF, 0x21), (0, 0, 0, 0), (65535, 65535, 65535, 255), (3, 4, 0x0201, 0x84), (2, 9, 513, 6)];
    let mut failed = Vec::new();
    for op in ALL_OPCODES.iter() {
        for (a, b, c, flags) in samples.iter() {
            let mut i = instr(*op, *a, *b, *c, *flags);
            i.op = 200;
            let mut m = empty_module("ops");
            m.functions.push(FunctionDef { name: "f".to_string(), param_count: 0, param_slots: 0, local_slots: 0, ret_slots: 0, code: vec![i] });
            let text = format_text(&m);
            match parse_text(&text) {
                Ok(back) if format_text(&back) == text => {}
                _ => failed.push(format_instruction(&i)),
            }
        }
    }
    assert!(failed.is_empty(), "not read back: {:?}", failed);
}

#[test]
fn immediate_from_b_and_c() {
    let i = instr(Opcode::Jump, 0, 0x5678, 0x1234, 0);
    assert_eq!(i.imm32_unsigned(), 0x12345678);
    assert_eq!(i.imm32(), 0x12345678);
    let n = instr(Opcode::Jump, 0, 0xFFFF, 0xFFFF, 0);
    assert_eq!(n.imm32(), -1);
    assert_eq!(format_instruction(&n), "Jump          pc_-1");
}
