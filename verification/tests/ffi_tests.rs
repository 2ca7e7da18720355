use std::sync::mpsc;
use vox::ast::{File, SymbolInterner};
use vox::bytecode::{FunctionDef, Instruction, Module, Opcode};
use vox::ffi::{
    bytecode_text_to_save, capture_result, compile_check_message, init_project_files, compile_result, created_report, file_exists_error, free_ast,
    free_module, get_module, gui_started, init_file_source, join_messages, load_bytecode_text, loaded_module,
    main_source, mod_source, module_bytecode_text, module_name, module_or_invalid, parse_module_spec, parse_result,
    print_ast, send_gui_event, source_root_of, stop_gui, store_ast, store_module, ExtensionManifest, ParsedAst,
    StoredModule,
};
use vox::gui::{get_module_guest, GuestEvent, GuestHandle, ModuleGuests};
use vox::handles::HandleTable;

fn module(name: &str) -> Module {
    Module {
        name: name.to_string(),
        entry_func: 0,
        struct_metas: vec![],
        named_type_metas: vec![],
        interface_metas: vec![],
        itabs: vec![],
        constants: vec![],
        globals: vec![],
        externs: vec![],
        functions: vec![FunctionDef {
            name: "main".to_string(),
            param_count: 0,
            param_slots: 0,
            local_slots: 0,
            ret_slots: 0,
            code: vec![Instruction { op: 0, opcode: Opcode::Return, flags: 0, a: 0, b: 0, c: 0 }],
        }],
    }
}

fn stored(name: &str) -> StoredModule {
    StoredModule {
        module: module(name),
        source_root: "src".to_string(),
        extensions: vec![ExtensionManifest { name: "gfx".to_string(), native_path: "libgfx.so".to_string() }],
    }
}

const DEMO_TEXT: &str =
    "# Module: demo\n# Entry: func_0\n\n## Functions\n\nfunc_0 main(params=0, param_slots=0, locals=0, ret=0):\n  0000: Return\n\n";

#[test]
fn compiled_modules_get_handles() {
    let mut modules: HandleTable<StoredModule> = HandleTable::new();
    assert_eq!(compile_result(&mut modules, Ok(stored("a"))), Ok(0));
    assert_eq!(compile_result(&mut modules, Err("syntax error at 1:1".to_string())), Err("syntax error at 1:1".to_string()));
    assert_eq!(compile_result(&mut modules, Ok(stored("b"))), Ok(1));
    assert_eq!(get_module(&modules, 1).unwrap().module.name, "b");
    assert_eq!(get_module(&modules, 1).unwrap().extensions[0].name, "gfx");
    free_module(&mut modules, 0);
    assert!(get_module(&modules, 0).is_none());
    assert_eq!(store_module(&mut modules, stored("c")), 0);
}

#[test]
fn module_queries() {
    let mut modules: HandleTable<StoredModule> = HandleTable::new();
    store_module(&mut modules, stored("demo"));
    assert_eq!(module_name(&modules, 0), "demo");
    assert_eq!(module_name(&modules, 5), "");
    assert_eq!(module_bytecode_text(&modules, 0), DEMO_TEXT);
    assert_eq!(module_bytecode_text(&modules, -2), "");
    assert_eq!(bytecode_text_to_save(&modules, 0), Ok(DEMO_TEXT.to_string()));
    assert_eq!(bytecode_text_to_save(&modules, 3), Err("invalid module handle".to_string()));
    assert!(module_or_invalid(&modules, 0).is_ok());
    assert_eq!(module_or_invalid(&modules, 1).err(), Some("invalid module handle".to_string()));
}

#[test]
fn loading_text_is_refused() {
    assert_eq!(load_bytecode_text(), Err("bytecode text parsing not yet implemented".to_string()));
}

#[test]
fn source_roots() {
    assert_eq!(source_root_of("dir/file.bin"), "dir");
    assert_eq!(source_root_of("/a/b/c.vob"), "/a/b");
    assert_eq!(source_root_of("file.bin"), "");
    assert_eq!(source_root_of(""), ".");
    assert_eq!(source_root_of("/"), ".");
}

#[test]
fn loaded_binary_modules() {
    let mut modules: HandleTable<StoredModule> = HandleTable::new();
    assert_eq!(loaded_module(&mut modules, "out/app.vob", Ok(module("app"))), Ok(0));
    let m = get_module(&modules, 0).unwrap();
    assert_eq!(m.source_root, "out");
    assert!(m.extensions.is_empty());
    assert_eq!(m.module.name, "app");
    assert_eq!(loaded_module(&mut modules, "x.vob", Err("bad magic".to_string())), Err("bad magic".to_string()));
    assert!(get_module(&modules, 1).is_none());
}

#[test]
fn messages_are_joined() {
    assert_eq!(join_messages(&vec![]), "");
    assert_eq!(join_messages(&vec!["a".to_string()]), "a");
    assert_eq!(join_messages(&vec!["a".to_string(), "b".to_string(), "c".to_string()]), "a; b; c");
}

fn parsed() -> ParsedAst {
    ParsedAst { file: File { package: Some(0), imports: vec![], decls: vec![] }, interner: SymbolInterner { names: vec!["main".to_string()] } }
}

#[test]
fn parsing_and_printing() {
    let mut asts: HandleTable<ParsedAst> = HandleTable::new();
    let errs = vec!["expected ';'".to_string(), "unexpected EOF".to_string()];
    assert_eq!(parse_result(&mut asts, parsed(), &errs, true), Err("expected ';'; unexpected EOF".to_string()));
    assert_eq!(print_ast(&asts, 0), "");
    assert_eq!(parse_result(&mut asts, parsed(), &vec![], false), Ok(0));
    assert_eq!(print_ast(&asts, 0), "File {\n  package: \"main\",\n}\n");
    assert_eq!(store_ast(&mut asts, parsed()), 1);
    free_ast(&mut asts, 0);
    assert_eq!(print_ast(&asts, 0), "");
    assert_eq!(print_ast(&asts, 1), "File {\n  package: \"main\",\n}\n");
}

type Render = Result<Vec<u8>, String>;

fn guest() -> (GuestHandle, mpsc::Receiver<GuestEvent>, mpsc::Sender<Render>) {
    let (event_tx, event_rx) = mpsc::channel::<GuestEvent>();
    let (render_tx, render_rx) = mpsc::channel::<Render>();
    (GuestHandle::new(event_tx, render_rx), event_rx, render_tx)
}

#[test]
fn gui_session_lifecycle() {
    let mut guests: HandleTable<GuestHandle> = HandleTable::new();
    let mut by_module = ModuleGuests::new();
    let (h, events, renders) = guest();
    assert_eq!(gui_started(&mut guests, &mut by_module, 4, Ok((vec![1, 1], h))), Ok(vec![1, 1]));
    assert_eq!(get_module_guest(&by_module, 4), Some(0));

    renders.send(Ok(vec![2])).unwrap();
    assert_eq!(send_gui_event(&mut guests, &by_module, 4, 9, "{}"), Ok(vec![2]));
    assert!(matches!(events.try_recv(), Ok(GuestEvent::Ide { handler_id: 9, .. })));
    // The handler id is narrowed to 32 bits.
    renders.send(Ok(vec![3])).unwrap();
    assert_eq!(send_gui_event(&mut guests, &by_module, 4, (1i64 << 32) + 5, "{}"), Ok(vec![3]));
    assert!(matches!(events.try_recv(), Ok(GuestEvent::Ide { handler_id: 5, .. })));

    assert_eq!(send_gui_event(&mut guests, &by_module, 2, 1, ""), Err("no running GUI for this module".to_string()));

    stop_gui(&mut guests, &mut by_module, 4);
    assert!(matches!(events.try_recv(), Ok(GuestEvent::Shutdown)));
    assert_eq!(get_module_guest(&by_module, 4), None);
    assert_eq!(send_gui_event(&mut guests, &by_module, 4, 1, ""), Err("no running GUI for this module".to_string()));
    stop_gui(&mut guests, &mut by_module, 4);
}

#[test]
fn gui_start_failure_records_nothing() {
    let mut guests: HandleTable<GuestHandle> = HandleTable::new();
    let mut by_module = ModuleGuests::new();
    assert_eq!(
        gui_started(&mut guests, &mut by_module, 0, Err("guest init failed: x".to_string())),
        Err("guest init failed: x".to_string())
    );
    assert_eq!(get_module_guest(&by_module, 0), None);
}

#[test]
fn gui_event_for_a_guest_that_is_gone() {
    let mut guests: HandleTable<GuestHandle> = HandleTable::new();
    let mut by_module = ModuleGuests::new();
    let (h, _events, _renders) = guest();
    gui_started(&mut guests, &mut by_module, 1, Ok((vec![], h))).unwrap();
    let _ = vox::gui::take_guest_handle(&mut guests, 0);
    assert_eq!(send_gui_event(&mut guests, &by_module, 1, 1, ""), Err("GUI handle not found".to_string()));
}

#[test]
fn compile_check_messages() {
    assert_eq!(compile_check_message(Ok(())), "");
    assert_eq!(compile_check_message(Err("undefined: x".to_string())), "undefined: x");
}

#[test]
fn scaffolding_sources() {
    assert_eq!(main_source(), "package main\n\nimport \"fmt\"\n\nfunc main() {\n\tfmt.Println(\"Hello, Vo!\")\n}\n");
    assert_eq!(mod_source("example.com/app"), "module example.com/app\n\nvo 0.1\n");
    assert_eq!(created_report(true, true), "main.vo\nvo.mod");
    assert_eq!(created_report(true, false), "main.vo");
    assert_eq!(created_report(false, true), "vo.mod");
    assert_eq!(created_report(false, false), "");
}

#[test]
fn init_file_uses_the_file_stem_as_package() {
    assert_eq!(
        init_file_source("pkg/hello.vo"),
        "package hello\n\nimport \"fmt\"\n\nfunc main() {\n\tfmt.Println(\"Hello, Vo!\")\n}\n"
    );
    assert_eq!(init_file_source(""), main_source());
    assert_eq!(file_exists_error("a.vo"), "file already exists: a.vo");
}

#[test]
fn module_specs() {
    assert_eq!(
        parse_module_spec("github.com/foo/bar@v0.1.0"),
        Ok(("github.com/foo/bar".to_string(), "v0.1.0".to_string()))
    );
    assert_eq!(parse_module_spec("a@b@c"), Ok(("a@b".to_string(), "c".to_string())));
    let bad = |s: &str| {
        Err(format!("invalid spec {:?}: expected <module>@<version>, e.g. github.com/foo/bar@v0.1.0", s))
    };
    assert_eq!(parse_module_spec("nover"), bad("nover"));
    assert_eq!(parse_module_spec("@v1"), bad("@v1"));
    assert_eq!(parse_module_spec("mod@"), bad("mod@"));
    assert_eq!(parse_module_spec("q\"x"), bad("q\"x"));
    assert_eq!(
        parse_module_spec("x"),
        Err("invalid spec \"x\": expected <module>@<version>, e.g. github.com/foo/bar@v0.1.0".to_string())
    );
}

#[test]
fn captured_output_is_kept_on_failure() {
    assert_eq!(capture_result("out\n".to_string(), Ok(())), ("out\n".to_string(), None));
    assert_eq!(
        capture_result("partial".to_string(), Err("panic: boom".to_string())),
        ("partial".to_string(), Some("panic: boom".to_string()))
    );
}

#[test]
fn init_project_writes_only_missing_files() {
    let both = init_project_files(false, false, "example.com/app");
    assert_eq!(both.len(), 2);
    assert_eq!(both[0].name, "main.vo");
    assert_eq!(both[0].text, main_source());
    assert_eq!(both[1].name, "vo.mod");
    assert_eq!(both[1].text, "module example.com/app\n\nvo 0.1\n");
    let only_mod = init_project_files(true, false, "m");
    assert_eq!(only_mod.len(), 1);
    assert_eq!(only_mod[0].name, "vo.mod");
    let only_main = init_project_files(false, true, "m");
    assert_eq!(only_main.len(), 1);
    assert_eq!(only_main[0].name, "main.vo");
    assert!(init_project_files(true, true, "m").is_empty());
}
