use vox::handles::HandleTable;
use vox::standalone::{
    compile_check_reply, compile_reply, free_request, get_module, host_result, host_run_result, load_binary_reply,
    run_capture_reply, run_capture_request, run_file_compiled, run_reply, run_request, save_binary_reply,
    save_binary_request, store_module, unsupported_reply, WebUnsupported,
};

fn tag_value(v: u64) -> Vec<u8> {
    let mut out = vec![0xE2];
    out.extend_from_slice(&v.to_le_bytes());
    out
}

fn tag_bytes(d: &[u8]) -> Vec<u8> {
    let mut out = vec![0xE3];
    out.extend_from_slice(&(d.len() as u32).to_le_bytes());
    out.extend_from_slice(d);
    out
}

fn cat(a: Vec<u8>, b: Vec<u8>) -> Vec<u8> {
    let mut out = a;
    out.extend(b);
    out
}

fn handle_input(id: u64) -> Vec<u8> {
    id.to_le_bytes().to_vec()
}

#[test]
fn host_replies() {
    assert_eq!(host_result(1, vec![7]), Ok(vec![7]));
    assert_eq!(host_result(0, b"err".to_vec()), Err(b"err".to_vec()));
    assert_eq!(host_run_result(vec![]), Ok(()));
    assert_eq!(host_run_result(b"boom".to_vec()), Err(b"boom".to_vec()));
}

#[test]
fn compile_success_stores_and_returns_handle() {
    let mut modules: HandleTable<Vec<u8>> = HandleTable::new();
    store_module(&mut modules, vec![1]);
    let out = compile_reply(&mut modules, Ok(vec![2, 3]));
    assert_eq!(out, cat(tag_value(1), tag_bytes(b"")));
    assert_eq!(get_module(&modules, 1), Some(&vec![2, 3]));
}

#[test]
fn compile_failure_returns_message() {
    let mut modules: HandleTable<Vec<u8>> = HandleTable::new();
    let out = compile_reply(&mut modules, Err(b"syntax error".to_vec()));
    assert_eq!(out, cat(tag_value(0), tag_bytes(b"syntax error")));
    assert_eq!(get_module(&modules, 0), None);
}

#[test]
fn run_request_finds_stored_bytecode() {
    let mut modules: HandleTable<Vec<u8>> = HandleTable::new();
    store_module(&mut modules, vec![5, 6]);
    assert_eq!(run_request(&modules, &handle_input(0)), Ok(&vec![5, 6]));
    assert_eq!(run_request(&modules, &handle_input(4)), Err(tag_bytes(b"invalid module handle")));
    assert_eq!(
        run_capture_request(&modules, &handle_input(4)),
        Err(cat(tag_bytes(b""), tag_bytes(b"invalid module handle")))
    );
    assert_eq!(run_capture_request(&modules, &handle_input(0)), Ok(&vec![5, 6]));
}

#[test]
fn run_results() {
    assert_eq!(run_reply(Ok(())), tag_bytes(b""));
    assert_eq!(run_reply(Err(b"panic".to_vec())), tag_bytes(b"panic"));
    assert_eq!(run_capture_reply(Ok(b"hi\n".to_vec())), cat(tag_bytes(b"hi\n"), tag_bytes(b"")));
    assert_eq!(run_capture_reply(Err(b"e".to_vec())), cat(tag_bytes(b""), tag_bytes(b"e")));
    assert_eq!(run_file_compiled(Ok(vec![1])), Ok(vec![1]));
    assert_eq!(run_file_compiled(Err(b"bad".to_vec())), Err(tag_bytes(b"bad")));
}

#[test]
fn free_forgets_the_module() {
    let mut modules: HandleTable<Vec<u8>> = HandleTable::new();
    store_module(&mut modules, vec![1]);
    assert!(free_request(&mut modules, &handle_input(0)).is_empty());
    assert_eq!(get_module(&modules, 0), None);
    assert_eq!(store_module(&mut modules, vec![2]), 0);
}

#[test]
fn save_binary_request_reads_path_and_module() {
    let mut modules: HandleTable<Vec<u8>> = HandleTable::new();
    store_module(&mut modules, vec![9, 9]);
    let mut input = handle_input(0);
    input.extend_from_slice(&6u32.to_le_bytes());
    input.extend_from_slice(b"out.vb");
    let (path, bc) = save_binary_request(&modules, &input).unwrap();
    assert_eq!(path, b"out.vb");
    assert_eq!(bc, &vec![9, 9]);
    let mut missing = handle_input(1);
    missing.extend_from_slice(&0u32.to_le_bytes());
    assert_eq!(save_binary_request(&modules, &missing).err(), Some(tag_bytes(b"invalid module handle")));
}

#[test]
fn save_and_load_binary_replies() {
    assert_eq!(save_binary_reply(1), tag_bytes(b""));
    assert_eq!(save_binary_reply(0), tag_bytes(b"failed to write bytecode"));
    let mut modules: HandleTable<Vec<u8>> = HandleTable::new();
    assert_eq!(load_binary_reply(&mut modules, Some(vec![4])), cat(tag_value(0), tag_bytes(b"")));
    assert_eq!(get_module(&modules, 0), Some(&vec![4]));
    let failed = cat(tag_value(0), tag_bytes(b"failed to read bytecode file"));
    assert_eq!(load_binary_reply(&mut modules, Some(vec![])), failed);
    assert_eq!(load_binary_reply(&mut modules, None), failed);
    assert_eq!(get_module(&modules, 1), None);
}

#[test]
fn compile_check_result() {
    assert_eq!(compile_check_reply(b""), cat(tag_bytes(b""), tag_bytes(b"")));
    assert_eq!(compile_check_reply(b"type error"), cat(tag_bytes(b"type error"), tag_bytes(b"")));
}

#[test]
fn unsupported_exports() {
    assert_eq!(unsupported_reply(WebUnsupported::Name), tag_bytes(b""));
    assert_eq!(unsupported_reply(WebUnsupported::FreeAst), Vec::<u8>::new());
    assert_eq!(unsupported_reply(WebUnsupported::StopGui), Vec::<u8>::new());
    assert_eq!(
        unsupported_reply(WebUnsupported::FormatBytecode),
        tag_bytes(b"bytecode formatting not available in web mode")
    );
    assert_eq!(
        unsupported_reply(WebUnsupported::ParseFile),
        cat(tag_value(0), tag_bytes(b"AST parsing not available in web mode"))
    );
    assert_eq!(
        unsupported_reply(WebUnsupported::LoadBytecodeText),
        cat(tag_value(0), tag_bytes(b"bytecode text I/O not available in web mode"))
    );
    assert_eq!(
        unsupported_reply(WebUnsupported::RunGui),
        cat(tag_bytes(b""), tag_bytes(b"RunGui not supported via vox in web mode"))
    );
    assert_eq!(
        unsupported_reply(WebUnsupported::Get),
        cat(tag_bytes(b""), tag_bytes(b"vo get is not available in web mode"))
    );
    assert_eq!(unsupported_reply(WebUnsupported::InitFile), tag_bytes(b"InitFile not available in web mode"));
}
