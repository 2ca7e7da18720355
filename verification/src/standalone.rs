//! The decisions behind the standalone (web) exports.
//!
//! In the standalone build every script-visible operation is an export that
//! takes one encoded argument buffer and returns one encoded result buffer
//! (see `wire`). Compiling and running are done by the host: the export
//! hands the host a path, source text or bytecode, and turns the host's
//! reply into its result. Compiled bytecode is kept here under a handle, so
//! the host stays stateless. Operations that need a real file system or a
//! native GUI answer with a fixed "not available" error.

use vstd::prelude::*;
use vstd::utf8::encode_utf8;

use crate::handles::{HandleTable, emptied, first_free, slot_index, stored};
use crate::wire::{
    output_empty, output_error, output_handle_err, output_handle_ok, output_str_err, output_str_ok,
    output_tag_bytes, read_bytes_arg, read_value_arg, tag_bytes, tag_value, u64_of_le, bytes_arg_len,
};

verus! {

/// The bytes of the error for a handle that names no compiled module.
pub open spec fn invalid_handle_message() -> Seq<u8> {
    encode_utf8("invalid module handle"@)
}

/// The handle id encoded by the value argument at the start of `input`.
pub open spec fn handle_arg(input: Seq<u8>) -> i64 {
    u64_of_le(input.subrange(0, 8)) as i64
}

/// Stores compiled bytecode and returns its handle.
pub fn store_module(modules: &mut HandleTable<Vec<u8>>, bytecode: Vec<u8>) -> (id: i64)
    ensures
        id == first_free(old(modules).slots()) as i64,
        slot_index(id) == first_free(old(modules).slots()),
        final(modules).slots() == stored(old(modules).slots(), bytecode),
        final(modules).lookup(id) == Some(bytecode),
        old(modules).lookup(id) is None,
        forall|other: i64| slot_index(other) != slot_index(id)
            ==> #[trigger] final(modules).lookup(other) == old(modules).lookup(other),
{
    modules.store(bytecode)
}

/// The bytecode stored under `id`, if any.
pub fn get_module(modules: &HandleTable<Vec<u8>>, id: i64) -> (r: Option<&Vec<u8>>)
    ensures
        r matches Some(b) ==> modules.lookup(id) == Some(*b),
        r is None ==> modules.lookup(id) is None,
{
    modules.get(id)
}

/// Forgets the bytecode stored under `id`.
pub fn free_module(modules: &mut HandleTable<Vec<u8>>, id: i64)
    ensures
        final(modules).slots() == emptied(old(modules).slots(), id),
{
    modules.free(id)
}

/// Reads the host's reply to a compile or captured run: `ok` non-zero
/// means `data` is the result, zero that it is the error message.
pub fn host_result(ok: u32, data: Vec<u8>) -> (r: Result<Vec<u8>, Vec<u8>>)
    ensures
        ok != 0 ==> r == Ok::<Vec<u8>, Vec<u8>>(data),
        ok == 0 ==> r == Err::<Vec<u8>, Vec<u8>>(data),
{
    if ok != 0 {
        Ok(data)
    } else {
        Err(data)
    }
}

/// Reads the host's reply to a run: an empty message means success.
pub fn host_run_result(err: Vec<u8>) -> (r: Result<(), Vec<u8>>)
    ensures
        err@.len() == 0 ==> r is Ok,
        err@.len() > 0 ==> r == Err::<(), Vec<u8>>(err),
{
    if err.len() == 0 {
        Ok(())
    } else {
        Err(err)
    }
}

/// The result of a compile export (`CompileFile`, `CompileDir`,
/// `CompileString`): the new handle with a nil error, or a nil handle with
/// the compiler's message.
pub fn compile_reply(modules: &mut HandleTable<Vec<u8>>, compiled: Result<Vec<u8>, Vec<u8>>) -> (out: Vec<u8>)
    ensures
        match compiled {
            Ok(bc) => {
                &&& final(modules).slots() == stored(old(modules).slots(), bc)
                &&& out@ == tag_value(first_free(old(modules).slots()) as i64 as u64) + tag_bytes(Seq::empty())
            },
            Err(e) => {
                &&& final(modules).slots() == old(modules).slots()
                &&& out@ == tag_value(0) + tag_bytes(e@)
            },
        },
{
    match compiled {
        Ok(bytecode) => {
            let id = store_module(modules, bytecode);
            output_handle_ok(id)
        },
        Err(e) => output_handle_err(e.as_slice()),
    }
}

/// For `Run`: the stored bytecode the handle argument names, or the error
/// result when it names none.
pub fn run_request<'a>(modules: &'a HandleTable<Vec<u8>>, input: &[u8]) -> (r: Result<&'a Vec<u8>, Vec<u8>>)
    requires
        input@.len() >= 8,
    ensures
        match modules.lookup(handle_arg(input@)) {
            Some(bc) => r matches Ok(b) && *b == bc,
            None => r matches Err(out) && out@ == tag_bytes(invalid_handle_message()),
        },
{
    let (handle_id, _) = read_value_arg(input, 0);
    match get_module(modules, handle_id as i64) {
        Some(bc) => Ok(bc),
        None => Err(output_error("invalid module handle".as_bytes())),
    }
}

/// The result of `Run`, `RunFile` and their JIT forms: a nil error, or
/// the run's error.
pub fn run_reply(run: Result<(), Vec<u8>>) -> (out: Vec<u8>)
    ensures
        match run {
            Ok(()) => out@ == tag_bytes(Seq::empty()),
            Err(e) => out@ == tag_bytes(e@),
        },
{
    match run {
        Ok(()) => {
            let empty: [u8; 0] = [];
            output_error(&empty)
        },
        Err(e) => output_error(e.as_slice()),
    }
}

/// For `RunCapture`: the stored bytecode the handle argument names, or the
/// `("", error)` result when it names none.
pub fn run_capture_request<'a>(modules: &'a HandleTable<Vec<u8>>, input: &[u8]) -> (r: Result<&'a Vec<u8>, Vec<u8>>)
    requires
        input@.len() >= 8,
    ensures
        match modules.lookup(handle_arg(input@)) {
            Some(bc) => r matches Ok(b) && *b == bc,
            None => r matches Err(out) && out@ == tag_bytes(Seq::empty()) + tag_bytes(invalid_handle_message()),
        },
{
    let (handle_id, _) = read_value_arg(input, 0);
    match get_module(modules, handle_id as i64) {
        Some(bc) => Ok(bc),
        None => Err(output_str_err("invalid module handle".as_bytes())),
    }
}

/// The result of `RunCapture`: the captured output with a nil error, or an
/// empty string with the run's error.
pub fn run_capture_reply(run: Result<Vec<u8>, Vec<u8>>) -> (out: Vec<u8>)
    ensures
        match run {
            Ok(o) => out@ == tag_bytes(o@) + tag_bytes(Seq::empty()),
            Err(e) => out@ == tag_bytes(Seq::empty()) + tag_bytes(e@),
        },
{
    match run {
        Ok(o) => output_str_ok(o.as_slice()),
        Err(e) => output_str_err(e.as_slice()),
    }
}

/// For `RunFile`: after the host compiled the path, the bytecode to run,
/// or the error result when compiling failed.
pub fn run_file_compiled(compiled: Result<Vec<u8>, Vec<u8>>) -> (r: Result<Vec<u8>, Vec<u8>>)
    ensures
        match compiled {
            Ok(bc) => r == Ok::<Vec<u8>, Vec<u8>>(bc),
            Err(e) => r matches Err(out) && out@ == tag_bytes(e@),
        },
{
    match compiled {
        Ok(bc) => Ok(bc),
        Err(e) => Err(output_error(e.as_slice())),
    }
}

/// `Free`: forgets the module the handle argument names; no result.
pub fn free_request(modules: &mut HandleTable<Vec<u8>>, input: &[u8]) -> (out: Vec<u8>)
    requires
        input@.len() >= 8,
    ensures
        final(modules).slots() == emptied(old(modules).slots(), handle_arg(input@)),
        out@ == Seq::<u8>::empty(),
{
    let (handle_id, _) = read_value_arg(input, 0);
    free_module(modules, handle_id as i64);
    output_empty()
}

/// For `SaveBytecodeBinary`: the path argument and the bytecode of the
/// module the handle argument names, or the error result when it names
/// none.
pub fn save_binary_request<'a, 'b>(modules: &'a HandleTable<Vec<u8>>, input: &'b [u8]) -> (r: Result<(&'b [u8], &'a Vec<u8>), Vec<u8>>)
    requires
        input@.len() >= 12,
        12 + bytes_arg_len(input@, 8) <= input@.len(),
    ensures
        match modules.lookup(handle_arg(input@)) {
            Some(bc) => r matches Ok((path, b)) && *b == bc
                && path@ == input@.subrange(12, 12 + bytes_arg_len(input@, 8)),
            None => r matches Err(out) && out@ == tag_bytes(invalid_handle_message()),
        },
{
    let (handle_id, off) = read_value_arg(input, 0);
    let (path, _) = read_bytes_arg(input, off);
    match get_module(modules, handle_id as i64) {
        Some(bc) => Ok((path, bc)),
        None => Err(output_error("invalid module handle".as_bytes())),
    }
}

/// The result of `SaveBytecodeBinary` after the host's write: a nil error
/// when it reported success (non-zero), else a write error.
pub fn save_binary_reply(written: u32) -> (out: Vec<u8>)
    ensures
        written != 0 ==> out@ == tag_bytes(Seq::empty()),
        written == 0 ==> out@ == tag_bytes(encode_utf8("failed to write bytecode"@)),
{
    if written != 0 {
        let empty: [u8; 0] = [];
        output_error(&empty)
    } else {
        output_error("failed to write bytecode".as_bytes())
    }
}

/// The result of `LoadBytecodeBinary` after the host's read: the new handle
/// when the read returned bytes, else a read error (an empty file counts as
/// a failed read).
pub fn load_binary_reply(modules: &mut HandleTable<Vec<u8>>, read: Option<Vec<u8>>) -> (out: Vec<u8>)
    ensures
        match read {
            Some(bc) => if bc@.len() > 0 {
                &&& final(modules).slots() == stored(old(modules).slots(), bc)
                &&& out@ == tag_value(first_free(old(modules).slots()) as i64 as u64) + tag_bytes(Seq::empty())
            } else {
                &&& final(modules).slots() == old(modules).slots()
                &&& out@ == tag_value(0) + tag_bytes(encode_utf8("failed to read bytecode file"@))
            },
            None => {
                &&& final(modules).slots() == old(modules).slots()
                &&& out@ == tag_value(0) + tag_bytes(encode_utf8("failed to read bytecode file"@))
            },
        },
{
    match read {
        Some(bc) => {
            if bc.len() > 0 {
                let id = store_module(modules, bc);
                output_handle_ok(id)
            } else {
                output_handle_err("failed to read bytecode file".as_bytes())
            }
        },
        None => output_handle_err("failed to read bytecode file".as_bytes()),
    }
}

/// The result of `CompileCheck`: the checker's message (empty when the
/// code compiles) with a nil error.
pub fn compile_check_reply(message: &[u8]) -> (out: Vec<u8>)
    ensures
        out@ == tag_bytes(message@) + tag_bytes(Seq::empty()),
{
    output_str_ok(message)
}

/// The exports that the standalone build cannot serve.
#[derive(Clone, Copy, PartialEq, Eq, Debug)]
pub enum WebUnsupported {
    Name,
    FormatBytecode,
    ParseFile,
    ParseString,
    PrintAst,
    FreeAst,
    SaveBytecodeText,
    LoadBytecodeText,
    RunGui,
    SendGuiEvent,
    StopGui,
    InitProject,
    InitFile,
    Get,
}

/// The fixed result of an export the standalone build cannot serve.
pub open spec fn unsupported_result(op: WebUnsupported) -> Seq<u8> {
    match op {
        WebUnsupported::Name => tag_bytes(Seq::empty()),
        WebUnsupported::FormatBytecode => tag_bytes(encode_utf8("bytecode formatting not available in web mode"@)),
        WebUnsupported::ParseFile => tag_value(0) + tag_bytes(encode_utf8("AST parsing not available in web mode"@)),
        WebUnsupported::ParseString => tag_value(0) + tag_bytes(encode_utf8("AST parsing not available in web mode"@)),
        WebUnsupported::PrintAst => tag_bytes(Seq::empty()),
        WebUnsupported::FreeAst => Seq::empty(),
        WebUnsupported::SaveBytecodeText => tag_bytes(encode_utf8("bytecode text I/O not available in web mode"@)),
        WebUnsupported::LoadBytecodeText => tag_value(0) + tag_bytes(encode_utf8("bytecode text I/O not available in web mode"@)),
        WebUnsupported::RunGui => tag_bytes(Seq::empty()) + tag_bytes(encode_utf8("RunGui not supported via vox in web mode"@)),
        WebUnsupported::SendGuiEvent => tag_bytes(Seq::empty()) + tag_bytes(encode_utf8("SendGuiEvent not supported via vox in web mode"@)),
        WebUnsupported::StopGui => Seq::empty(),
        WebUnsupported::InitProject => tag_bytes(Seq::empty()) + tag_bytes(encode_utf8("InitProject not available in web mode"@)),
        WebUnsupported::InitFile => tag_bytes(encode_utf8("InitFile not available in web mode"@)),
        WebUnsupported::Get => tag_bytes(Seq::empty()) + tag_bytes(encode_utf8("vo get is not available in web mode"@)),
    }
}

/// Answers an export the standalone build cannot serve.
pub fn unsupported_reply(op: WebUnsupported) -> (out: Vec<u8>)
    ensures
        out@ == unsupported_result(op),
{
    let empty: [u8; 0] = [];
    match op {
        WebUnsupported::Name => output_tag_bytes(&empty),
        WebUnsupported::FormatBytecode => output_tag_bytes("bytecode formatting not available in web mode".as_bytes()),
        WebUnsupported::ParseFile => output_handle_err("AST parsing not available in web mode".as_bytes()),
        WebUnsupported::ParseString => output_handle_err("AST parsing not available in web mode".as_bytes()),
        WebUnsupported::PrintAst => output_tag_bytes(&empty),
        WebUnsupported::FreeAst => output_empty(),
        WebUnsupported::SaveBytecodeText => output_error("bytecode text I/O not available in web mode".as_bytes()),
        WebUnsupported::LoadBytecodeText => output_handle_err("bytecode text I/O not available in web mode".as_bytes()),
        WebUnsupported::RunGui => output_str_err("RunGui not supported via vox in web mode".as_bytes()),
        WebUnsupported::SendGuiEvent => output_str_err("SendGuiEvent not supported via vox in web mode".as_bytes()),
        WebUnsupported::StopGui => output_empty(),
        WebUnsupported::InitProject => output_str_err("InitProject not available in web mode".as_bytes()),
        WebUnsupported::InitFile => output_error("InitFile not available in web mode".as_bytes()),
        WebUnsupported::Get => output_str_err("vo get is not available in web mode".as_bytes()),
    }
}

} // verus!
