//! The decisions behind the script-visible `vox` operations in native mode.
//!
//! Scripts name compiled modules, parsed files and running GUI guests by
//! integer handles. This module keeps those tables and decides, for each
//! operation, what the script gets back: compile and parse results become
//! handles or error messages; a handle that names nothing gets a fixed
//! error; text forms come from the verified formatter and tree printer; GUI
//! events are routed to the guest that runs the module. Compiling, running,
//! file access and fetching are done outside and handed in as results.

use vstd::prelude::*;

use crate::ast::{File, SymbolInterner};
use crate::bytecode::Module;
use crate::format::{format_text, module_text};
use crate::gui::{
    GuestHandle, ModuleGuests, clear_module_guest, get_module_guest, sent_ide_event,
    set_module_guest, store_guest_handle, take_guest_handle, with_guest, with_guest_handle,
};
use crate::handles::{HandleTable, emptied, entry, first_free, slot_index, stored};
use crate::printer::{AstPrinter, file_text};
use crate::text::{debug_quoted, str_debug};

verus! {

// =============================================================================
// Stored values
// =============================================================================

/// A native extension that a compiled module loads.
pub struct ExtensionManifest {
    pub name: String,
    pub native_path: String,
}

/// A compiled module kept under a handle, with what running it needs.
pub struct StoredModule {
    pub module: Module,
    pub source_root: String,
    pub extensions: Vec<ExtensionManifest>,
}

/// A parsed file kept under a handle, with the symbols its names index.
pub struct ParsedAst {
    pub file: File,
    pub interner: SymbolInterner,
}

/// Keeps a compiled module and returns its handle.
pub fn store_module(modules: &mut HandleTable<StoredModule>, output: StoredModule) -> (id: i64)
    ensures
        id == first_free(old(modules).slots()) as i64,
        final(modules).slots() == stored(old(modules).slots(), output),
{
    modules.store(output)
}

/// The compiled module under `id`, if any.
pub fn get_module(modules: &HandleTable<StoredModule>, id: i64) -> (r: Option<&StoredModule>)
    ensures
        r matches Some(m) ==> modules.lookup(id) == Some(*m),
        r is None ==> modules.lookup(id) is None,
{
    modules.get(id)
}

/// Forgets the compiled module under `id`.
pub fn free_module(modules: &mut HandleTable<StoredModule>, id: i64)
    ensures
        final(modules).slots() == emptied(old(modules).slots(), id),
{
    modules.free(id)
}

/// Keeps a parsed file and returns its handle.
pub fn store_ast(asts: &mut HandleTable<ParsedAst>, ast: ParsedAst) -> (id: i64)
    ensures
        id == first_free(old(asts).slots()) as i64,
        final(asts).slots() == stored(old(asts).slots(), ast),
{
    asts.store(ast)
}

/// Forgets the parsed file under `id`.
pub fn free_ast(asts: &mut HandleTable<ParsedAst>, id: i64)
    ensures
        final(asts).slots() == emptied(old(asts).slots(), id),
{
    asts.free(id)
}

// =============================================================================
// Compiling and running
// =============================================================================

/// The error for a handle that names no compiled module.
pub open spec fn invalid_handle_text() -> Seq<char> {
    "invalid module handle"@
}

/// `CompileFile`, `CompileDir`, `CompileString`: a successful compile is
/// kept and its handle returned; a failed one returns the compiler's
/// message and keeps nothing.
pub fn compile_result(modules: &mut HandleTable<StoredModule>, compiled: Result<StoredModule, String>) -> (r: Result<i64, String>)
    ensures
        match compiled {
            Ok(m) => r == Ok::<i64, String>(first_free(old(modules).slots()) as i64)
                && final(modules).slots() == stored(old(modules).slots(), m),
            Err(e) => r == Err::<i64, String>(e) && final(modules).slots() == old(modules).slots(),
        },
{
    match compiled {
        Ok(output) => Ok(store_module(modules, output)),
        Err(e) => Err(e),
    }
}

/// The module that `Run`, `RunJit`, `RunCapture`, `RunJitCapture`,
/// `SaveBytecodeBinary` and `RunGui` act on, or the invalid-handle error.
pub fn module_or_invalid(modules: &HandleTable<StoredModule>, id: i64) -> (r: Result<&StoredModule, String>)
    ensures
        match modules.lookup(id) {
            Some(m) => r matches Ok(x) && *x == m,
            None => r matches Err(e) && e@ == invalid_handle_text(),
        },
{
    match get_module(modules, id) {
        Some(m) => Ok(m),
        None => Err(String::from_str("invalid module handle")),
    }
}

/// `Name`: the module's name, or an empty string for a handle that names
/// nothing.
pub fn module_name(modules: &HandleTable<StoredModule>, id: i64) -> (name: String)
    ensures
        match modules.lookup(id) {
            Some(m) => name@ == m.module.name@,
            None => name@ == Seq::<char>::empty(),
        },
{
    match get_module(modules, id) {
        Some(m) => m.module.name.clone(),
        None => String::new(),
    }
}

/// `FormatBytecode`: the module's text form, or an empty string for a
/// handle that names nothing.
pub fn module_bytecode_text(modules: &HandleTable<StoredModule>, id: i64) -> (text: String)
    ensures
        match modules.lookup(id) {
            Some(m) => text@ == module_text(m.module),
            None => text@ == Seq::<char>::empty(),
        },
{
    match get_module(modules, id) {
        Some(m) => format_text(&m.module),
        None => String::new(),
    }
}

/// `SaveBytecodeText`: the text to write for the module, or the
/// invalid-handle error.
pub fn bytecode_text_to_save(modules: &HandleTable<StoredModule>, id: i64) -> (r: Result<String, String>)
    ensures
        match modules.lookup(id) {
            Some(m) => r matches Ok(t) && t@ == module_text(m.module),
            None => r matches Err(e) && e@ == invalid_handle_text(),
        },
{
    match module_or_invalid(modules, id) {
        Ok(m) => Ok(format_text(&m.module)),
        Err(e) => Err(e),
    }
}

/// `RunCapture`, `RunJitCapture`: what the script gets after a captured
/// run: the captured output, kept whether or not the run failed, and the
/// run's error, if any.
pub fn capture_result(captured: String, run: Result<(), String>) -> (r: (String, Option<String>))
    ensures
        r.0 == captured,
        match run {
            Ok(()) => r.1 is None,
            Err(e) => r.1 == Some(e),
        },
{
    match run {
        Ok(()) => (captured, None),
        Err(e) => (captured, Some(e)),
    }
}

/// The error of `LoadBytecodeText`, which reads no text form.
pub open spec fn load_text_error() -> Seq<char> {
    "bytecode text parsing not yet implemented"@
}

/// `LoadBytecodeText`: always refused.
pub fn load_bytecode_text() -> (r: Result<i64, String>)
    ensures
        r matches Err(e) && e@ == load_text_error(),
{
    Err(String::from_str("bytecode text parsing not yet implemented"))
}

/// The directory that contains `path`, as `Path::parent` gives it.
pub uninterp spec fn parent_dir(path: Seq<char>) -> Option<Seq<char>>;

/// The parent directory of `path`.
///
/// Calls `std::path::Path::parent`. Its result depends only on the path
/// text; the contract names it (`parent_dir`) and states nothing more.
#[verifier::external_body]
fn path_parent(path: &str) -> (r: Option<String>)
    ensures
        r matches Some(p) ==> parent_dir(path@) == Some(p@),
        r is None ==> parent_dir(path@) is None,
{
    std::path::Path::new(path).parent().map(|p| p.to_string_lossy().into_owned())
}

/// The source root of a module loaded from `path`: the directory that
/// holds the file, or `.` when the path has none.
pub open spec fn source_root_text(path: Seq<char>) -> Seq<char> {
    match parent_dir(path) {
        Some(p) => p,
        None => "."@,
    }
}

/// Computes the source root of a module loaded from `path`.
pub fn source_root_of(path: &str) -> (root: String)
    ensures
        root@ == source_root_text(path@),
{
    match path_parent(path) {
        Some(p) => p,
        None => String::from_str("."),
    }
}

/// `LoadBytecodeBinary`: a module read back from `path` is kept with its
/// source root and no extensions, and its handle returned; a read that
/// could not be decoded returns the decoder's message.
pub fn loaded_module(modules: &mut HandleTable<StoredModule>, path: &str, decoded: Result<Module, String>) -> (r: Result<i64, String>)
    ensures
        match decoded {
            Ok(m) => r == Ok::<i64, String>(first_free(old(modules).slots()) as i64)
                && exists|s: StoredModule| {
                    &&& s.module == m
                    &&& s.source_root@ == source_root_text(path@)
                    &&& s.extensions@.len() == 0
                    &&& #[trigger] stored(old(modules).slots(), s) == final(modules).slots()
                },
            Err(e) => r == Err::<i64, String>(e) && final(modules).slots() == old(modules).slots(),
        },
{
    match decoded {
        Ok(module) => {
            let source_root = source_root_of(path);
            let stored_module = StoredModule { module, source_root, extensions: Vec::new() };
            let ghost kept = stored_module;
            let id = store_module(modules, stored_module);
            assert(stored(old(modules).slots(), kept) == modules.slots());
            Ok(id)
        },
        Err(e) => Err(e),
    }
}


// =============================================================================
// Parsed files
// =============================================================================

/// The first `n` messages, separated by `"; "`.
pub open spec fn joined(ms: Seq<String>, n: nat) -> Seq<char>
    decreases n,
{
    if n == 0 || n > ms.len() {
        Seq::empty()
    } else if n == 1 {
        ms[0]@
    } else {
        joined(ms, (n - 1) as nat) + "; "@ + ms[n - 1]@
    }
}

/// Joins messages with `"; "`.
pub fn join_messages(messages: &Vec<String>) -> (s: String)
    ensures
        s@ == joined(messages@, messages@.len()),
{
    let mut s = String::new();
    let mut i: usize = 0;
    while i < messages.len()
        invariant
            i <= messages@.len(),
            s@ == joined(messages@, i as nat),
        decreases messages@.len() - i,
    {
        if i > 0 {
            s.append("; ");
        }
        s.append(messages[i].as_str());
        i = i + 1;
        assert(s@ =~= joined(messages@, i as nat));
    }
    s
}

/// `ParseFile`, `ParseString`: when the parser reported errors, every
/// diagnostic message joined with `"; "`; otherwise the parsed file is
/// kept and its handle returned.
pub fn parse_result(asts: &mut HandleTable<ParsedAst>, parsed: ParsedAst, messages: &Vec<String>, has_errors: bool) -> (r: Result<i64, String>)
    ensures
        has_errors ==> (r matches Err(e) && e@ == joined(messages@, messages@.len()))
            && final(asts).slots() == old(asts).slots(),
        !has_errors ==> r == Ok::<i64, String>(first_free(old(asts).slots()) as i64)
            && final(asts).slots() == stored(old(asts).slots(), parsed),
{
    if has_errors {
        Err(join_messages(messages))
    } else {
        Ok(store_ast(asts, parsed))
    }
}

/// `PrintAst`: the printed form of the parsed file under `id`, or an empty
/// string for a handle that names nothing.
pub fn print_ast(asts: &HandleTable<ParsedAst>, id: i64) -> (text: String)
    ensures
        match asts.lookup(id) {
            Some(a) => text@ == file_text(a.interner, Seq::empty(), a.file),
            None => text@ == Seq::<char>::empty(),
        },
{
    match asts.get(id) {
        Some(ast) => {
            let mut printer = AstPrinter::new(&ast.interner);
            printer.print_file(&ast.file)
        },
        None => String::new(),
    }
}

// =============================================================================
// GUI sessions
// =============================================================================

/// `RunGui`, once the guest has started (or failed to): a started guest is
/// kept, recorded as the module's guest, and its initial render returned.
pub fn gui_started(
    guests: &mut HandleTable<GuestHandle>,
    module_guests: &mut ModuleGuests,
    module_id: i64,
    started: Result<(Vec<u8>, GuestHandle), String>,
) -> (r: Result<Vec<u8>, String>)
    requires
        (module_id as usize) < usize::MAX,
    ensures
        match started {
            Ok((bytes, handle)) => {
                &&& r == Ok::<Vec<u8>, String>(bytes)
                &&& final(guests).slots() == stored(old(guests).slots(), handle)
                &&& final(module_guests).entries() == with_guest(old(module_guests).entries(), module_id,
                    first_free(old(guests).slots()) as i64)
            },
            Err(e) => {
                &&& r == Err::<Vec<u8>, String>(e)
                &&& final(guests).slots() == old(guests).slots()
                &&& final(module_guests).entries() == old(module_guests).entries()
            },
        },
{
    match started {
        Ok((bytes, handle)) => {
            let guest_id = store_guest_handle(guests, handle);
            set_module_guest(module_guests, module_id, guest_id);
            Ok(bytes)
        },
        Err(e) => Err(e),
    }
}

/// The error for a module with no running GUI.
pub open spec fn no_gui_text() -> Seq<char> {
    "no running GUI for this module"@
}

/// The error for a module whose recorded guest is gone.
pub open spec fn handle_missing_text() -> Seq<char> {
    "GUI handle not found"@
}

/// `SendGuiEvent`: sends the event to the guest running the module and
/// returns its render. The handler id is narrowed to 32 bits. When the
/// module has no guest, or its guest's handle is gone, no event is sent
/// and the table is left as it was.
pub fn send_gui_event(
    guests: &mut HandleTable<GuestHandle>,
    module_guests: &ModuleGuests,
    module_id: i64,
    handler_id: i64,
    payload: &str,
) -> (r: Result<Vec<u8>, String>)
    ensures
        module_guests.guest_of(module_id) is None ==> (r matches Err(e) && e@ == no_gui_text())
            && final(guests).slots() == old(guests).slots(),
        module_guests.guest_of(module_id) matches Some(g) ==> {
            &&& old(guests).lookup(g) is None ==> (r matches Err(e) && e@ == handle_missing_text())
                && final(guests).slots() == old(guests).slots()
            &&& old(guests).lookup(g) matches Some(h) ==> (final(guests).lookup(g) matches Some(h2)
                && sent_ide_event(h, h2, handler_id as i32, payload@, r))
            &&& final(guests).slots().len() == old(guests).slots().len()
            &&& forall|j: int| 0 <= j < old(guests).slots().len() && j != slot_index(g)
                ==> final(guests).slots()[j] == old(guests).slots()[j]
        },
{
    let guest_id = match get_module_guest(module_guests, module_id) {
        Some(id) => id,
        None => return Err(String::from_str("no running GUI for this module")),
    };
    let hid = handler_id as i32;
    let send = |h: &mut GuestHandle| -> (res: Result<Vec<u8>, String>)
        ensures
            sent_ide_event(*old(h), *final(h), hid, payload@, res),
    {
        h.send_event(hid, payload)
    };
    let result = with_guest_handle(guests, guest_id, send);
    match result {
        Some(Ok(bytes)) => Ok(bytes),
        Some(Err(e)) => Err(e),
        None => Err(String::from_str("GUI handle not found")),
    }
}

/// `StopGui`: ends the module's guest, if it runs one, and forgets it.
pub fn stop_gui(guests: &mut HandleTable<GuestHandle>, module_guests: &mut ModuleGuests, module_id: i64)
    ensures
        match old(module_guests).guest_of(module_id) {
            Some(g) => final(guests).slots() == emptied(old(guests).slots(), g)
                && final(module_guests).entries() == emptied(old(module_guests).entries(), module_id),
            None => final(guests).slots() == old(guests).slots()
                && final(module_guests).entries() == old(module_guests).entries(),
        },
{
    if let Some(guest_id) = get_module_guest(module_guests, module_id) {
        let _ = take_guest_handle(guests, guest_id);
        clear_module_guest(module_guests, module_id);
    }
}

// =============================================================================
// Checking, scaffolding and fetching
// =============================================================================

/// `CompileCheck`: the compiler's message, or an empty string when the code
/// compiles. The error result itself is always nil.
pub fn compile_check_message(checked: Result<(), String>) -> (msg: String)
    ensures
        match checked {
            Ok(()) => msg@ == Seq::<char>::empty(),
            Err(e) => msg@ == e@,
        },
{
    match checked {
        Ok(()) => String::new(),
        Err(e) => e,
    }
}

/// The source of a new program file in package `pkg`: an entry point that
/// prints a greeting.
pub open spec fn program_source(pkg: Seq<char>) -> Seq<char> {
    "package "@ + pkg + "\n\nimport \"fmt\"\n\nfunc main() {\n\tfmt.Println(\"Hello, Vo!\")\n}\n"@
}

/// The `main.vo` that `InitProject` creates.
pub fn main_source() -> (s: String)
    ensures
        s@ == program_source("main"@),
{
    let mut s = String::from_str("package ");
    s.append("main");
    s.append("\n\nimport \"fmt\"\n\nfunc main() {\n\tfmt.Println(\"Hello, Vo!\")\n}\n");
    s
}

/// The `vo.mod` that `InitProject` creates for module `mod_name`.
pub open spec fn mod_file_text(mod_name: Seq<char>) -> Seq<char> {
    "module "@ + mod_name + "\n\nvo 0.1\n"@
}

/// Builds the `vo.mod` that `InitProject` creates.
pub fn mod_source(mod_name: &str) -> (s: String)
    ensures
        s@ == mod_file_text(mod_name@),
{
    let mut s = String::from_str("module ");
    s.append(mod_name);
    s.append("\n\nvo 0.1\n");
    s
}

/// A file that `InitProject` writes into the project directory.
pub struct NewFile {
    pub name: String,
    pub text: String,
}

/// The files that `InitProject` writes, as (name, text) pairs: `main.vo`
/// unless it exists, then `vo.mod` for module `mod_name` unless it exists.
pub open spec fn project_files(main_exists: bool, mod_exists: bool, mod_name: Seq<char>) -> Seq<(Seq<char>, Seq<char>)> {
    (if main_exists { Seq::empty() } else { seq![("main.vo"@, program_source("main"@))] })
        + (if mod_exists { Seq::empty() } else { seq![("vo.mod"@, mod_file_text(mod_name))] })
}

/// `InitProject`: the files to write, given which of `main.vo` and
/// `vo.mod` already exist in the directory.
pub fn init_project_files(main_exists: bool, mod_exists: bool, mod_name: &str) -> (files: Vec<NewFile>)
    ensures
        files@.len() == project_files(main_exists, mod_exists, mod_name@).len(),
        forall|k: int| 0 <= k < files@.len() ==> (#[trigger] files@[k]).name@ == project_files(main_exists, mod_exists, mod_name@)[k].0
            && files@[k].text@ == project_files(main_exists, mod_exists, mod_name@)[k].1,
{
    let mut files: Vec<NewFile> = Vec::new();
    if !main_exists {
        files.push(NewFile { name: String::from_str("main.vo"), text: main_source() });
    }
    if !mod_exists {
        files.push(NewFile { name: String::from_str("vo.mod"), text: mod_source(mod_name) });
    }
    files
}

/// `InitProject` never writes a file that already exists: `main.vo` is
/// written only when it is absent, and so is `vo.mod`.
pub proof fn law_init_never_overwrites(main_exists: bool, mod_exists: bool, mod_name: Seq<char>)
    ensures
        forall|k: int| 0 <= k < project_files(main_exists, mod_exists, mod_name).len()
            && #[trigger] project_files(main_exists, mod_exists, mod_name)[k].0 == "main.vo"@ ==> !main_exists,
        forall|k: int| 0 <= k < project_files(main_exists, mod_exists, mod_name).len()
            && #[trigger] project_files(main_exists, mod_exists, mod_name)[k].0 == "vo.mod"@ ==> !mod_exists,
{
    reveal_strlit("main.vo");
    reveal_strlit("vo.mod");
    let files = project_files(main_exists, mod_exists, mod_name);
    assert forall|k: int| 0 <= k < files.len() && #[trigger] files[k].0 == "main.vo"@ implies !main_exists by {
        if main_exists {
            assert(files[k].0 == "vo.mod"@);
            assert("vo.mod"@[0] != "main.vo"@[0]);
        }
    }
    assert forall|k: int| 0 <= k < files.len() && #[trigger] files[k].0 == "vo.mod"@ implies !mod_exists by {
        if mod_exists {
            assert(files[k].0 == "main.vo"@);
            assert("vo.mod"@[0] != "main.vo"@[0]);
        }
    }
}

/// What `InitProject` reports: the names of the files it created, one per
/// line.
pub open spec fn created_text(main_created: bool, mod_created: bool) -> Seq<char> {
    if main_created && mod_created {
        "main.vo"@ + "\n"@ + "vo.mod"@
    } else if main_created {
        "main.vo"@
    } else if mod_created {
        "vo.mod"@
    } else {
        Seq::empty()
    }
}

/// Builds what `InitProject` reports.
pub fn created_report(main_created: bool, mod_created: bool) -> (s: String)
    ensures
        s@ == created_text(main_created, mod_created),
{
    if main_created && mod_created {
        let mut s = String::from_str("main.vo");
        s.append("\n");
        s.append("vo.mod");
        s
    } else if main_created {
        String::from_str("main.vo")
    } else if mod_created {
        String::from_str("vo.mod")
    } else {
        String::new()
    }
}

/// The file name of `path` without its extension, as `Path::file_stem`
/// gives it.
pub uninterp spec fn file_stem_of(path: Seq<char>) -> Option<Seq<char>>;

/// The file stem of `path`.
///
/// Calls `std::path::Path::file_stem`. Its result depends only on the path
/// text; the contract names it (`file_stem_of`) and states nothing more.
#[verifier::external_body]
fn path_file_stem(path: &str) -> (r: Option<String>)
    ensures
        r matches Some(s) ==> file_stem_of(path@) == Some(s@),
        r is None ==> file_stem_of(path@) is None,
{
    std::path::Path::new(path).file_stem().map(|s| s.to_string_lossy().into_owned())
}

/// The package of a file created at `path`: its file stem, or `main`.
pub open spec fn package_for(path: Seq<char>) -> Seq<char> {
    match file_stem_of(path) {
        Some(s) => s,
        None => "main"@,
    }
}

/// `InitFile`: the source to write at `path`.
pub fn init_file_source(path: &str) -> (s: String)
    ensures
        s@ == program_source(package_for(path@)),
{
    let pkg = match path_file_stem(path) {
        Some(stem) => stem,
        None => String::from_str("main"),
    };
    let mut s = String::from_str("package ");
    s.append(pkg.as_str());
    s.append("\n\nimport \"fmt\"\n\nfunc main() {\n\tfmt.Println(\"Hello, Vo!\")\n}\n");
    s
}

/// `InitFile`: the error when `path` already exists.
pub fn file_exists_error(path: &str) -> (e: String)
    ensures
        e@ == "file already exists: "@ + path@,
{
    let mut e = String::from_str("file already exists: ");
    e.append(path);
    e
}

/// The index of the last `@` in `s`, if any.
pub open spec fn last_at(s: Seq<char>) -> Option<int>
    decreases s.len(),
{
    if s.len() == 0 {
        None
    } else if s.last() == '@' {
        Some(s.len() - 1)
    } else {
        last_at(s.drop_last())
    }
}

/// The error for a `Get` spec that is not `<module>@<version>`.
pub open spec fn bad_spec_text(spec: Seq<char>) -> Seq<char> {
    "invalid spec "@ + str_debug(spec) + ": expected <module>@<version>, e.g. github.com/foo/bar@v0.1.0"@
}

/// `Get`: splits `<module>@<version>` at its last `@`; both parts must be
/// non-empty.
pub fn parse_module_spec(spec: &str) -> (r: Result<(String, String), String>)
    ensures
        match last_at(spec@) {
            Some(k) => if 0 < k && k < spec@.len() - 1 {
                r matches Ok((m, v)) && m@ == spec@.subrange(0, k) && v@ == spec@.subrange(k + 1, spec@.len() as int)
            } else {
                r matches Err(e) && e@ == bad_spec_text(spec@)
            },
            None => r matches Err(e) && e@ == bad_spec_text(spec@),
        },
{
    let len = spec.unicode_len();
    let mut k = len;
    assert(spec@.subrange(0, len as int) =~= spec@);
    while k > 0
        invariant
            k <= len,
            len == spec@.len(),
            last_at(spec@) == last_at(spec@.subrange(0, k as int)),
        ensures
            k <= len,
            last_at(spec@) == last_at(spec@.subrange(0, k as int)),
            k > 0 ==> spec@[k - 1] == '@',
        decreases k,
    {
        if spec.get_char(k - 1) == '@' {
            break;
        }
        assert(spec@.subrange(0, k as int).drop_last() =~= spec@.subrange(0, k - 1));
        k = k - 1;
    }
    if k > 0 {
        assert(spec@.subrange(0, k as int).last() == '@');
    }
    if k >= 2 && k < len {
        let m = String::from_str(spec.substring_char(0, k - 1));
        let v = String::from_str(spec.substring_char(k, len));
        Ok((m, v))
    } else {
        let mut e = String::from_str("invalid spec ");
        let q = debug_quoted(spec);
        e.append(q.as_str());
        e.append(": expected <module>@<version>, e.g. github.com/foo/bar@v0.1.0");
        Err(e)
    }
}

} // verus!
