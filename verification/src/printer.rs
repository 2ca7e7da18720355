//! Syntax-tree printer.
//!
//! `AstPrinter::print_file` renders a parsed file as an indented,
//! brace-structured text used to compare parser output in tests. Every
//! piece of that text is described by a spec function below (`file_text`,
//! `decl_text`, `stmt_text`, `expr_text`, `type_text`, ...), and each
//! writer states that it appends exactly its piece.

use vstd::prelude::*;

use crate::ast::{
    Block, CaseClause, ChanDir, CompositeLitElem, CompositeLitKey, ConstDecl, Decl, DynAccessOp,
    Expr, FieldDecl, File, ForClause, ForStmt, FuncDecl, FuncSig, IfStmt, ImportDecl,
    InterfaceElem, Param, Receiver, ResultParam, Stmt, SwitchStmt, Symbol, SymbolInterner,
    TypeDecl, TypeExpr, ValueSpec, VarDecl, resolved,
};
use crate::printed_lines::{lemma_stmt_text_is_lines, starts_with};

verus! {

// =============================================================================
// Names
// =============================================================================

/// How a symbol is shown: its text, or `<unknown>` if the table lacks it.
pub open spec fn sym_text(st: SymbolInterner, s: Symbol) -> Seq<char> {
    match resolved(st, s) {
        Some(t) => t,
        None => "<unknown>"@,
    }
}

/// `t` when `c` holds, else nothing.
pub open spec fn opt(c: bool, t: Seq<char>) -> Seq<char> {
    if c {
        t
    } else {
        Seq::empty()
    }
}

/// `t` in double quotes.
pub open spec fn quoted(t: Seq<char>) -> Seq<char> {
    "\""@ + t + "\""@
}

/// The first `n` names of `ns`, separated by `", "`.
pub open spec fn names_text(st: SymbolInterner, ns: Seq<Symbol>, n: nat) -> Seq<char>
    decreases n,
{
    if n == 0 {
        Seq::empty()
    } else if n == 1 {
        sym_text(st, ns[0])
    } else {
        names_text(st, ns, (n - 1) as nat) + ", "@ + sym_text(st, ns[n - 1])
    }
}

/// The first `n` names of `ns`, each quoted, separated by `", "`.
pub open spec fn quoted_names_text(st: SymbolInterner, ns: Seq<Symbol>, n: nat) -> Seq<char>
    decreases n,
{
    if n == 0 {
        Seq::empty()
    } else if n == 1 {
        quoted(sym_text(st, ns[0]))
    } else {
        quoted_names_text(st, ns, (n - 1) as nat) + ", "@ + quoted(sym_text(st, ns[n - 1]))
    }
}

/// The symbol's text, for use by the printer.
pub fn symbol_name<'b>(st: &'b SymbolInterner, s: Symbol) -> (r: &'b str)
    ensures
        r@ == sym_text(*st, s),
{
    match st.resolve(s) {
        Some(t) => t,
        None => "<unknown>",
    }
}

// =============================================================================
// Types and expressions
// =============================================================================

/// The keyword that opens a channel type of direction `d`.
pub open spec fn chan_prefix(d: ChanDir) -> Seq<char> {
    match d {
        ChanDir::Both => "chan "@,
        ChanDir::Send => "chan<- "@,
        ChanDir::Recv => "<-chan "@,
    }
}

/// An element of an interface type, with its trailing `"; "`.
pub open spec fn interface_elem_text(st: SymbolInterner, e: InterfaceElem) -> Seq<char> {
    match e {
        InterfaceElem::Method(m) => sym_text(st, m) + "(); "@,
        InterfaceElem::Embedded(x) => sym_text(st, x) + "; "@,
        InterfaceElem::EmbeddedQualified { pkg, name } => sym_text(st, pkg) + "."@ + sym_text(st, name) + "; "@,
    }
}

/// The first `n` elements of an interface type.
pub open spec fn interface_elems_text(st: SymbolInterner, es: Seq<InterfaceElem>, n: nat) -> Seq<char>
    decreases n,
{
    if n == 0 || n > es.len() {
        Seq::empty()
    } else {
        interface_elems_text(st, es, (n - 1) as nat) + interface_elem_text(st, es[n - 1])
    }
}

/// A type expression on one line.
pub open spec fn type_text(st: SymbolInterner, t: TypeExpr) -> Seq<char>
    decreases t, 0nat,
{
    match t {
        TypeExpr::Ident(s) => sym_text(st, s),
        TypeExpr::Selector { pkg, sel } => sym_text(st, pkg) + "."@ + sym_text(st, sel),
        TypeExpr::Array { len, elem } => "["@ + expr_text(st, *len) + "]"@ + type_text(st, *elem),
        TypeExpr::Slice(elem) => "[]"@ + type_text(st, *elem),
        TypeExpr::MapType { key, value } => "map["@ + type_text(st, *key) + "]"@ + type_text(st, *value),
        TypeExpr::Chan { dir, elem } => chan_prefix(dir) + type_text(st, *elem),
        TypeExpr::Func { params, results } => "func("@ + types_text(st, params@, params@.len()) + ")"@
            + opt(results@.len() > 0, " "@ + opt(results@.len() > 1, "("@)
                + types_text(st, results@, results@.len()) + opt(results@.len() > 1, ")"@)),
        TypeExpr::Struct { fields } => "struct { "@ + field_decls_text(st, fields@, fields@.len()) + "}"@,
        TypeExpr::Pointer(elem) => "*"@ + type_text(st, *elem),
        TypeExpr::Interface { elems } => "interface { "@ + interface_elems_text(st, elems@, elems@.len()) + "}"@,
        TypeExpr::Port(elem) => "port "@ + type_text(st, *elem),
        TypeExpr::Island => "island"@,
    }
}

/// The first `n` types of `ts`, separated by `", "`.
pub open spec fn types_text(st: SymbolInterner, ts: Seq<TypeExpr>, n: nat) -> Seq<char>
    decreases ts, n,
{
    if n == 0 || n > ts.len() {
        Seq::empty()
    } else if n == 1 {
        type_text(st, ts[0])
    } else {
        types_text(st, ts, (n - 1) as nat) + ", "@ + type_text(st, ts[n - 1])
    }
}

/// The first `n` field groups of a struct type, each followed by `"; "`.
pub open spec fn field_decls_text(st: SymbolInterner, fs: Seq<FieldDecl>, n: nat) -> Seq<char>
    decreases fs, n,
{
    if n == 0 || n > fs.len() {
        Seq::empty()
    } else {
        field_decls_text(st, fs, (n - 1) as nat) + names_text(st, fs[n - 1].names@, fs[n - 1].names@.len())
            + opt(fs[n - 1].names@.len() > 0, " "@) + type_text(st, fs[n - 1].ty) + "; "@
    }
}

/// An expression on one line.
pub open spec fn expr_text(st: SymbolInterner, e: Expr) -> Seq<char>
    decreases e, 0nat,
{
    match e {
        Expr::Ident(s) => sym_text(st, s),
        Expr::IntLit(s) => sym_text(st, s),
        Expr::FloatLit(s) => sym_text(st, s),
        Expr::RuneLit(s) => sym_text(st, s),
        Expr::StringLit(s) => sym_text(st, s),
        Expr::Binary { left, op, right } => "("@ + expr_text(st, *left) + " "@ + op@ + " "@
            + expr_text(st, *right) + ")"@,
        Expr::Unary { op, operand } => op@ + "("@ + expr_text(st, *operand) + ")"@,
        Expr::Call { func, args, spread } => expr_text(st, *func) + call_args_text(st, args@, spread),
        Expr::Index { expr, index } => expr_text(st, *expr) + "["@ + expr_text(st, *index) + "]"@,
        Expr::Slice { expr, low, high } => expr_text(st, *expr) + "["@
            + (match low { Some(l) => expr_text(st, *l), None => Seq::empty() }) + ":"@
            + (match high { Some(h) => expr_text(st, *h), None => Seq::empty() }) + "]"@,
        Expr::Selector { expr, sel } => expr_text(st, *expr) + "."@ + sym_text(st, sel),
        Expr::TypeAssert { expr, ty } => expr_text(st, *expr) + ".("@
            + (match ty { Some(t) => type_text(st, *t), None => "type"@ }) + ")"@,
        Expr::CompositeLit { ty, elems } => (match ty { Some(t) => type_text(st, *t), None => Seq::empty() })
            + "{"@ + elems_text(st, elems@, elems@.len()) + "}"@,
        Expr::FuncLit => "func(...) { ... }"@,
        Expr::Conversion { ty, expr } => type_text(st, *ty) + "("@ + expr_text(st, *expr) + ")"@,
        Expr::Receive(x) => "<-"@ + expr_text(st, *x),
        Expr::Paren(x) => "("@ + expr_text(st, *x) + ")"@,
        Expr::TypeAsExpr(t) => type_text(st, *t),
        Expr::TryUnwrap(x) => expr_text(st, *x) + "?"@,
        Expr::DynAccess { base, op } => expr_text(st, *base) + "~>"@ + match op {
            DynAccessOp::Field(f) => sym_text(st, f),
            DynAccessOp::Index(i) => "["@ + expr_text(st, *i) + "]"@,
            DynAccessOp::Call { args, spread } => call_args_text(st, args@, spread),
            DynAccessOp::MethodCall { method, args, spread } => sym_text(st, method)
                + call_args_text(st, args@, spread),
        },
        Expr::Ellipsis => "..."@,
    }
}

/// The first `n` expressions of `es`, separated by `", "`.
pub open spec fn exprs_text(st: SymbolInterner, es: Seq<Expr>, n: nat) -> Seq<char>
    decreases es, n,
{
    if n == 0 || n > es.len() {
        Seq::empty()
    } else if n == 1 {
        expr_text(st, es[0])
    } else {
        exprs_text(st, es, (n - 1) as nat) + ", "@ + expr_text(st, es[n - 1])
    }
}

/// A parenthesized argument list, with `...` before `)` when spread.
pub open spec fn call_args_text(st: SymbolInterner, args: Seq<Expr>, spread: bool) -> Seq<char>
    decreases args, args.len() + 1,
{
    "("@ + exprs_text(st, args, args.len()) + opt(spread, "..."@) + ")"@
}

/// The first `n` elements of a composite literal, separated by `", "`.
pub open spec fn elems_text(st: SymbolInterner, es: Seq<CompositeLitElem>, n: nat) -> Seq<char>
    decreases es, n,
{
    if n == 0 || n > es.len() {
        Seq::empty()
    } else {
        let x = es[n - 1];
        elems_text(st, es, (n - 1) as nat) + opt(n > 1, ", "@) + (match x.key {
            Some(CompositeLitKey::Ident(id)) => sym_text(st, id) + ": "@,
            Some(CompositeLitKey::Expr(k)) => expr_text(st, k) + ": "@,
            None => Seq::empty(),
        }) + expr_text(st, x.value)
    }
}


// =============================================================================
// Lines, statements and declarations
// =============================================================================

/// One level deeper than indentation `p`.
pub open spec fn nest(p: Seq<char>) -> Seq<char> {
    p + "  "@
}

/// A line at indentation `p`.
pub open spec fn line(p: Seq<char>, s: Seq<char>) -> Seq<char> {
    p + s + "\n"@
}

/// The first `n` expressions of `es`, one per line, each followed by `,`.
pub open spec fn expr_lines(st: SymbolInterner, p: Seq<char>, es: Seq<Expr>, n: nat) -> Seq<char>
    decreases n,
{
    if n == 0 || n > es.len() {
        Seq::empty()
    } else {
        expr_lines(st, p, es, (n - 1) as nat) + p + expr_text(st, es[n - 1]) + ",\n"@
    }
}

/// One `var` or `const` line, opened by `header`.
pub open spec fn value_spec_text(st: SymbolInterner, p: Seq<char>, header: Seq<char>, v: ValueSpec) -> Seq<char> {
    line(p, header)
        + nest(p) + "names: ["@ + quoted_names_text(st, v.names@, v.names@.len()) + "],\n"@
        + (match v.ty {
            Some(t) => nest(p) + "type: "@ + type_text(st, t) + ",\n"@,
            None => Seq::empty(),
        })
        + opt(v.values@.len() > 0, line(nest(p), "values: ["@)
            + expr_lines(st, nest(nest(p)), v.values@, v.values@.len()) + line(nest(p), "],"@))
        + line(p, "},"@)
}

/// The first `n` lines of a `var` or `const` declaration.
pub open spec fn value_specs_text(st: SymbolInterner, p: Seq<char>, header: Seq<char>, vs: Seq<ValueSpec>, n: nat) -> Seq<char>
    decreases n,
{
    if n == 0 || n > vs.len() {
        Seq::empty()
    } else {
        value_specs_text(st, p, header, vs, (n - 1) as nat) + value_spec_text(st, p, header, vs[n - 1])
    }
}

/// A `var` or `const` declaration: `title` followed by its lines under `specs`.
pub open spec fn value_decl_text(st: SymbolInterner, p: Seq<char>, title: Seq<char>, header: Seq<char>, specs: Seq<ValueSpec>) -> Seq<char> {
    line(p, title) + line(nest(p), "specs: ["@)
        + value_specs_text(st, nest(nest(p)), header, specs, specs.len())
        + line(nest(p), "],"@) + line(p, "},"@)
}

/// A `var` declaration.
pub open spec fn var_decl_text(st: SymbolInterner, p: Seq<char>, v: VarDecl) -> Seq<char> {
    value_decl_text(st, p, "Var {"@, "VarSpec {"@, v.specs@)
}

/// A `const` declaration.
pub open spec fn const_decl_text(st: SymbolInterner, p: Seq<char>, c: ConstDecl) -> Seq<char> {
    value_decl_text(st, p, "Const {"@, "ConstSpec {"@, c.specs@)
}

/// A `type` declaration on one line.
pub open spec fn type_decl_text(st: SymbolInterner, p: Seq<char>, t: TypeDecl) -> Seq<char> {
    p + "Type { name: \""@ + sym_text(st, t.name) + "\", type: "@ + type_text(st, t.ty)
        + opt(t.is_alias, ", alias: true"@) + " },\n"@
}

/// A statement, starting at indentation `p`.
pub open spec fn stmt_text(st: SymbolInterner, p: Seq<char>, s: Stmt) -> Seq<char>
    decreases s, 0nat,
{
    match s {
        Stmt::Empty => line(p, "Empty,"@),
        Stmt::Block(b) => line(p, "Block {"@) + stmts_text(st, nest(p), b.stmts@, b.stmts@.len()) + line(p, "},"@),
        Stmt::Var(v) => var_decl_text(st, p, v),
        Stmt::Const(c) => const_decl_text(st, p, c),
        Stmt::ShortVar { names, values } => p + "ShortVar { names: ["@ + quoted_names_text(st, names@, names@.len())
            + "], values: ["@ + exprs_text(st, values@, values@.len()) + "] },\n"@,
        Stmt::Expr(e) => p + "Expr("@ + expr_text(st, e) + "),\n"@,
        Stmt::Assign { lhs, op, rhs } => p + "Assign { lhs: ["@ + exprs_text(st, lhs@, lhs@.len()) + "], op: "@
            + op@ + ", rhs: ["@ + exprs_text(st, rhs@, rhs@.len()) + "] },\n"@,
        Stmt::IncDec { expr, is_inc } => p + "IncDec { expr: "@ + expr_text(st, expr) + ", inc: "@
            + (if is_inc { "true"@ } else { "false"@ }) + " },\n"@,
        Stmt::Return { values } => p + "Return ["@ + exprs_text(st, values@, values@.len()) + "],\n"@,
        Stmt::If(i) => if_text(st, p, i),
        Stmt::For(f) => for_text(st, p, f),
        Stmt::Switch(sw) => switch_text(st, p, sw),
        Stmt::TypeSwitch => line(p, "TypeSwitch { ... },"@),
        Stmt::Select => line(p, "Select { ... },"@),
        Stmt::Go(c) => p + "Go("@ + expr_text(st, c) + "),\n"@,
        Stmt::Defer(c) => p + "Defer("@ + expr_text(st, c) + "),\n"@,
        Stmt::Send { chan, value } => p + "Send { chan: "@ + expr_text(st, chan) + ", value: "@
            + expr_text(st, value) + " },\n"@,
        Stmt::Break(l) => p + (match l {
            Some(x) => "Break("@ + sym_text(st, x) + "),\n"@,
            None => "Break,\n"@,
        }),
        Stmt::Continue(l) => p + (match l {
            Some(x) => "Continue("@ + sym_text(st, x) + "),\n"@,
            None => "Continue,\n"@,
        }),
        Stmt::Goto(l) => p + "Goto("@ + sym_text(st, l) + "),\n"@,
        Stmt::Fallthrough => line(p, "Fallthrough,"@),
        Stmt::Labeled { label, stmt } => p + "Label("@ + sym_text(st, label) + "):\n"@ + stmt_text(st, nest(p), *stmt),
        Stmt::Type(t) => p + "Type { name: \""@ + sym_text(st, t.name) + "\", ty: ... },\n"@,
        Stmt::ErrDefer(c) => p + "ErrDefer { call: "@ + expr_text(st, c) + " },\n"@,
        Stmt::Fail(e) => p + "Fail { error: "@ + expr_text(st, e) + " },\n"@,
    }
}

/// A nested statement under a label line such as `init:`.
pub open spec fn labeled_child(st: SymbolInterner, p: Seq<char>, label: Seq<char>, s: Option<Box<Stmt>>) -> Seq<char>
    decreases s, 0nat,
{
    match s {
        Some(x) => line(p, label) + stmt_text(st, nest(p), *x),
        None => Seq::empty(),
    }
}

/// A `cond:` line, when there is a condition.
pub open spec fn cond_line(st: SymbolInterner, p: Seq<char>, c: Option<Expr>) -> Seq<char> {
    match c {
        Some(e) => p + "cond: "@ + expr_text(st, e) + ",\n"@,
        None => Seq::empty(),
    }
}

/// An `if` statement.
pub open spec fn if_text(st: SymbolInterner, p: Seq<char>, i: IfStmt) -> Seq<char>
    decreases i, 0nat,
{
    line(p, "If {"@)
        + labeled_child(st, nest(p), "init:"@, i.init)
        + nest(p) + "cond: "@ + expr_text(st, i.cond) + ",\n"@
        + line(nest(p), "then: {"@) + stmts_text(st, nest(nest(p)), i.then_branch.stmts@, i.then_branch.stmts@.len())
        + line(nest(p), "},"@)
        + labeled_child(st, nest(p), "else:"@, i.else_)
        + line(p, "},"@)
}

/// The header of a `for` statement.
pub open spec fn clause_text(st: SymbolInterner, p: Seq<char>, c: ForClause) -> Seq<char>
    decreases c, 0nat,
{
    match c {
        ForClause::Cond(e) => cond_line(st, p, e),
        ForClause::Three { init, cond, post } => labeled_child(st, p, "init:"@, init) + cond_line(st, p, cond)
            + labeled_child(st, p, "post:"@, post),
        ForClause::Range { key, value, define, expr } => p + "range: "@
            + (match key { Some(k) => expr_text(st, k), None => Seq::empty() })
            + (match value { Some(v) => ", "@ + expr_text(st, v), None => Seq::empty() })
            + " "@ + (if define { ":="@ } else { "="@ }) + " "@ + expr_text(st, expr) + ",\n"@,
    }
}

/// A `for` statement.
pub open spec fn for_text(st: SymbolInterner, p: Seq<char>, f: ForStmt) -> Seq<char>
    decreases f, 0nat,
{
    line(p, "For {"@) + clause_text(st, nest(p), f.clause)
        + line(nest(p), "body: {"@) + stmts_text(st, nest(nest(p)), f.body.stmts@, f.body.stmts@.len())
        + line(nest(p), "},"@) + line(p, "},"@)
}

/// A `switch` statement.
pub open spec fn switch_text(st: SymbolInterner, p: Seq<char>, sw: SwitchStmt) -> Seq<char>
    decreases sw, 0nat,
{
    line(p, "Switch {"@)
        + (match sw.tag { Some(t) => nest(p) + "tag: "@ + expr_text(st, t) + ",\n"@, None => Seq::empty() })
        + line(nest(p), "cases: ["@) + cases_text(st, nest(nest(p)), sw.cases@, sw.cases@.len())
        + line(nest(p), "],"@) + line(p, "},"@)
}

/// The first `n` cases of a `switch`.
pub open spec fn cases_text(st: SymbolInterner, p: Seq<char>, cs: Seq<CaseClause>, n: nat) -> Seq<char>
    decreases cs, n,
{
    if n == 0 || n > cs.len() {
        Seq::empty()
    } else {
        let c = cs[n - 1];
        cases_text(st, p, cs, (n - 1) as nat) + p + "case ["@ + exprs_text(st, c.exprs@, c.exprs@.len())
            + "]: {\n"@ + stmts_text(st, nest(p), c.body@, c.body@.len()) + line(p, "},"@)
    }
}

/// The first `n` statements of `ss`.
pub open spec fn stmts_text(st: SymbolInterner, p: Seq<char>, ss: Seq<Stmt>, n: nat) -> Seq<char>
    decreases ss, n,
{
    if n == 0 || n > ss.len() {
        Seq::empty()
    } else {
        stmts_text(st, p, ss, (n - 1) as nat) + stmt_text(st, p, ss[n - 1])
    }
}

/// The first `n` parameter groups of a signature, one per line.
pub open spec fn param_lines(st: SymbolInterner, p: Seq<char>, ps: Seq<Param>, n: nat) -> Seq<char>
    decreases n,
{
    if n == 0 || n > ps.len() {
        Seq::empty()
    } else {
        param_lines(st, p, ps, (n - 1) as nat) + p + "("@ + names_text(st, ps[n - 1].names@, ps[n - 1].names@.len())
            + " "@ + type_text(st, ps[n - 1].ty) + "),\n"@
    }
}

/// The first `n` results of a signature, separated by `", "`.
pub open spec fn results_text(st: SymbolInterner, rs: Seq<ResultParam>, n: nat) -> Seq<char>
    decreases n,
{
    if n == 0 || n > rs.len() {
        Seq::empty()
    } else {
        results_text(st, rs, (n - 1) as nat) + opt(n > 1, ", "@)
            + (match rs[n - 1].name { Some(x) => sym_text(st, x) + " "@, None => Seq::empty() })
            + type_text(st, rs[n - 1].ty)
    }
}

/// A function signature: parameters, results and the variadic mark, each
/// shown only when present.
pub open spec fn sig_text(st: SymbolInterner, p: Seq<char>, sig: FuncSig) -> Seq<char> {
    opt(sig.params@.len() > 0, line(p, "params: ["@) + param_lines(st, nest(p), sig.params@, sig.params@.len())
        + line(p, "],"@))
        + opt(sig.results@.len() > 0, p + "results: ["@ + results_text(st, sig.results@, sig.results@.len())
            + "],\n"@)
        + opt(sig.variadic, line(p, "variadic: true,"@))
}

/// A method receiver line.
pub open spec fn receiver_text(st: SymbolInterner, p: Seq<char>, r: Receiver) -> Seq<char> {
    p + "receiver: ("@ + (match r.name { Some(x) => sym_text(st, x) + " "@, None => Seq::empty() })
        + opt(r.is_pointer, "*"@) + sym_text(st, r.ty) + "),\n"@
}

/// The receiver line (for a method) and the name line of a function.
pub open spec fn func_head_text(st: SymbolInterner, p: Seq<char>, f: FuncDecl) -> Seq<char> {
    (match f.receiver { Some(r) => receiver_text(st, p, r), None => Seq::empty() })
        + p + "name: \""@ + sym_text(st, f.name) + "\",\n"@
}

/// A function declaration.
pub open spec fn func_decl_text(st: SymbolInterner, p: Seq<char>, f: FuncDecl) -> Seq<char> {
    line(p, "Func {"@)
        + func_head_text(st, nest(p), f)
        + sig_text(st, nest(p), f.sig)
        + body_text(st, nest(p), f.body)
        + line(p, "},"@)
}

/// A function body, when there is one.
pub open spec fn body_text(st: SymbolInterner, p: Seq<char>, body: Option<Block>) -> Seq<char> {
    match body {
        Some(b) => line(p, "body: {"@) + stmts_text(st, nest(p), b.stmts@, b.stmts@.len()) + line(p, "},"@),
        None => Seq::empty(),
    }
}

/// A top-level declaration.
pub open spec fn decl_text(st: SymbolInterner, p: Seq<char>, d: Decl) -> Seq<char> {
    match d {
        Decl::Var(v) => var_decl_text(st, p, v),
        Decl::Const(c) => const_decl_text(st, p, c),
        Decl::Type(t) => type_decl_text(st, p, t),
        Decl::Func(f) => func_decl_text(st, p, f),
    }
}

/// The first `n` declarations of `ds`.
pub open spec fn decls_text(st: SymbolInterner, p: Seq<char>, ds: Seq<Decl>, n: nat) -> Seq<char>
    decreases n,
{
    if n == 0 || n > ds.len() {
        Seq::empty()
    } else {
        decls_text(st, p, ds, (n - 1) as nat) + decl_text(st, p, ds[n - 1])
    }
}

/// The first `n` import lines.
pub open spec fn import_lines(st: SymbolInterner, p: Seq<char>, is: Seq<ImportDecl>, n: nat) -> Seq<char>
    decreases n,
{
    if n == 0 || n > is.len() {
        Seq::empty()
    } else {
        import_lines(st, p, is, (n - 1) as nat) + p + sym_text(st, is[n - 1].path) + ",\n"@
    }
}

/// The printed form of a file: its package, its imports and its
/// declarations inside `File { ... }`, the two lists only when not empty.
pub open spec fn file_text(st: SymbolInterner, p: Seq<char>, f: File) -> Seq<char> {
    line(p, "File {"@)
        + (match f.package {
            Some(pkg) => nest(p) + "package: \""@ + sym_text(st, pkg) + "\",\n"@,
            None => line(nest(p), "package: None,"@),
        })
        + opt(f.imports@.len() > 0, line(nest(p), "imports: ["@)
            + import_lines(st, nest(nest(p)), f.imports@, f.imports@.len()) + line(nest(p), "],"@))
        + opt(f.decls@.len() > 0, line(nest(p), "decls: ["@)
            + decls_text(st, nest(nest(p)), f.decls@, f.decls@.len()) + line(nest(p), "],"@))
        + line(p, "}"@)
}

// =============================================================================
// The printer
// =============================================================================

/// Pretty-prints syntax trees for test comparison.
pub struct AstPrinter<'a> {
    interner: &'a SymbolInterner,
    output: String,
    indent: String,
}

impl<'a> AstPrinter<'a> {
    /// The symbol table the printer resolves names with.
    pub closed spec fn symbols(&self) -> SymbolInterner {
        *self.interner
    }

    /// The indentation of the line being written.
    pub closed spec fn indentation(&self) -> Seq<char> {
        self.indent@
    }

    /// The text written so far and not yet handed out.
    pub closed spec fn pending(&self) -> Seq<char> {
        self.output@
    }

    /// `self` is `before` with `text` appended to the output.
    closed spec fn wrote(&self, before: Self, text: Seq<char>) -> bool {
        &&& self.output@ == before.output@ + text
        &&& self.indent@ == before.indent@
        &&& self.interner == before.interner
    }

    /// Creates a printer that resolves names with `interner`.
    pub fn new(interner: &'a SymbolInterner) -> (p: Self)
        ensures
            p.symbols() == *interner,
            p.indentation() == Seq::<char>::empty(),
            p.pending() == Seq::<char>::empty(),
    {
        AstPrinter { interner, output: String::new(), indent: String::new() }
    }

    fn put(&mut self, s: &str)
        ensures
            final(self).wrote(*old(self), s@),
    {
        self.output.append(s);
    }

    fn put_symbol(&mut self, s: Symbol)
        ensures
            final(self).wrote(*old(self), sym_text(old(self).symbols(), s)),
    {
        let st = self.interner;
        self.output.append(symbol_name(st, s));
    }

    fn write_names(&mut self, names: &Vec<Symbol>)
        ensures
            final(self).wrote(*old(self), names_text(old(self).symbols(), names@, names@.len())),
    {
        let ghost start = *self;
        let mut i: usize = 0;
        while i < names.len()
            invariant
                i <= names@.len(),
                self.wrote(start, names_text(start.symbols(), names@, i as nat)),
            decreases names@.len() - i,
        {
            if i > 0 {
                self.put(", ");
            }
            self.put_symbol(names[i]);
            i = i + 1;
            assert(self.output@ =~= start.output@ + names_text(start.symbols(), names@, i as nat));
        }
    }

    fn write_quoted_names(&mut self, names: &Vec<Symbol>)
        ensures
            final(self).wrote(*old(self), quoted_names_text(old(self).symbols(), names@, names@.len())),
    {
        let ghost start = *self;
        let mut i: usize = 0;
        while i < names.len()
            invariant
                i <= names@.len(),
                self.wrote(start, quoted_names_text(start.symbols(), names@, i as nat)),
            decreases names@.len() - i,
        {
            if i > 0 {
                self.put(", ");
            }
            self.put("\"");
            self.put_symbol(names[i]);
            self.put("\"");
            i = i + 1;
            assert(self.output@ =~= start.output@ + quoted_names_text(start.symbols(), names@, i as nat));
        }
    }

    fn write_interface_elems(&mut self, elems: &Vec<InterfaceElem>)
        ensures
            final(self).wrote(*old(self), interface_elems_text(old(self).symbols(), elems@, elems@.len())),
    {
        let ghost start = *self;
        let mut i: usize = 0;
        while i < elems.len()
            invariant
                i <= elems@.len(),
                self.wrote(start, interface_elems_text(start.symbols(), elems@, i as nat)),
            decreases elems@.len() - i,
        {
            match &elems[i] {
                InterfaceElem::Method(m) => {
                    self.put_symbol(*m);
                    self.put("(); ");
                },
                InterfaceElem::Embedded(x) => {
                    self.put_symbol(*x);
                    self.put("; ");
                },
                InterfaceElem::EmbeddedQualified { pkg, name } => {
                    self.put_symbol(*pkg);
                    self.put(".");
                    self.put_symbol(*name);
                    self.put("; ");
                },
            }
            i = i + 1;
            assert(self.output@ =~= start.output@ + interface_elems_text(start.symbols(), elems@, i as nat));
        }
    }

    #[verifier::spinoff_prover]
    #[verifier::rlimit(40)]
    fn write_type_inline(&mut self, ty: &TypeExpr)
        ensures
            final(self).wrote(*old(self), type_text(old(self).symbols(), *ty)),
        decreases ty,
    {
        let ghost start = *self;
        let ghost st = self.symbols();
        match ty {
            TypeExpr::Ident(s) => {
                self.put_symbol(*s);
            },
            TypeExpr::Selector { pkg, sel } => {
                self.put_symbol(*pkg);
                self.put(".");
                self.put_symbol(*sel);
            },
            TypeExpr::Array { len, elem } => {
                self.put("[");
                self.write_expr_inline(len);
                self.put("]");
                self.write_type_inline(elem);
            },
            TypeExpr::Slice(elem) => {
                self.put("[]");
                self.write_type_inline(elem);
            },
            TypeExpr::MapType { key, value } => {
                self.put("map[");
                self.write_type_inline(key);
                self.put("]");
                self.write_type_inline(value);
            },
            TypeExpr::Chan { dir, elem } => {
                match dir {
                    ChanDir::Both => self.put("chan "),
                    ChanDir::Send => self.put("chan<- "),
                    ChanDir::Recv => self.put("<-chan "),
                }
                self.write_type_inline(elem);
            },
            TypeExpr::Func { params, results } => {
                self.put("func(");
                let ghost mid = *self;
                let mut i: usize = 0;
                while i < params.len()
                    invariant
                        i <= params@.len(),
                        self.wrote(mid, types_text(st, params@, i as nat)),
                        st == mid.symbols(),
                        decreases_to!(*ty => params@),
                    decreases params@.len() - i,
                {
                    if i > 0 {
                        self.put(", ");
                    }
                    self.write_type_inline(&params[i]);
                    i = i + 1;
                    assert(self.output@ =~= mid.output@ + types_text(st, params@, i as nat));
                }
                self.put(")");
                if results.len() > 0 {
                    self.put(" ");
                    if results.len() > 1 {
                        self.put("(");
                    }
                    let ghost mid2 = *self;
                    let mut j: usize = 0;
                    while j < results.len()
                        invariant
                            j <= results@.len(),
                            self.wrote(mid2, types_text(st, results@, j as nat)),
                            st == mid2.symbols(),
                            decreases_to!(*ty => results@),
                        decreases results@.len() - j,
                    {
                        if j > 0 {
                            self.put(", ");
                        }
                        self.write_type_inline(&results[j]);
                        j = j + 1;
                        assert(self.output@ =~= mid2.output@ + types_text(st, results@, j as nat));
                    }
                    if results.len() > 1 {
                        self.put(")");
                    }
                }
            },
            TypeExpr::Struct { fields } => {
                self.put("struct { ");
                let ghost mid = *self;
                let mut i: usize = 0;
                while i < fields.len()
                    invariant
                        i <= fields@.len(),
                        self.wrote(mid, field_decls_text(st, fields@, i as nat)),
                        st == mid.symbols(),
                        decreases_to!(*ty => fields@),
                    decreases fields@.len() - i,
                {
                    let field = &fields[i];
                    self.write_names(&field.names);
                    if field.names.len() > 0 {
                        self.put(" ");
                    }
                    self.write_type_inline(&field.ty);
                    self.put("; ");
                    i = i + 1;
                    assert(self.output@ =~= mid.output@ + field_decls_text(st, fields@, i as nat));
                }
                self.put("}");
            },
            TypeExpr::Pointer(elem) => {
                self.put("*");
                self.write_type_inline(elem);
            },
            TypeExpr::Interface { elems } => {
                self.put("interface { ");
                self.write_interface_elems(elems);
                self.put("}");
            },
            TypeExpr::Port(elem) => {
                self.put("port ");
                self.write_type_inline(elem);
            },
            TypeExpr::Island => {
                self.put("island");
            },
        }
        assert(self.output@ =~= start.output@ + type_text(st, *ty));
    }

    fn write_call_args(&mut self, args: &Vec<Expr>, spread: bool)
        ensures
            final(self).wrote(*old(self), call_args_text(old(self).symbols(), args@, spread)),
        decreases args@,
    {
        let ghost start = *self;
        let ghost st = self.symbols();
        self.put("(");
        let ghost mid = *self;
        let mut i: usize = 0;
        while i < args.len()
            invariant
                i <= args@.len(),
                self.wrote(mid, exprs_text(st, args@, i as nat)),
                st == mid.symbols(),
            decreases args@.len() - i,
        {
            if i > 0 {
                self.put(", ");
            }
            self.write_expr_inline(&args[i]);
            i = i + 1;
            assert(self.output@ =~= mid.output@ + exprs_text(st, args@, i as nat));
        }
        if spread {
            self.put("...");
        }
        self.put(")");
        assert(self.output@ =~= start.output@ + call_args_text(st, args@, spread));
    }

    #[verifier::spinoff_prover]
    #[verifier::rlimit(40)]
    fn write_expr_inline(&mut self, expr: &Expr)
        ensures
            final(self).wrote(*old(self), expr_text(old(self).symbols(), *expr)),
        decreases expr,
    {
        let ghost start = *self;
        let ghost st = self.symbols();
        match expr {
            Expr::Ident(s) => self.put_symbol(*s),
            Expr::IntLit(s) => self.put_symbol(*s),
            Expr::FloatLit(s) => self.put_symbol(*s),
            Expr::RuneLit(s) => self.put_symbol(*s),
            Expr::StringLit(s) => self.put_symbol(*s),
            Expr::Binary { left, op, right } => {
                self.put("(");
                self.write_expr_inline(left);
                self.put(" ");
                self.put(op.as_str());
                self.put(" ");
                self.write_expr_inline(right);
                self.put(")");
            },
            Expr::Unary { op, operand } => {
                self.put(op.as_str());
                self.put("(");
                self.write_expr_inline(operand);
                self.put(")");
            },
            Expr::Call { func, args, spread } => {
                self.write_expr_inline(func);
                self.write_call_args(args, *spread);
            },
            Expr::Index { expr: x, index } => {
                self.write_expr_inline(x);
                self.put("[");
                self.write_expr_inline(index);
                self.put("]");
            },
            Expr::Slice { expr: x, low, high } => {
                self.write_expr_inline(x);
                self.put("[");
                let ghost m1 = *self;
                if let Some(l) = low {
                    self.write_expr_inline(l);
                }
                assert(self.output@ =~= m1.output@ + (match *low { Some(l) => expr_text(st, *l), None => Seq::empty() }));
                self.put(":");
                let ghost m2 = *self;
                if let Some(h) = high {
                    self.write_expr_inline(h);
                }
                assert(self.output@ =~= m2.output@ + (match *high { Some(h) => expr_text(st, *h), None => Seq::empty() }));
                self.put("]");
            },
            Expr::Selector { expr: x, sel } => {
                self.write_expr_inline(x);
                self.put(".");
                self.put_symbol(*sel);
            },
            Expr::TypeAssert { expr: x, ty } => {
                self.write_expr_inline(x);
                self.put(".(");
                if let Some(t) = ty {
                    self.write_type_inline(t);
                } else {
                    self.put("type");
                }
                self.put(")");
            },
            Expr::CompositeLit { ty, elems } => {
                if let Some(t) = ty {
                    self.write_type_inline(t);
                }
                let ghost m1 = *self;
                assert(m1.output@ =~= start.output@ + (match *ty { Some(t) => type_text(st, *t), None => Seq::empty() }));
                self.put("{");
                let ghost mid = *self;
                let mut i: usize = 0;
                while i < elems.len()
                    invariant
                        i <= elems@.len(),
                        self.wrote(mid, elems_text(st, elems@, i as nat)),
                        st == mid.symbols(),
                        decreases_to!(*expr => elems@),
                    decreases elems@.len() - i,
                {
                    let elem = &elems[i];
                    if i > 0 {
                        self.put(", ");
                    }
                    match &elem.key {
                        Some(CompositeLitKey::Ident(id)) => {
                            self.put_symbol(*id);
                            self.put(": ");
                        },
                        Some(CompositeLitKey::Expr(k)) => {
                            self.write_expr_inline(k);
                            self.put(": ");
                        },
                        None => {},
                    }
                    self.write_expr_inline(&elem.value);
                    i = i + 1;
                    assert(self.output@ =~= mid.output@ + elems_text(st, elems@, i as nat));
                }
                self.put("}");
            },
            Expr::FuncLit => self.put("func(...) { ... }"),
            Expr::Conversion { ty, expr: x } => {
                self.write_type_inline(ty);
                self.put("(");
                self.write_expr_inline(x);
                self.put(")");
            },
            Expr::Receive(x) => {
                self.put("<-");
                self.write_expr_inline(x);
            },
            Expr::Paren(x) => {
                self.put("(");
                self.write_expr_inline(x);
                self.put(")");
            },
            Expr::TypeAsExpr(t) => self.write_type_inline(t),
            Expr::TryUnwrap(x) => {
                self.write_expr_inline(x);
                self.put("?");
            },
            Expr::DynAccess { base, op } => {
                self.write_expr_inline(base);
                self.put("~>");
                match op {
                    DynAccessOp::Field(f) => self.put_symbol(*f),
                    DynAccessOp::Index(i) => {
                        self.put("[");
                        self.write_expr_inline(i);
                        self.put("]");
                    },
                    DynAccessOp::Call { args, spread } => self.write_call_args(args, *spread),
                    DynAccessOp::MethodCall { method, args, spread } => {
                        self.put_symbol(*method);
                        self.write_call_args(args, *spread);
                    },
                }
            },
            Expr::Ellipsis => self.put("..."),
        }
        assert(self.output@ =~= start.output@ + expr_text(st, *expr));
    }

    fn enter(&mut self) -> (saved: String)
        ensures
            saved@ == old(self).indent@,
            final(self).indent@ == nest(old(self).indent@),
            final(self).output@ == old(self).output@,
            final(self).interner == old(self).interner,
    {
        let saved = self.indent.clone();
        self.indent.append("  ");
        saved
    }

    fn leave(&mut self, saved: String)
        ensures
            final(self).indent@ == saved@,
            final(self).output@ == old(self).output@,
            final(self).interner == old(self).interner,
    {
        self.indent = saved;
    }

    fn write_indent(&mut self)
        ensures
            final(self).wrote(*old(self), old(self).indent@),
    {
        self.output.append(self.indent.as_str());
    }

    fn writeln(&mut self, s: &str)
        ensures
            final(self).wrote(*old(self), line(old(self).indent@, s@)),
    {
        let ghost start = *self;
        self.write_indent();
        self.output.append(s);
        self.output.append("\n");
        assert(self.output@ =~= start.output@ + line(start.indent@, s@));
    }

    fn write_exprs(&mut self, es: &Vec<Expr>)
        ensures
            final(self).wrote(*old(self), exprs_text(old(self).symbols(), es@, es@.len())),
    {
        let ghost start = *self;
        let ghost st = self.symbols();
        let mut i: usize = 0;
        while i < es.len()
            invariant
                i <= es@.len(),
                self.wrote(start, exprs_text(st, es@, i as nat)),
                st == start.symbols(),
            decreases es@.len() - i,
        {
            if i > 0 {
                self.put(", ");
            }
            self.write_expr_inline(&es[i]);
            i = i + 1;
            assert(self.output@ =~= start.output@ + exprs_text(st, es@, i as nat));
        }
    }

    fn write_expr(&mut self, e: &Expr)
        ensures
            final(self).wrote(*old(self), old(self).indent@ + expr_text(old(self).symbols(), *e) + ",\n"@),
    {
        let ghost start = *self;
        self.write_indent();
        self.write_expr_inline(e);
        self.put(",\n");
        assert(self.output@ =~= start.output@ + (start.indent@ + expr_text(start.symbols(), *e) + ",\n"@));
    }

    fn write_expr_lines(&mut self, es: &Vec<Expr>)
        ensures
            final(self).wrote(*old(self), expr_lines(old(self).symbols(), old(self).indent@, es@, es@.len())),
    {
        let ghost start = *self;
        let ghost st = self.symbols();
        let mut i: usize = 0;
        while i < es.len()
            invariant
                i <= es@.len(),
                self.wrote(start, expr_lines(st, start.indent@, es@, i as nat)),
                st == start.symbols(),
            decreases es@.len() - i,
        {
            self.write_expr(&es[i]);
            i = i + 1;
            assert(self.output@ =~= start.output@ + expr_lines(st, start.indent@, es@, i as nat));
        }
    }

    fn write_value_spec(&mut self, header: &str, spec: &ValueSpec)
        ensures
            final(self).wrote(*old(self), value_spec_text(old(self).symbols(), old(self).indent@, header@, *spec)),
    {
        let ghost start = *self;
        let ghost st = self.symbols();
        let ghost p = self.indent@;
        self.writeln(header);
        let saved = self.enter();
        self.write_indent();
        self.put("names: [");
        self.write_quoted_names(&spec.names);
        self.put("],\n");
        let ghost m1 = *self;
        if let Some(ty) = &spec.ty {
            self.write_indent();
            self.put("type: ");
            self.write_type_inline(ty);
            self.put(",\n");
        }
        assert(self.output@ =~= m1.output@ + (match spec.ty {
            Some(t) => nest(p) + "type: "@ + type_text(st, t) + ",\n"@,
            None => Seq::empty(),
        }));
        let ghost m2 = *self;
        if spec.values.len() > 0 {
            self.writeln("values: [");
            let saved2 = self.enter();
            self.write_expr_lines(&spec.values);
            self.leave(saved2);
            self.writeln("],");
        }
        assert(self.output@ =~= m2.output@ + opt(spec.values@.len() > 0, line(nest(p), "values: ["@)
            + expr_lines(st, nest(nest(p)), spec.values@, spec.values@.len()) + line(nest(p), "],"@)));
        self.leave(saved);
        self.writeln("},");
        assert(self.output@ =~= start.output@ + value_spec_text(st, p, header@, *spec));
    }

    fn write_value_decl(&mut self, title: &str, header: &str, specs: &Vec<ValueSpec>)
        ensures
            final(self).wrote(*old(self), value_decl_text(old(self).symbols(), old(self).indent@, title@, header@, specs@)),
    {
        let ghost start = *self;
        let ghost st = self.symbols();
        let ghost p = self.indent@;
        self.writeln(title);
        let saved = self.enter();
        self.writeln("specs: [");
        let saved2 = self.enter();
        let ghost mid = *self;
        let mut i: usize = 0;
        while i < specs.len()
            invariant
                i <= specs@.len(),
                self.wrote(mid, value_specs_text(st, nest(nest(p)), header@, specs@, i as nat)),
                st == mid.symbols(),
                mid.indent@ == nest(nest(p)),
            decreases specs@.len() - i,
        {
            self.write_value_spec(header, &specs[i]);
            i = i + 1;
            assert(self.output@ =~= mid.output@ + value_specs_text(st, nest(nest(p)), header@, specs@, i as nat));
        }
        self.leave(saved2);
        self.writeln("],");
        self.leave(saved);
        self.writeln("},");
        assert(self.output@ =~= start.output@ + value_decl_text(st, p, title@, header@, specs@));
    }

    fn write_var_decl(&mut self, v: &VarDecl)
        ensures
            final(self).wrote(*old(self), var_decl_text(old(self).symbols(), old(self).indent@, *v)),
    {
        self.write_value_decl("Var {", "VarSpec {", &v.specs);
    }

    fn write_const_decl(&mut self, c: &ConstDecl)
        ensures
            final(self).wrote(*old(self), const_decl_text(old(self).symbols(), old(self).indent@, *c)),
    {
        self.write_value_decl("Const {", "ConstSpec {", &c.specs);
    }

    fn write_type_decl(&mut self, t: &TypeDecl)
        ensures
            final(self).wrote(*old(self), type_decl_text(old(self).symbols(), old(self).indent@, *t)),
    {
        let ghost start = *self;
        self.write_indent();
        self.put("Type { name: \"");
        self.put_symbol(t.name);
        self.put("\", type: ");
        self.write_type_inline(&t.ty);
        let ghost m = *self;
        if t.is_alias {
            self.put(", alias: true");
        }
        assert(self.output@ =~= m.output@ + opt(t.is_alias, ", alias: true"@));
        self.put(" },\n");
        assert(self.output@ =~= start.output@ + type_decl_text(start.symbols(), start.indent@, *t));
    }

    fn write_stmts(&mut self, stmts: &Vec<Stmt>)
        ensures
            final(self).wrote(*old(self), stmts_text(old(self).symbols(), old(self).indent@, stmts@, stmts@.len())),
        decreases stmts@,
    {
        let ghost start = *self;
        let ghost st = self.symbols();
        let mut i: usize = 0;
        while i < stmts.len()
            invariant
                i <= stmts@.len(),
                self.wrote(start, stmts_text(st, start.indent@, stmts@, i as nat)),
                st == start.symbols(),
            decreases stmts@.len() - i,
        {
            self.write_stmt(&stmts[i]);
            i = i + 1;
            assert(self.output@ =~= start.output@ + stmts_text(st, start.indent@, stmts@, i as nat));
        }
    }

    fn write_labeled_child(&mut self, label: &str, s: &Option<Box<Stmt>>)
        ensures
            final(self).wrote(*old(self), labeled_child(old(self).symbols(), old(self).indent@, label@, *s)),
        decreases s,
    {
        let ghost start = *self;
        if let Some(x) = s {
            self.writeln(label);
            let saved = self.enter();
            self.write_stmt(x);
            self.leave(saved);
        }
        assert(self.output@ =~= start.output@ + labeled_child(start.symbols(), start.indent@, label@, *s));
    }

    fn write_cond_line(&mut self, c: &Option<Expr>)
        ensures
            final(self).wrote(*old(self), cond_line(old(self).symbols(), old(self).indent@, *c)),
    {
        let ghost start = *self;
        if let Some(e) = c {
            self.write_indent();
            self.put("cond: ");
            self.write_expr_inline(e);
            self.put(",\n");
        }
        assert(self.output@ =~= start.output@ + cond_line(start.symbols(), start.indent@, *c));
    }

    #[verifier::spinoff_prover]
    #[verifier::rlimit(40)]
    fn write_if(&mut self, i: &IfStmt)
        ensures
            final(self).wrote(*old(self), if_text(old(self).symbols(), old(self).indent@, *i)),
        decreases i,
    {
        let ghost start = *self;
        self.writeln("If {");
        let saved = self.enter();
        self.write_labeled_child("init:", &i.init);
        self.write_indent();
        self.put("cond: ");
        self.write_expr_inline(&i.cond);
        self.put(",\n");
        self.writeln("then: {");
        let saved2 = self.enter();
        self.write_stmts(&i.then_branch.stmts);
        self.leave(saved2);
        self.writeln("},");
        self.write_labeled_child("else:", &i.else_);
        self.leave(saved);
        self.writeln("},");
        assert(self.output@ =~= start.output@ + if_text(start.symbols(), start.indent@, *i));
    }

    #[verifier::rlimit(60)]
    fn write_for_clause(&mut self, c: &ForClause)
        ensures
            final(self).wrote(*old(self), clause_text(old(self).symbols(), old(self).indent@, *c)),
        decreases c,
    {
        let ghost start = *self;
        let ghost st = self.symbols();
        match c {
            ForClause::Cond(e) => self.write_cond_line(e),
            ForClause::Three { init, cond, post } => {
                self.write_labeled_child("init:", init);
                self.write_cond_line(cond);
                self.write_labeled_child("post:", post);
            },
            ForClause::Range { key, value, define, expr } => {
                self.write_indent();
                self.put("range: ");
                let ghost m1 = *self;
                if let Some(k) = key {
                    self.write_expr_inline(k);
                }
                assert(self.output@ =~= m1.output@ + (match *key { Some(k) => expr_text(st, k), None => Seq::empty() }));
                let ghost m2 = *self;
                if let Some(v) = value {
                    self.put(", ");
                    self.write_expr_inline(v);
                }
                assert(self.output@ =~= m2.output@ + (match *value { Some(v) => ", "@ + expr_text(st, v), None => Seq::empty() }));
                self.put(" ");
                self.put(if *define { ":=" } else { "=" });
                self.put(" ");
                self.write_expr_inline(expr);
                self.put(",\n");
            },
        }
        assert(self.output@ =~= start.output@ + clause_text(st, start.indent@, *c));
    }

    fn write_for(&mut self, f: &ForStmt)
        ensures
            final(self).wrote(*old(self), for_text(old(self).symbols(), old(self).indent@, *f)),
        decreases f,
    {
        let ghost start = *self;
        self.writeln("For {");
        let saved = self.enter();
        self.write_for_clause(&f.clause);
        self.writeln("body: {");
        let saved2 = self.enter();
        self.write_stmts(&f.body.stmts);
        self.leave(saved2);
        self.writeln("},");
        self.leave(saved);
        self.writeln("},");
        assert(self.output@ =~= start.output@ + for_text(start.symbols(), start.indent@, *f));
    }

    fn write_case(&mut self, case: &CaseClause)
        ensures
            final(self).wrote(*old(self), old(self).indent@ + "case ["@
                + exprs_text(old(self).symbols(), case.exprs@, case.exprs@.len()) + "]: {\n"@
                + stmts_text(old(self).symbols(), nest(old(self).indent@), case.body@, case.body@.len())
                + line(old(self).indent@, "},"@)),
        decreases case,
    {
        let ghost start = *self;
        let ghost st = self.symbols();
        let ghost p = self.indent@;
        self.write_indent();
        self.put("case [");
        self.write_exprs(&case.exprs);
        self.put("]: {\n");
        let saved = self.enter();
        self.write_stmts(&case.body);
        self.leave(saved);
        self.writeln("},");
        assert(self.output@ =~= start.output@ + (p + "case ["@ + exprs_text(st, case.exprs@, case.exprs@.len())
            + "]: {\n"@ + stmts_text(st, nest(p), case.body@, case.body@.len()) + line(p, "},"@)));
    }

    fn write_cases(&mut self, cases: &Vec<CaseClause>)
        ensures
            final(self).wrote(*old(self), cases_text(old(self).symbols(), old(self).indent@, cases@, cases@.len())),
        decreases cases@,
    {
        let ghost start = *self;
        let ghost st = self.symbols();
        let ghost p = self.indent@;
        let mut i: usize = 0;
        while i < cases.len()
            invariant
                i <= cases@.len(),
                self.wrote(start, cases_text(st, p, cases@, i as nat)),
                st == start.symbols(),
                p == start.indent@,
            decreases cases@.len() - i,
        {
            self.write_case(&cases[i]);
            i = i + 1;
            assert(self.output@ =~= start.output@ + cases_text(st, p, cases@, i as nat));
        }
    }

    fn write_switch(&mut self, sw: &SwitchStmt)
        ensures
            final(self).wrote(*old(self), switch_text(old(self).symbols(), old(self).indent@, *sw)),
        decreases sw,
    {
        let ghost start = *self;
        let ghost st = self.symbols();
        let ghost p = self.indent@;
        self.writeln("Switch {");
        let saved = self.enter();
        let ghost m1 = *self;
        if let Some(tag) = &sw.tag {
            self.write_indent();
            self.put("tag: ");
            self.write_expr_inline(tag);
            self.put(",\n");
        }
        assert(self.output@ =~= m1.output@ + (match sw.tag {
            Some(t) => nest(p) + "tag: "@ + expr_text(st, t) + ",\n"@,
            None => Seq::empty(),
        }));
        self.writeln("cases: [");
        let saved2 = self.enter();
        self.write_cases(&sw.cases);
        self.leave(saved2);
        self.writeln("],");
        self.leave(saved);
        self.writeln("},");
        assert(self.output@ =~= start.output@ + switch_text(st, p, *sw));
    }

    #[verifier::spinoff_prover]
    #[verifier::rlimit(40)]
    fn write_stmt(&mut self, stmt: &Stmt)
        ensures
            final(self).wrote(*old(self), stmt_text(old(self).symbols(), old(self).indent@, *stmt)),
            final(self).indentation() == old(self).indentation(),
            starts_with(final(self).pending(), old(self).pending() + old(self).indentation()),
            final(self).pending().last() == '\n',
        decreases stmt,
    {
        let ghost start = *self;
        let ghost st = self.symbols();
        proof {
            lemma_stmt_text_is_lines(st, start.indent@, *stmt);
        }
        match stmt {
            Stmt::Empty => self.writeln("Empty,"),
            Stmt::Block(b) => {
                self.writeln("Block {");
                let saved = self.enter();
                self.write_stmts(&b.stmts);
                self.leave(saved);
                self.writeln("},");
            },
            Stmt::Var(v) => self.write_var_decl(v),
            Stmt::Const(c) => self.write_const_decl(c),
            Stmt::ShortVar { names, values } => {
                self.write_indent();
                self.put("ShortVar { names: [");
                self.write_quoted_names(names);
                self.put("], values: [");
                self.write_exprs(values);
                self.put("] },\n");
            },
            Stmt::Expr(e) => {
                self.write_indent();
                self.put("Expr(");
                self.write_expr_inline(e);
                self.put("),\n");
            },
            Stmt::Assign { lhs, op, rhs } => {
                self.write_indent();
                self.put("Assign { lhs: [");
                self.write_exprs(lhs);
                self.put("], op: ");
                self.put(op.as_str());
                self.put(", rhs: [");
                self.write_exprs(rhs);
                self.put("] },\n");
            },
            Stmt::IncDec { expr, is_inc } => {
                self.write_indent();
                self.put("IncDec { expr: ");
                self.write_expr_inline(expr);
                self.put(", inc: ");
                self.put(if *is_inc { "true" } else { "false" });
                self.put(" },\n");
            },
            Stmt::Return { values } => {
                self.write_indent();
                self.put("Return [");
                self.write_exprs(values);
                self.put("],\n");
            },
            Stmt::If(i) => self.write_if(i),
            Stmt::For(f) => self.write_for(f),
            Stmt::Switch(sw) => self.write_switch(sw),
            Stmt::TypeSwitch => self.writeln("TypeSwitch { ... },"),
            Stmt::Select => self.writeln("Select { ... },"),
            Stmt::Go(c) => {
                self.write_indent();
                self.put("Go(");
                self.write_expr_inline(c);
                self.put("),\n");
            },
            Stmt::Defer(c) => {
                self.write_indent();
                self.put("Defer(");
                self.write_expr_inline(c);
                self.put("),\n");
            },
            Stmt::Send { chan, value } => {
                self.write_indent();
                self.put("Send { chan: ");
                self.write_expr_inline(chan);
                self.put(", value: ");
                self.write_expr_inline(value);
                self.put(" },\n");
            },
            Stmt::Break(label) => {
                self.write_indent();
                if let Some(l) = label {
                    self.put("Break(");
                    self.put_symbol(*l);
                    self.put("),\n");
                } else {
                    self.put("Break,\n");
                }
            },
            Stmt::Continue(label) => {
                self.write_indent();
                if let Some(l) = label {
                    self.put("Continue(");
                    self.put_symbol(*l);
                    self.put("),\n");
                } else {
                    self.put("Continue,\n");
                }
            },
            Stmt::Goto(l) => {
                self.write_indent();
                self.put("Goto(");
                self.put_symbol(*l);
                self.put("),\n");
            },
            Stmt::Fallthrough => self.writeln("Fallthrough,"),
            Stmt::Labeled { label, stmt: inner } => {
                self.write_indent();
                self.put("Label(");
                self.put_symbol(*label);
                self.put("):\n");
                let saved = self.enter();
                self.write_stmt(inner);
                self.leave(saved);
            },
            Stmt::Type(t) => {
                self.write_indent();
                self.put("Type { name: \"");
                self.put_symbol(t.name);
                self.put("\", ty: ... },\n");
            },
            Stmt::ErrDefer(c) => {
                self.write_indent();
                self.put("ErrDefer { call: ");
                self.write_expr_inline(c);
                self.put(" },\n");
            },
            Stmt::Fail(e) => {
                self.write_indent();
                self.put("Fail { error: ");
                self.write_expr_inline(e);
                self.put(" },\n");
            },
        }
        assert(self.output@ =~= start.output@ + stmt_text(st, start.indent@, *stmt));
        proof {
            let t = stmt_text(st, start.indent@, *stmt);
            let o = start.output@;
            let p = start.indent@;
            assert(t.subrange(0, p.len() as int) == p);
            assert((o + t).subrange(0, (o + p).len() as int) =~= o + p) by {
                assert forall|j: int| 0 <= j < (o + p).len() implies (o + t).subrange(0, (o + p).len() as int)[j] == (o + p)[j] by {
                    if j >= o.len() {
                        assert(t[j - o.len()] == t.subrange(0, p.len() as int)[j - o.len()]);
                    }
                }
            }
            assert((o + t).last() == t.last());
        }
    }

    fn write_params(&mut self, params: &Vec<Param>)
        ensures
            final(self).wrote(*old(self), param_lines(old(self).symbols(), old(self).indent@, params@, params@.len())),
    {
        let ghost start = *self;
        let ghost st = self.symbols();
        let ghost p = self.indent@;
        let mut i: usize = 0;
        while i < params.len()
            invariant
                i <= params@.len(),
                self.wrote(start, param_lines(st, p, params@, i as nat)),
                st == start.symbols(),
                p == start.indent@,
            decreases params@.len() - i,
        {
            let param = &params[i];
            self.write_indent();
            self.put("(");
            self.write_names(&param.names);
            self.put(" ");
            self.write_type_inline(&param.ty);
            self.put("),\n");
            i = i + 1;
            assert(self.output@ =~= start.output@ + param_lines(st, p, params@, i as nat));
        }
    }

    fn write_results(&mut self, results: &Vec<ResultParam>)
        ensures
            final(self).wrote(*old(self), results_text(old(self).symbols(), results@, results@.len())),
    {
        let ghost start = *self;
        let ghost st = self.symbols();
        let mut i: usize = 0;
        while i < results.len()
            invariant
                i <= results@.len(),
                self.wrote(start, results_text(st, results@, i as nat)),
                st == start.symbols(),
            decreases results@.len() - i,
        {
            let result = &results[i];
            if i > 0 {
                self.put(", ");
            }
            let ghost m = *self;
            if let Some(name) = &result.name {
                self.put_symbol(*name);
                self.put(" ");
            }
            assert(self.output@ =~= m.output@ + (match result.name {
                Some(x) => sym_text(st, x) + " "@,
                None => Seq::empty(),
            }));
            self.write_type_inline(&result.ty);
            i = i + 1;
            assert(self.output@ =~= start.output@ + results_text(st, results@, i as nat));
        }
    }

    fn write_func_sig(&mut self, sig: &FuncSig)
        ensures
            final(self).wrote(*old(self), sig_text(old(self).symbols(), old(self).indent@, *sig)),
    {
        let ghost start = *self;
        let ghost st = self.symbols();
        let ghost p = self.indent@;
        if sig.params.len() > 0 {
            self.writeln("params: [");
            let saved = self.enter();
            self.write_params(&sig.params);
            self.leave(saved);
            self.writeln("],");
        }
        let ghost m1 = *self;
        assert(m1.output@ =~= start.output@ + opt(sig.params@.len() > 0, line(p, "params: ["@)
            + param_lines(st, nest(p), sig.params@, sig.params@.len()) + line(p, "],"@)));
        if sig.results.len() > 0 {
            self.write_indent();
            self.put("results: [");
            self.write_results(&sig.results);
            self.put("],\n");
        }
        let ghost m2 = *self;
        assert(m2.output@ =~= m1.output@ + opt(sig.results@.len() > 0, p + "results: ["@
            + results_text(st, sig.results@, sig.results@.len()) + "],\n"@));
        if sig.variadic {
            self.writeln("variadic: true,");
        }
        assert(self.output@ =~= m2.output@ + opt(sig.variadic, line(p, "variadic: true,"@)));
        assert(self.output@ =~= start.output@ + sig_text(st, p, *sig));
    }

    fn write_receiver(&mut self, recv: &Receiver)
        ensures
            final(self).wrote(*old(self), receiver_text(old(self).symbols(), old(self).indent@, *recv)),
    {
        let ghost start = *self;
        let ghost st = self.symbols();
        self.write_indent();
        self.put("receiver: (");
        let ghost m = *self;
        if let Some(name) = &recv.name {
            self.put_symbol(*name);
            self.put(" ");
        }
        assert(self.output@ =~= m.output@ + (match recv.name { Some(x) => sym_text(st, x) + " "@, None => Seq::empty() }));
        let ghost m2 = *self;
        if recv.is_pointer {
            self.put("*");
        }
        assert(self.output@ =~= m2.output@ + opt(recv.is_pointer, "*"@));
        self.put_symbol(recv.ty);
        self.put("),\n");
        assert(self.output@ =~= start.output@ + receiver_text(st, start.indent@, *recv));
    }

    fn write_opt_receiver(&mut self, recv: &Option<Receiver>)
        ensures
            final(self).wrote(*old(self), match *recv {
                Some(r) => receiver_text(old(self).symbols(), old(self).indent@, r),
                None => Seq::empty(),
            }),
    {
        let ghost start = *self;
        if let Some(r) = recv {
            self.write_receiver(r);
        }
        assert(self.output@ =~= start.output@ + match *recv {
            Some(r) => receiver_text(start.symbols(), start.indent@, r),
            None => Seq::empty(),
        });
    }

    fn write_opt_body(&mut self, body: &Option<Block>)
        ensures
            final(self).wrote(*old(self), body_text(old(self).symbols(), old(self).indent@, *body)),
    {
        let ghost start = *self;
        let ghost st = self.symbols();
        let ghost p = self.indent@;
        if let Some(b) = body {
            self.writeln("body: {");
            let saved = self.enter();
            self.write_stmts(&b.stmts);
            self.leave(saved);
            self.writeln("},");
        }
        assert(self.output@ =~= start.output@ + body_text(st, p, *body));
    }

    fn write_func_head(&mut self, f: &FuncDecl)
        ensures
            final(self).wrote(*old(self), func_head_text(old(self).symbols(), old(self).indent@, *f)),
    {
        let ghost start = *self;
        self.write_opt_receiver(&f.receiver);
        self.write_indent();
        self.put("name: \"");
        self.put_symbol(f.name);
        self.put("\",\n");
        assert(self.output@ =~= start.output@ + func_head_text(start.symbols(), start.indent@, *f));
    }

    #[verifier::spinoff_prover]
    #[verifier::rlimit(40)]
    fn write_func_decl(&mut self, f: &FuncDecl)
        ensures
            final(self).wrote(*old(self), func_decl_text(old(self).symbols(), old(self).indent@, *f)),
    {
        let ghost start = *self;
        let ghost st = self.symbols();
        let ghost p = self.indent@;
        self.writeln("Func {");
        let saved = self.enter();
        self.write_func_head(f);
        self.write_func_sig(&f.sig);
        self.write_opt_body(&f.body);
        self.leave(saved);
        self.writeln("},");
        assert(self.output@ =~= start.output@ + func_decl_text(st, p, *f));
    }

    fn write_decl(&mut self, decl: &Decl)
        ensures
            final(self).wrote(*old(self), decl_text(old(self).symbols(), old(self).indent@, *decl)),
    {
        match decl {
            Decl::Var(v) => self.write_var_decl(v),
            Decl::Const(c) => self.write_const_decl(c),
            Decl::Type(t) => self.write_type_decl(t),
            Decl::Func(f) => self.write_func_decl(f),
        }
    }

    fn write_package(&mut self, package: &Option<Symbol>)
        ensures
            final(self).wrote(*old(self), match *package {
                Some(pkg) => old(self).indent@ + "package: \""@ + sym_text(old(self).symbols(), pkg) + "\",\n"@,
                None => line(old(self).indent@, "package: None,"@),
            }),
    {
        let ghost start = *self;
        if let Some(pkg) = package {
            self.write_indent();
            self.put("package: \"");
            self.put_symbol(*pkg);
            self.put("\",\n");
        } else {
            self.writeln("package: None,");
        }
        assert(self.output@ =~= start.output@ + match *package {
            Some(pkg) => start.indent@ + "package: \""@ + sym_text(start.symbols(), pkg) + "\",\n"@,
            None => line(start.indent@, "package: None,"@),
        });
    }

    fn write_imports(&mut self, imports: &Vec<ImportDecl>)
        ensures
            final(self).wrote(*old(self), opt(imports@.len() > 0, line(old(self).indent@, "imports: ["@)
                + import_lines(old(self).symbols(), nest(old(self).indent@), imports@, imports@.len())
                + line(old(self).indent@, "],"@))),
    {
        let ghost start = *self;
        let ghost st = self.symbols();
        let ghost p = self.indent@;
        if imports.len() > 0 {
            self.writeln("imports: [");
            let saved = self.enter();
            let ghost mid = *self;
            let mut i: usize = 0;
            while i < imports.len()
                invariant
                    i <= imports@.len(),
                    self.wrote(mid, import_lines(st, nest(p), imports@, i as nat)),
                    st == mid.symbols(),
                    mid.indent@ == nest(p),
                decreases imports@.len() - i,
            {
                self.write_indent();
                self.put_symbol(imports[i].path);
                self.put(",\n");
                i = i + 1;
                assert(self.output@ =~= mid.output@ + import_lines(st, nest(p), imports@, i as nat));
            }
            self.leave(saved);
            self.writeln("],");
        }
        assert(self.output@ =~= start.output@ + opt(imports@.len() > 0, line(p, "imports: ["@)
            + import_lines(st, nest(p), imports@, imports@.len()) + line(p, "],"@)));
    }

    fn write_decls(&mut self, decls: &Vec<Decl>)
        ensures
            final(self).wrote(*old(self), opt(decls@.len() > 0, line(old(self).indent@, "decls: ["@)
                + decls_text(old(self).symbols(), nest(old(self).indent@), decls@, decls@.len())
                + line(old(self).indent@, "],"@))),
    {
        let ghost start = *self;
        let ghost st = self.symbols();
        let ghost p = self.indent@;
        if decls.len() > 0 {
            self.writeln("decls: [");
            let saved = self.enter();
            let ghost mid = *self;
            let mut i: usize = 0;
            while i < decls.len()
                invariant
                    i <= decls@.len(),
                    self.wrote(mid, decls_text(st, nest(p), decls@, i as nat)),
                    st == mid.symbols(),
                    mid.indent@ == nest(p),
                decreases decls@.len() - i,
            {
                self.write_decl(&decls[i]);
                i = i + 1;
                assert(self.output@ =~= mid.output@ + decls_text(st, nest(p), decls@, i as nat));
            }
            self.leave(saved);
            self.writeln("],");
        }
        assert(self.output@ =~= start.output@ + opt(decls@.len() > 0, line(p, "decls: ["@)
            + decls_text(st, nest(p), decls@, decls@.len()) + line(p, "],"@)));
    }

    fn write_file(&mut self, file: &File)
        ensures
            final(self).wrote(*old(self), file_text(old(self).symbols(), old(self).indent@, *file)),
    {
        let ghost start = *self;
        let ghost st = self.symbols();
        let ghost p = self.indent@;
        self.writeln("File {");
        let saved = self.enter();
        self.write_package(&file.package);
        self.write_imports(&file.imports);
        self.write_decls(&file.decls);
        self.leave(saved);
        self.writeln("}");
        assert(self.output@ =~= start.output@ + file_text(st, p, *file));
    }

    /// Prints a file.
    ///
    /// The text starts at the printer's indentation (none for a new
    /// printer); the printer keeps its symbols and indentation, and holds no
    /// text afterwards.
    pub fn print_file(&mut self, file: &File) -> (text: String)
        ensures
            text@ == file_text(old(self).symbols(), old(self).indentation(), *file),
            final(self).symbols() == old(self).symbols(),
            final(self).indentation() == old(self).indentation(),
            final(self).pending() == Seq::<char>::empty(),
    {
        self.output = String::new();
        self.write_file(file);
        let mut text = String::new();
        std::mem::swap(&mut text, &mut self.output);
        text
    }
}

} // verus!
