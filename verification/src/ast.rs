//! The syntax-tree model that the tree printer reads.
//!
//! Names and literal texts are symbols: indices into a `SymbolInterner`.
//! Operators carry the name under which the printer shows them.

use vstd::prelude::*;

verus! {

/// An interned name or literal text.
pub type Symbol = u32;

/// The table that symbols index into: symbol `s` stands for `names[s]`.
pub struct SymbolInterner {
    pub names: Vec<String>,
}

/// The text of a symbol, or `None` for a symbol the table does not hold.
pub open spec fn resolved(st: SymbolInterner, symbol: Symbol) -> Option<Seq<char>> {
    if (symbol as int) < st.names@.len() {
        Some(st.names@[symbol as int]@)
    } else {
        None
    }
}

impl SymbolInterner {
    /// The text that `symbol` stands for.
    pub fn resolve(&self, symbol: Symbol) -> (r: Option<&str>)
        ensures
            r matches Some(t) ==> resolved(*self, symbol) == Some(t@),
            r is None ==> resolved(*self, symbol) is None,
    {
        if (symbol as usize) < self.names.len() {
            Some(self.names[symbol as usize].as_str())
        } else {
            None
        }
    }
}

/// A source file.
pub struct File {
    pub package: Option<Symbol>,
    pub imports: Vec<ImportDecl>,
    pub decls: Vec<Decl>,
}

/// An import: the raw text of its path literal.
pub struct ImportDecl {
    pub path: Symbol,
}

/// A top-level declaration.
pub enum Decl {
    Var(VarDecl),
    Const(ConstDecl),
    Type(TypeDecl),
    Func(FuncDecl),
}

/// `var` declaration.
pub struct VarDecl {
    pub specs: Vec<ValueSpec>,
}

/// `const` declaration.
pub struct ConstDecl {
    pub specs: Vec<ValueSpec>,
}

/// One line of a `var` or `const` declaration: names, optional type, values.
pub struct ValueSpec {
    pub names: Vec<Symbol>,
    pub ty: Option<TypeExpr>,
    pub values: Vec<Expr>,
}

/// `type` declaration.
pub struct TypeDecl {
    pub name: Symbol,
    pub ty: TypeExpr,
    pub is_alias: bool,
}

/// Function or method declaration.
pub struct FuncDecl {
    pub receiver: Option<Receiver>,
    pub name: Symbol,
    pub sig: FuncSig,
    pub body: Option<Block>,
}

/// Method receiver.
pub struct Receiver {
    pub name: Option<Symbol>,
    pub ty: Symbol,
    pub is_pointer: bool,
}

/// Function signature.
pub struct FuncSig {
    pub params: Vec<Param>,
    pub results: Vec<ResultParam>,
    pub variadic: bool,
}

/// A parameter group: names sharing a type.
pub struct Param {
    pub names: Vec<Symbol>,
    pub ty: TypeExpr,
}

/// A result: optional name and type.
pub struct ResultParam {
    pub name: Option<Symbol>,
    pub ty: TypeExpr,
}

/// A braced statement list.
pub struct Block {
    pub stmts: Vec<Stmt>,
}

/// Channel direction.
#[derive(Clone, Copy, PartialEq, Eq, Debug)]
pub enum ChanDir {
    Both,
    Send,
    Recv,
}

/// A struct field group: names (none for an embedded field) and type.
pub struct FieldDecl {
    pub names: Vec<Symbol>,
    pub ty: TypeExpr,
}

/// An element of an interface type.
pub enum InterfaceElem {
    Method(Symbol),
    Embedded(Symbol),
    EmbeddedQualified { pkg: Symbol, name: Symbol },
}

/// Type expressions.
pub enum TypeExpr {
    Ident(Symbol),
    Selector { pkg: Symbol, sel: Symbol },
    Array { len: Box<Expr>, elem: Box<TypeExpr> },
    Slice(Box<TypeExpr>),
    MapType { key: Box<TypeExpr>, value: Box<TypeExpr> },
    Chan { dir: ChanDir, elem: Box<TypeExpr> },
    Func { params: Vec<TypeExpr>, results: Vec<TypeExpr> },
    Struct { fields: Vec<FieldDecl> },
    Pointer(Box<TypeExpr>),
    Interface { elems: Vec<InterfaceElem> },
    Port(Box<TypeExpr>),
    Island,
}

/// The key of a composite-literal element.
pub enum CompositeLitKey {
    Ident(Symbol),
    Expr(Expr),
}

/// A composite-literal element.
pub struct CompositeLitElem {
    pub key: Option<CompositeLitKey>,
    pub value: Expr,
}

/// The operation of a dynamic access `base~>...`.
pub enum DynAccessOp {
    Field(Symbol),
    Index(Box<Expr>),
    Call { args: Vec<Expr>, spread: bool },
    MethodCall { method: Symbol, args: Vec<Expr>, spread: bool },
}

/// Expressions. Literals carry the symbol of their raw source text.
pub enum Expr {
    Ident(Symbol),
    IntLit(Symbol),
    FloatLit(Symbol),
    RuneLit(Symbol),
    StringLit(Symbol),
    Binary { left: Box<Expr>, op: String, right: Box<Expr> },
    Unary { op: String, operand: Box<Expr> },
    Call { func: Box<Expr>, args: Vec<Expr>, spread: bool },
    Index { expr: Box<Expr>, index: Box<Expr> },
    Slice { expr: Box<Expr>, low: Option<Box<Expr>>, high: Option<Box<Expr>> },
    Selector { expr: Box<Expr>, sel: Symbol },
    TypeAssert { expr: Box<Expr>, ty: Option<Box<TypeExpr>> },
    CompositeLit { ty: Option<Box<TypeExpr>>, elems: Vec<CompositeLitElem> },
    FuncLit,
    Conversion { ty: Box<TypeExpr>, expr: Box<Expr> },
    Receive(Box<Expr>),
    Paren(Box<Expr>),
    TypeAsExpr(Box<TypeExpr>),
    TryUnwrap(Box<Expr>),
    DynAccess { base: Box<Expr>, op: DynAccessOp },
    Ellipsis,
}

/// `if` statement.
pub struct IfStmt {
    pub init: Option<Box<Stmt>>,
    pub cond: Expr,
    pub then_branch: Block,
    pub else_: Option<Box<Stmt>>,
}

/// The header of a `for` statement.
pub enum ForClause {
    Cond(Option<Expr>),
    Three { init: Option<Box<Stmt>>, cond: Option<Expr>, post: Option<Box<Stmt>> },
    Range { key: Option<Expr>, value: Option<Expr>, define: bool, expr: Expr },
}

/// `for` statement.
pub struct ForStmt {
    pub clause: ForClause,
    pub body: Block,
}

/// One `case` of a `switch`.
pub struct CaseClause {
    pub exprs: Vec<Expr>,
    pub body: Vec<Stmt>,
}

/// `switch` statement.
pub struct SwitchStmt {
    pub tag: Option<Expr>,
    pub cases: Vec<CaseClause>,
}

/// Statements. `Assign` carries the name of its assignment operator.
pub enum Stmt {
    Empty,
    Block(Block),
    Var(VarDecl),
    Const(ConstDecl),
    ShortVar { names: Vec<Symbol>, values: Vec<Expr> },
    Expr(Expr),
    Assign { lhs: Vec<Expr>, op: String, rhs: Vec<Expr> },
    IncDec { expr: Expr, is_inc: bool },
    Return { values: Vec<Expr> },
    If(IfStmt),
    For(ForStmt),
    Switch(SwitchStmt),
    TypeSwitch,
    Select,
    Go(Expr),
    Defer(Expr),
    Send { chan: Expr, value: Expr },
    Break(Option<Symbol>),
    Continue(Option<Symbol>),
    Goto(Symbol),
    Fallthrough,
    Labeled { label: Symbol, stmt: Box<Stmt> },
    Type(TypeDecl),
    ErrDefer(Expr),
    Fail(Expr),
}

} // verus!
