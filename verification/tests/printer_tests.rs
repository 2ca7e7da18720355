use vox::ast::{
    Block, CaseClause, ChanDir, CompositeLitElem, CompositeLitKey, ConstDecl, Decl, DynAccessOp, Expr, FieldDecl,
    File, ForClause, ForStmt, FuncDecl, FuncSig, IfStmt, ImportDecl, InterfaceElem, Param, Receiver, ResultParam,
    Stmt, SwitchStmt, SymbolInterner, TypeDecl, TypeExpr, ValueSpec, VarDecl,
};
use vox::printer::{symbol_name, AstPrinter};

fn interner(names: &[&str]) -> SymbolInterner {
    SymbolInterner { names: names.iter().map(|s| s.to_string()).collect() }
}

fn b<T>(x: T) -> Box<T> {
    Box::new(x)
}

fn func(name: u32, sig: FuncSig, body: Option<Vec<Stmt>>) -> Decl {
    Decl::Func(FuncDecl { receiver: None, name, sig, body: body.map(|stmts| Block { stmts }) })
}

fn no_sig() -> FuncSig {
    FuncSig { params: vec![], results: vec![], variadic: false }
}

#[test]
fn empty_file() {
    let st = interner(&[]);
    let f = File { package: None, imports: vec![], decls: vec![] };
    let mut p = AstPrinter::new(&st);
    assert_eq!(p.print_file(&f), "File {\n  package: None,\n}\n");
}

#[test]
fn small_function() {
    let st = interner(&["main", "\"fmt\"", "f", "x", "int", "1"]);
    let sig = FuncSig {
        params: vec![Param { names: vec![3], ty: TypeExpr::Ident(4) }],
        results: vec![ResultParam { name: None, ty: TypeExpr::Ident(4) }],
        variadic: false,
    };
    let ret = Stmt::Return {
        values: vec![Expr::Binary { left: b(Expr::Ident(3)), op: "Add".to_string(), right: b(Expr::IntLit(5)) }],
    };
    let f = File { package: Some(0), imports: vec![ImportDecl { path: 1 }], decls: vec![func(2, sig, Some(vec![ret]))] };
    let mut p = AstPrinter::new(&st);
    let expected = "File {\n  package: \"main\",\n  imports: [\n    \"fmt\",\n  ],\n  decls: [\n    Func {\n      name: \"f\",\n      params: [\n        (x int),\n      ],\n      results: [int],\n      body: {\n        Return [(x Add 1)],\n      },\n    },\n  ],\n}\n";
    assert_eq!(p.print_file(&f), expected);
    // A second print of the same file gives the same text.
    assert_eq!(p.print_file(&f), expected);
}

#[test]
fn statements_and_nesting() {
    // 0 s, 1 T, 2 M, 3 err, 4 error, 5 x, 6 f, 7 1, 8 k, 9 v, 10 xs, 11 2, 12 L, 13 Lt
    let st = interner(&["s", "T", "M", "err", "error", "x", "f", "1", "k", "v", "xs", "2", "L"]);
    let if_stmt = Stmt::If(IfStmt {
        init: Some(b(Stmt::ShortVar {
            names: vec![5],
            values: vec![Expr::Call { func: b(Expr::Ident(6)), args: vec![], spread: false }],
        })),
        cond: Expr::Binary { left: b(Expr::Ident(5)), op: "Lt".to_string(), right: b(Expr::IntLit(7)) },
        then_branch: Block { stmts: vec![Stmt::Return { values: vec![Expr::Ident(5)] }] },
        else_: Some(b(Stmt::Block(Block { stmts: vec![Stmt::IncDec { expr: Expr::Ident(5), is_inc: true }] }))),
    });
    let for_stmt = Stmt::For(ForStmt {
        clause: ForClause::Range { key: Some(Expr::Ident(8)), value: Some(Expr::Ident(9)), define: true, expr: Expr::Ident(10) },
        body: Block { stmts: vec![Stmt::Break(None)] },
    });
    let switch_stmt = Stmt::Switch(SwitchStmt {
        tag: Some(Expr::Ident(5)),
        cases: vec![
            CaseClause { exprs: vec![Expr::IntLit(7), Expr::IntLit(11)], body: vec![Stmt::Fallthrough] },
            CaseClause { exprs: vec![], body: vec![] },
        ],
    });
    let labeled = Stmt::Labeled { label: 12, stmt: b(Stmt::Continue(Some(12))) };
    let decl = Decl::Func(FuncDecl {
        receiver: Some(Receiver { name: Some(0), ty: 1, is_pointer: true }),
        name: 2,
        sig: FuncSig { params: vec![], results: vec![ResultParam { name: Some(3), ty: TypeExpr::Ident(4) }], variadic: true },
        body: Some(Block { stmts: vec![if_stmt, for_stmt, switch_stmt, labeled] }),
    });
    let f = File { package: None, imports: vec![], decls: vec![decl] };
    let expected = "\
File {
  package: None,
  decls: [
    Func {
      receiver: (s *T),
      name: \"M\",
      results: [err error],
      variadic: true,
      body: {
        If {
          init:
            ShortVar { names: [\"x\"], values: [f()] },
          cond: (x Lt 1),
          then: {
            Return [x],
          },
          else:
            Block {
              IncDec { expr: x, inc: true },
            },
        },
        For {
          range: k, v := xs,
          body: {
            Break,
          },
        },
        Switch {
          tag: x,
          cases: [
            case [1, 2]: {
              Fallthrough,
            },
            case []: {
            },
          ],
        },
        Label(L):
          Continue(L),
      },
    },
  ],
}
";
    let mut p = AstPrinter::new(&st);
    assert_eq!(p.print_file(&f), expected);
}

#[test]
fn three_clause_for_and_simple_statements() {
    // 0 i, 1 0, 2 n, 3 ch, 4 g, 5 e, 6 T, 7 Assign
    let st = interner(&["i", "0", "n", "ch", "g", "e", "T"]);
    let for_stmt = Stmt::For(ForStmt {
        clause: ForClause::Three {
            init: Some(b(Stmt::Assign { lhs: vec![Expr::Ident(0)], op: "Assign".to_string(), rhs: vec![Expr::IntLit(1)] })),
            cond: None,
            post: Some(b(Stmt::IncDec { expr: Expr::Ident(0), is_inc: false })),
        },
        body: Block { stmts: vec![Stmt::Empty] },
    });
    let stmts = vec![
        for_stmt,
        Stmt::For(ForStmt { clause: ForClause::Cond(None), body: Block { stmts: vec![] } }),
        Stmt::Go(Expr::Call { func: b(Expr::Ident(4)), args: vec![], spread: false }),
        Stmt::Defer(Expr::Call { func: b(Expr::Ident(4)), args: vec![], spread: false }),
        Stmt::Send { chan: Expr::Ident(3), value: Expr::Ident(2) },
        Stmt::Goto(2),
        Stmt::TypeSwitch,
        Stmt::Select,
        Stmt::Type(TypeDecl { name: 6, ty: TypeExpr::Ident(2), is_alias: false }),
        Stmt::ErrDefer(Expr::Ident(4)),
        Stmt::Fail(Expr::Ident(5)),
    ];
    let f = File { package: None, imports: vec![], decls: vec![func(4, no_sig(), Some(stmts))] };
    let expected = "\
File {
  package: None,
  decls: [
    Func {
      name: \"g\",
      body: {
        For {
          init:
            Assign { lhs: [i], op: Assign, rhs: [0] },
          post:
            IncDec { expr: i, inc: false },
          body: {
            Empty,
          },
        },
        For {
          body: {
          },
        },
        Go(g()),
        Defer(g()),
        Send { chan: ch, value: n },
        Goto(n),
        TypeSwitch { ... },
        Select { ... },
        Type { name: \"T\", ty: ... },
        ErrDefer { call: g },
        Fail { error: e },
      },
    },
  ],
}
";
    let mut p = AstPrinter::new(&st);
    assert_eq!(p.print_file(&f), expected);
}

#[test]
fn declarations_and_types() {
    // 0 a, 1 b, 2 string, 3 pkg, 4 T, 5 k, 6 1, 7 S, 8 x, 9 y, 10 int, 11 E, 12 F, 13 bool,
    // 14 error, 15 C, 16 Close, 17 io, 18 Reader, 19 c
    let st = interner(&[
        "a", "b", "string", "pkg", "T", "k", "1", "S", "x", "y", "int", "E", "F", "bool", "error", "C", "Close", "io",
        "Reader", "c",
    ]);
    let var = Decl::Var(VarDecl {
        specs: vec![ValueSpec {
            names: vec![0, 1],
            ty: Some(TypeExpr::MapType {
                key: b(TypeExpr::Ident(2)),
                value: b(TypeExpr::Slice(b(TypeExpr::Pointer(b(TypeExpr::Selector { pkg: 3, sel: 4 }))))),
            }),
            values: vec![Expr::CompositeLit {
                ty: None,
                elems: vec![CompositeLitElem { key: Some(CompositeLitKey::Ident(5)), value: Expr::IntLit(6) }],
            }],
        }],
    });
    let strukt = Decl::Type(TypeDecl {
        name: 7,
        ty: TypeExpr::Struct {
            fields: vec![
                FieldDecl { names: vec![8, 9], ty: TypeExpr::Ident(10) },
                FieldDecl { names: vec![], ty: TypeExpr::Ident(11) },
            ],
        },
        is_alias: false,
    });
    let alias = Decl::Type(TypeDecl {
        name: 12,
        ty: TypeExpr::Func {
            params: vec![TypeExpr::Ident(10), TypeExpr::Ident(2)],
            results: vec![TypeExpr::Ident(13), TypeExpr::Ident(14)],
        },
        is_alias: true,
    });
    let chan = Decl::Type(TypeDecl {
        name: 15,
        ty: TypeExpr::Chan {
            dir: ChanDir::Recv,
            elem: b(TypeExpr::Interface {
                elems: vec![
                    InterfaceElem::Method(16),
                    InterfaceElem::Embedded(11),
                    InterfaceElem::EmbeddedQualified { pkg: 17, name: 18 },
                ],
            }),
        },
        is_alias: false,
    });
    let konst = Decl::Const(ConstDecl { specs: vec![ValueSpec { names: vec![19], ty: None, values: vec![] }] });
    let f = File { package: None, imports: vec![], decls: vec![var, strukt, alias, chan, konst] };
    let expected = "\
File {
  package: None,
  decls: [
    Var {
      specs: [
        VarSpec {
          names: [\"a\", \"b\"],
          type: map[string][]*pkg.T,
          values: [
            {k: 1},
          ],
        },
      ],
    },
    Type { name: \"S\", type: struct { x, y int; E; } },
    Type { name: \"F\", type: func(int, string) (bool, error), alias: true },
    Type { name: \"C\", type: <-chan interface { Close(); E; io.Reader; } },
    Const {
      specs: [
        ConstSpec {
          names: [\"c\"],
        },
      ],
    },
  ],
}
";
    let mut p = AstPrinter::new(&st);
    assert_eq!(p.print_file(&f), expected);
}

#[test]
fn inline_expressions() {
    // 0 fmt, 1 Println, 2 "hi", 3 Neg, 4 1, 5 a, 6 2, 7 x, 8 m, 9 ch, 10 int, 11 3, 12 h
    let st = interner(&["fmt", "Println", "\"hi\"", "Neg", "1", "a", "2", "x", "m", "ch", "int", "3", "h"]);
    let exprs = vec![
        Expr::Call {
            func: b(Expr::Selector { expr: b(Expr::Ident(0)), sel: 1 }),
            args: vec![Expr::StringLit(2)],
            spread: true,
        },
        Expr::Unary { op: "Neg".to_string(), operand: b(Expr::IntLit(4)) },
        Expr::Slice { expr: b(Expr::Ident(5)), low: None, high: Some(b(Expr::IntLit(6))) },
        Expr::Index { expr: b(Expr::Ident(5)), index: b(Expr::Ident(7)) },
        Expr::TypeAssert { expr: b(Expr::Ident(7)), ty: None },
        Expr::TypeAssert { expr: b(Expr::Ident(7)), ty: Some(b(TypeExpr::Ident(10))) },
        Expr::DynAccess {
            base: b(Expr::Ident(7)),
            op: DynAccessOp::MethodCall { method: 8, args: vec![Expr::IntLit(4)], spread: false },
        },
        Expr::DynAccess { base: b(Expr::Ident(7)), op: DynAccessOp::Field(12) },
        Expr::DynAccess { base: b(Expr::Ident(7)), op: DynAccessOp::Index(b(Expr::IntLit(6))) },
        Expr::DynAccess { base: b(Expr::Ident(7)), op: DynAccessOp::Call { args: vec![Expr::Ident(5)], spread: true } },
        Expr::TryUnwrap(b(Expr::Receive(b(Expr::Ident(9))))),
        Expr::Conversion {
            ty: b(TypeExpr::Array { len: b(Expr::IntLit(11)), elem: b(TypeExpr::Ident(10)) }),
            expr: b(Expr::Ident(7)),
        },
        Expr::FuncLit,
        Expr::TypeAsExpr(b(TypeExpr::Port(b(TypeExpr::Island)))),
        Expr::Paren(b(Expr::Ellipsis)),
        Expr::CompositeLit {
            ty: Some(b(TypeExpr::Slice(b(TypeExpr::Ident(10))))),
            elems: vec![
                CompositeLitElem { key: Some(CompositeLitKey::Expr(Expr::IntLit(4))), value: Expr::IntLit(6) },
                CompositeLitElem { key: None, value: Expr::IntLit(11) },
            ],
        },
        Expr::RuneLit(99),
    ];
    let stmts = exprs.into_iter().map(Stmt::Expr).collect();
    let f = File { package: None, imports: vec![], decls: vec![func(12, no_sig(), Some(stmts))] };
    let expected = "\
File {
  package: None,
  decls: [
    Func {
      name: \"h\",
      body: {
        Expr(fmt.Println(\"hi\"...)),
        Expr(Neg(1)),
        Expr(a[:2]),
        Expr(a[x]),
        Expr(x.(type)),
        Expr(x.(int)),
        Expr(x~>m(1)),
        Expr(x~>h),
        Expr(x~>[2]),
        Expr(x~>(a...)),
        Expr(<-ch?),
        Expr([3]int(x)),
        Expr(func(...) { ... }),
        Expr(port island),
        Expr((...)),
        Expr([]int{1: 2, 3}),
        Expr(<unknown>),
      },
    },
  ],
}
";
    let mut p = AstPrinter::new(&st);
    assert_eq!(p.print_file(&f), expected);
}

#[test]
fn chan_directions_and_func_results() {
    let st = interner(&["T", "int", "k"]);
    let ty = |dir| TypeExpr::Chan { dir, elem: b(TypeExpr::Ident(1)) };
    let decls = vec![
        Decl::Type(TypeDecl { name: 0, ty: ty(ChanDir::Both), is_alias: false }),
        Decl::Type(TypeDecl { name: 0, ty: ty(ChanDir::Send), is_alias: false }),
        Decl::Type(TypeDecl {
            name: 0,
            ty: TypeExpr::Func { params: vec![], results: vec![TypeExpr::Ident(1)] },
            is_alias: false,
        }),
        Decl::Type(TypeDecl { name: 0, ty: TypeExpr::Func { params: vec![], results: vec![] }, is_alias: false }),
        func(2, no_sig(), None),
    ];
    let f = File { package: None, imports: vec![], decls };
    let expected = "\
File {
  package: None,
  decls: [
    Type { name: \"T\", type: chan int },
    Type { name: \"T\", type: chan<- int },
    Type { name: \"T\", type: func() int },
    Type { name: \"T\", type: func() },
    Func {
      name: \"k\",
    },
  ],
}
";
    let mut p = AstPrinter::new(&st);
    assert_eq!(p.print_file(&f), expected);
}

#[test]
fn unknown_symbols_print_a_placeholder() {
    let st = interner(&["known"]);
    assert_eq!(symbol_name(&st, 0), "known");
    assert_eq!(symbol_name(&st, 1), "<unknown>");
    let f = File { package: Some(7), imports: vec![], decls: vec![] };
    let mut p = AstPrinter::new(&st);
    assert_eq!(p.print_file(&f), "File {\n  package: \"<unknown>\",\n}\n");
}
