//! Lists in printed syntax trees are separated by `", "`.
//!
//! Every list the printer shows on one line (the names of a parameter
//! group, the quoted names of a declaration, types, expressions, composite
//! literal elements, a signature's results) is its items with `", "`
//! between each adjacent pair and nowhere else.

use vstd::prelude::*;

use crate::ast::{CompositeLitElem, CompositeLitKey, Expr, ResultParam, Symbol, SymbolInterner, TypeExpr};
use crate::printer::{
    elems_text, expr_text, exprs_text, names_text, quoted, quoted_names_text, results_text, sym_text, type_text,
    types_text,
};

verus! {

/// `items` with `", "` between each adjacent pair: the first item, then
/// each further item after a `", "`.
pub open spec fn comma_joined(items: Seq<Seq<char>>) -> Seq<char> {
    if items.len() == 0 {
        Seq::empty()
    } else {
        items[0] + items.drop_first().map_values(|t: Seq<char>| ", "@ + t).flatten()
    }
}

/// Joining one item more adds `", "` and that item.
pub proof fn lemma_comma_joined_push(items: Seq<Seq<char>>, x: Seq<char>)
    ensures
        items.len() == 0 ==> comma_joined(items.push(x)) == x,
        items.len() > 0 ==> comma_joined(items.push(x)) == comma_joined(items) + ", "@ + x,
{
    let s = items.push(x);
    if items.len() == 0 {
        assert(s.drop_first().map_values(|t: Seq<char>| ", "@ + t) =~= Seq::<Seq<char>>::empty());
        assert(s[0] == x);
        assert(comma_joined(s) =~= x);
    } else {
        let m = items.drop_first().map_values(|t: Seq<char>| ", "@ + t);
        assert(s.drop_first().map_values(|t: Seq<char>| ", "@ + t) =~= m.push(", "@ + x));
        m.lemma_flatten_push(", "@ + x);
        assert(s[0] == items[0]);
        assert(comma_joined(s) =~= comma_joined(items) + ", "@ + x);
    }
}

/// What a signature shows for one result: its name and a space when it
/// has one, then its type.
pub open spec fn result_item(st: SymbolInterner, r: ResultParam) -> Seq<char> {
    (match r.name { Some(x) => sym_text(st, x) + " "@, None => Seq::empty() }) + type_text(st, r.ty)
}

/// What a composite literal shows for one element: its key and `": "`
/// when it has one, then its value.
pub open spec fn elem_item(st: SymbolInterner, e: CompositeLitElem) -> Seq<char> {
    (match e.key {
        Some(CompositeLitKey::Ident(id)) => sym_text(st, id) + ": "@,
        Some(CompositeLitKey::Expr(k)) => expr_text(st, k) + ": "@,
        None => Seq::empty(),
    }) + expr_text(st, e.value)
}

/// The results of a signature: the first `n` results' items, each pair
/// of neighbours separated by `", "`; with two unnamed results `int` and
/// `error`, `int, error`.
pub proof fn law_results_separated(st: SymbolInterner, rs: Seq<ResultParam>, n: nat)
    requires
        n <= rs.len(),
    ensures
        results_text(st, rs, n) == comma_joined(rs.take(n as int).map_values(|r: ResultParam| result_item(st, r))),
    decreases n,
{
    let items = rs.take(n as int).map_values(|r: ResultParam| result_item(st, r));
    if n == 0 {
        assert(items =~= Seq::<Seq<char>>::empty());
    } else {
        law_results_separated(st, rs, (n - 1) as nat);
        let prev = rs.take(n - 1).map_values(|r: ResultParam| result_item(st, r));
        assert(items =~= prev.push(result_item(st, rs[n - 1])));
        lemma_comma_joined_push(prev, result_item(st, rs[n - 1]));
        if n == 1 {
            assert(results_text(st, rs, n) =~= result_item(st, rs[0]));
        } else {
            assert(results_text(st, rs, n) =~= results_text(st, rs, (n - 1) as nat) + ", "@ + result_item(st, rs[n - 1]));
        }
    }
}

/// The elements of a composite literal, each pair of neighbours separated
/// by `", "`.
pub proof fn law_elems_separated(st: SymbolInterner, es: Seq<CompositeLitElem>, n: nat)
    requires
        n <= es.len(),
    ensures
        elems_text(st, es, n) == comma_joined(es.take(n as int).map_values(|e: CompositeLitElem| elem_item(st, e))),
    decreases n,
{
    let items = es.take(n as int).map_values(|e: CompositeLitElem| elem_item(st, e));
    if n == 0 {
        assert(items =~= Seq::<Seq<char>>::empty());
    } else {
        law_elems_separated(st, es, (n - 1) as nat);
        let prev = es.take(n - 1).map_values(|e: CompositeLitElem| elem_item(st, e));
        assert(items =~= prev.push(elem_item(st, es[n - 1])));
        lemma_comma_joined_push(prev, elem_item(st, es[n - 1]));
        if n == 1 {
            assert(elems_text(st, es, n) =~= elem_item(st, es[0]));
        } else {
            assert(elems_text(st, es, n) =~= elems_text(st, es, (n - 1) as nat) + ", "@ + elem_item(st, es[n - 1]));
        }
    }
}

/// Types in a list, each pair of neighbours separated by `", "`.
pub proof fn law_types_separated(st: SymbolInterner, ts: Seq<TypeExpr>, n: nat)
    requires
        n <= ts.len(),
    ensures
        types_text(st, ts, n) == comma_joined(ts.take(n as int).map_values(|t: TypeExpr| type_text(st, t))),
    decreases n,
{
    let items = ts.take(n as int).map_values(|t: TypeExpr| type_text(st, t));
    if n == 0 {
        assert(items =~= Seq::<Seq<char>>::empty());
    } else {
        law_types_separated(st, ts, (n - 1) as nat);
        let prev = ts.take(n - 1).map_values(|t: TypeExpr| type_text(st, t));
        assert(items =~= prev.push(type_text(st, ts[n - 1])));
        lemma_comma_joined_push(prev, type_text(st, ts[n - 1]));
    }
}

/// Expressions in a list, each pair of neighbours separated by `", "`.
pub proof fn law_exprs_separated(st: SymbolInterner, es: Seq<Expr>, n: nat)
    requires
        n <= es.len(),
    ensures
        exprs_text(st, es, n) == comma_joined(es.take(n as int).map_values(|e: Expr| expr_text(st, e))),
    decreases n,
{
    let items = es.take(n as int).map_values(|e: Expr| expr_text(st, e));
    if n == 0 {
        assert(items =~= Seq::<Seq<char>>::empty());
    } else {
        law_exprs_separated(st, es, (n - 1) as nat);
        let prev = es.take(n - 1).map_values(|e: Expr| expr_text(st, e));
        assert(items =~= prev.push(expr_text(st, es[n - 1])));
        lemma_comma_joined_push(prev, expr_text(st, es[n - 1]));
    }
}

/// Names in a list, each pair of neighbours separated by `", "`.
pub proof fn law_names_separated(st: SymbolInterner, ns: Seq<Symbol>, n: nat)
    requires
        n <= ns.len(),
    ensures
        names_text(st, ns, n) == comma_joined(ns.take(n as int).map_values(|s: Symbol| sym_text(st, s))),
    decreases n,
{
    let items = ns.take(n as int).map_values(|s: Symbol| sym_text(st, s));
    if n == 0 {
        assert(items =~= Seq::<Seq<char>>::empty());
    } else {
        law_names_separated(st, ns, (n - 1) as nat);
        let prev = ns.take(n - 1).map_values(|s: Symbol| sym_text(st, s));
        assert(items =~= prev.push(sym_text(st, ns[n - 1])));
        lemma_comma_joined_push(prev, sym_text(st, ns[n - 1]));
    }
}

/// Quoted names in a list, each pair of neighbours separated by `", "`.
pub proof fn law_quoted_names_separated(st: SymbolInterner, ns: Seq<Symbol>, n: nat)
    requires
        n <= ns.len(),
    ensures
        quoted_names_text(st, ns, n) == comma_joined(ns.take(n as int).map_values(|s: Symbol| quoted(sym_text(st, s)))),
    decreases n,
{
    let items = ns.take(n as int).map_values(|s: Symbol| quoted(sym_text(st, s)));
    if n == 0 {
        assert(items =~= Seq::<Seq<char>>::empty());
    } else {
        law_quoted_names_separated(st, ns, (n - 1) as nat);
        let prev = ns.take(n - 1).map_values(|s: Symbol| quoted(sym_text(st, s)));
        assert(items =~= prev.push(quoted(sym_text(st, ns[n - 1]))));
        lemma_comma_joined_push(prev, quoted(sym_text(st, ns[n - 1])));
    }
}

} // verus!
