//! Laws on the shape of printed statements.

use vstd::prelude::*;

use crate::ast::{Stmt, SymbolInterner};
use crate::printer::{for_text, if_text, nest, stmt_text, switch_text, sym_text};

verus! {

/// `t` starts with `p` and has more after it.
pub open spec fn starts_with(t: Seq<char>, p: Seq<char>) -> bool {
    t.len() > p.len() && t.subrange(0, p.len() as int) == p
}

/// The text of a statement is whole lines at its indentation: it starts
/// with the indentation `p`, holds more than that, and ends with a newline.
/// Since `write_stmt` appends exactly this text and keeps the printer's
/// indentation, writing a statement only appends, starting at the current
/// indentation and ending a line.
#[verifier::spinoff_prover]
#[verifier::rlimit(50)]
pub proof fn lemma_stmt_text_is_lines(st: SymbolInterner, p: Seq<char>, s: Stmt)
    ensures
        starts_with(stmt_text(st, p, s), p),
        stmt_text(st, p, s).last() == '\n',
    decreases s,
{
    reveal_strlit("\n");
    reveal_strlit("),\n");
    reveal_strlit("] },\n");
    reveal_strlit(" },\n");
    reveal_strlit("],\n");
    reveal_strlit("Break,\n");
    reveal_strlit("Continue,\n");
    reveal_strlit("\", ty: ... },\n");
    let t = stmt_text(st, p, s);
    match s {
        Stmt::Labeled { label, stmt } => {
            lemma_stmt_text_is_lines(st, nest(p), *stmt);
            let head = p + "Label("@ + sym_text(st, label) + "):\n"@;
            let inner = stmt_text(st, nest(p), *stmt);
            assert(t == head + inner);
            assert(t.last() == inner.last());
            assert(t.subrange(0, p.len() as int) =~= p);
        },
        Stmt::Empty => { assert(t.subrange(0, p.len() as int) =~= p); },
        Stmt::Block(_) => { assert(t.subrange(0, p.len() as int) =~= p); },
        Stmt::Var(_) => { assert(t.subrange(0, p.len() as int) =~= p); },
        Stmt::Const(_) => { assert(t.subrange(0, p.len() as int) =~= p); },
        Stmt::ShortVar { .. } => { assert(t.subrange(0, p.len() as int) =~= p); },
        Stmt::Expr(_) => { assert(t.subrange(0, p.len() as int) =~= p); },
        Stmt::Assign { .. } => { assert(t.subrange(0, p.len() as int) =~= p); },
        Stmt::IncDec { .. } => { assert(t.subrange(0, p.len() as int) =~= p); },
        Stmt::Return { .. } => { assert(t.subrange(0, p.len() as int) =~= p); },
        Stmt::If(i) => {
            assert(t == if_text(st, p, i));
            assert(if_text(st, p, i).subrange(0, p.len() as int) =~= p);
        },
        Stmt::For(f) => {
            assert(t == for_text(st, p, f));
            assert(for_text(st, p, f).subrange(0, p.len() as int) =~= p);
        },
        Stmt::Switch(sw) => {
            assert(t == switch_text(st, p, sw));
            assert(switch_text(st, p, sw).subrange(0, p.len() as int) =~= p);
        },
        Stmt::Break(_) => { assert(t.subrange(0, p.len() as int) =~= p); },
        Stmt::Continue(_) => { assert(t.subrange(0, p.len() as int) =~= p); },
        _ => { assert(t.subrange(0, p.len() as int) =~= p); },
    }
}

/// The indentation `k` levels deep: `k` copies of two spaces.
pub open spec fn pad(k: nat) -> Seq<char>
    decreases k,
{
    if k == 0 {
        Seq::empty()
    } else {
        nest(pad((k - 1) as nat))
    }
}

/// A statement written at depth `k` is whole lines at that depth: its text
/// starts with `2 * k` spaces, holds more than that, and ends with a
/// newline; its nested parts are written one level deeper.
pub proof fn law_stmt_lines_at_depth(st: SymbolInterner, k: nat, s: Stmt)
    ensures
        pad(k).len() == 2 * k,
        forall|j: int| 0 <= j < pad(k).len() ==> pad(k)[j] == ' ',
        starts_with(stmt_text(st, pad(k), s), pad(k)),
        stmt_text(st, pad(k), s).last() == '\n',
        nest(pad(k)) == pad(k + 1),
    decreases k,
{
    reveal_strlit("  ");
    lemma_stmt_text_is_lines(st, pad(k), s);
    if k > 0 {
        law_stmt_lines_at_depth(st, (k - 1) as nat, s);
        let q = pad((k - 1) as nat);
        assert forall|j: int| 0 <= j < pad(k).len() implies pad(k)[j] == ' ' by {
            if j >= q.len() {
                assert(pad(k)[j] == "  "@[j - q.len()]);
            } else {
                assert(pad(k)[j] == q[j]);
            }
        }
    }
}

} // verus!
