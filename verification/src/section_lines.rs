//! Which lines of a module's text are section titles.
//!
//! In the text form of a module, the lines that start with `##` are the
//! titles of the sections shown and the title of the functions section;
//! entry lines start with `# [` or `#   `, function headers with `func_`
//! and code lines with spaces. So a section's title line is in the text
//! exactly when its table has entries.

use vstd::prelude::*;

use crate::bytecode::{
    Constant, ExternDef, FunctionDef, GlobalDef, Instruction, InterfaceMeta, Itab, MethodInfo, Module,
    NamedTypeMeta, StructMeta,
};
use crate::format::{
    code_line, code_lines, constant_entries, constant_entry, constant_text, extern_entries,
    extern_entry, field_lines, function_entries, function_entry, function_header, global_entries,
    global_entry, id_items, id_list, interface_entries, interface_entry, interface_method_lines,
    itab_entries, itab_entry, method_lines, module_header, module_text, named_entries, named_entry,
    section, struct_entries, struct_entry,
};
use crate::reader::{holds_at, lacks, lemma_constant_text, plain_constant};
use crate::text::{dec, zero_pad};
use crate::text_layout::{
    lemma_concat_no_newline, lemma_dec_no_newline, lemma_instruction_text_is_one_line,
    lemma_sdec_no_newline, no_newline,
};

verus! {

broadcast use lemma_concat_no_newline, lemma_dec_no_newline, lemma_sdec_no_newline;

/// A line of `s` starts at `i`.
pub open spec fn line_start(s: Seq<char>, i: int) -> bool {
    0 <= i < s.len() && (i == 0 || s[i - 1] == '\n')
}

/// A line of `s` starts at `i` with `##`.
pub open spec fn heading_at(s: Seq<char>, i: int) -> bool {
    line_start(s, i) && i + 1 < s.len() && s[i] == '#' && s[i + 1] == '#'
}

/// `s` is empty or ends with a line break.
pub open spec fn ends_line(s: Seq<char>) -> bool {
    s.len() == 0 || s.last() == '\n'
}

/// Every line of `s` that starts with `##` starts with one of `titles`.
pub open spec fn headings_among(s: Seq<char>, titles: Set<Seq<char>>) -> bool {
    forall|i: int| #[trigger] heading_at(s, i) ==> exists|t: Seq<char>| titles.contains(t) && holds_at(s, i, t)
}

/// A line without line breaks that does not start with `##`, ended by a
/// line break, holds no heading.
proof fn lemma_one_line(x: Seq<char>)
    requires
        no_newline(x),
        !(x.len() >= 2 && x[0] == '#' && x[1] == '#'),
    ensures
        headings_among(x + "\n"@, Set::empty()),
        ends_line(x + "\n"@),
        (x + "\n"@).len() > 0,
{
    reveal_strlit("\n");
    let s = x + "\n"@;
    assert forall|i: int| #[trigger] heading_at(s, i) implies exists|t: Seq<char>| Set::<Seq<char>>::empty().contains(t) && holds_at(s, i, t) by {
        if i > 0 {
            assert(s[i - 1] == x[i - 1]);
        } else if x.len() >= 2 {
            assert(s[1] == x[1]);
        } else if x.len() == 1 {
            assert(s[1] == '\n');
        } else {
            assert(s[0] == '\n');
        }
    }
}

/// Joining two texts, the first ending a line: the headings of the whole
/// are those of the parts.
proof fn lemma_join(a: Seq<char>, b: Seq<char>, ta: Set<Seq<char>>, tb: Set<Seq<char>>)
    requires
        headings_among(a, ta),
        headings_among(b, tb),
        ends_line(a),
    ensures
        headings_among(a + b, ta.union(tb)),
        ends_line(b) ==> ends_line(a + b),
{
    let s = a + b;
    assert forall|i: int| #[trigger] heading_at(s, i) implies exists|t: Seq<char>| ta.union(tb).contains(t) && holds_at(s, i, t) by {
        if i < a.len() {
            if i + 1 < a.len() {
                if i > 0 {
                    assert(s[i - 1] == a[i - 1]);
                }
                assert(s[i] == a[i] && s[i + 1] == a[i + 1]);
                assert(heading_at(a, i));
                let t = choose|t: Seq<char>| ta.contains(t) && holds_at(a, i, t);
                assert(s.subrange(i, i + t.len()) =~= a.subrange(i, i + t.len()));
                assert(ta.union(tb).contains(t) && holds_at(s, i, t));
            } else {
                assert(s[i] == a.last());
            }
        } else {
            let j = i - a.len();
            if j > 0 {
                assert(s[i - 1] == b[j - 1]);
            }
            assert(s[i] == b[j] && s[i + 1] == b[j + 1]);
            assert(heading_at(b, j));
            let t = choose|t: Seq<char>| tb.contains(t) && holds_at(b, j, t);
            assert(s.subrange(i, i + t.len()) =~= b.subrange(j, j + t.len()));
            assert(ta.union(tb).contains(t) && holds_at(s, i, t));
        }
    }
    if b.len() > 0 {
        assert(s.last() == b.last());
    } else {
        assert(s =~= a);
    }
}

/// Joining texts that hold no heading.
proof fn lemma_join_plain(a: Seq<char>, b: Seq<char>)
    requires
        headings_among(a, Set::empty()),
        headings_among(b, Set::empty()),
        ends_line(a),
    ensures
        headings_among(a + b, Set::empty()),
        ends_line(b) ==> ends_line(a + b),
{
    lemma_join(a, b, Set::empty(), Set::empty());
    assert(Set::<Seq<char>>::empty().union(Set::empty()) =~= Set::empty());
}

/// A shown section's only heading is its title; a hidden one has none.
proof fn lemma_section_headings(nonempty: bool, title: Seq<char>, body: Seq<char>)
    requires
        title.len() >= 3,
        title[0] == '#',
        title[1] == '#',
        title.last() == '\n',
        no_newline(title.drop_last()),
        headings_among(body, Set::empty()),
        ends_line(body),
    ensures
        headings_among(section(nonempty, title, body), if nonempty { set![title] } else { Set::empty() }),
        ends_line(section(nonempty, title, body)),
{
    reveal_strlit("\n");
    if nonempty {
        let x = title.drop_last();
        assert(title =~= x + "\n"@);
        assert forall|i: int| #[trigger] heading_at(title, i) implies exists|t: Seq<char>| set![title].contains(t) && holds_at(title, i, t) by {
            if i > 0 {
                assert(title[i - 1] == x[i - 1]);
            }
            assert(title.subrange(0, title.len() as int) =~= title);
            assert(set![title].contains(title) && holds_at(title, 0, title));
        }
        lemma_join(title, body, set![title], Set::empty());
        lemma_one_line(Seq::empty());
        assert(Seq::<char>::empty() + "\n"@ =~= "\n"@);
        lemma_join(title + body, "\n"@, set![title].union(Set::empty()), Set::empty());
        assert(set![title].union(Set::empty()).union(Set::empty()) =~= set![title]);
    } else {
        assert(section(nonempty, title, body) =~= Seq::<char>::empty());
    }
}

/// Texts without line breaks.
proof fn lemma_lits()
    ensures
        no_newline("# ["@),
        no_newline("] "@),
        no_newline(": "@),
        no_newline(" slot(s), vk="@),
        no_newline(", meta="@),
        no_newline("("@),
        no_newline(") -> "@),
        no_newline("func_"@),
        no_newline(" "@),
        no_newline("(params="@),
        no_newline(", param_slots="@),
        no_newline(", locals="@),
        no_newline(", ret="@),
        no_newline("):"@),
        no_newline("  "@),
        no_newline("# Module: "@),
        no_newline("# Entry: func_"@),
        no_newline("#   "@),
        no_newline(": offset="@),
        no_newline(", slots="@),
        no_newline("] ("@),
        no_newline(" slots)"@),
        no_newline("#   method "@),
        no_newline("] methods: "@),
        no_newline("["@),
        no_newline("]"@),
        no_newline(", "@),
        no_newline(" (underlying: meta_id="@),
        no_newline(", vk="@),
        no_newline(")"@),
        no_newline("#   methods:"@),
        no_newline("=func_"@),
        no_newline("*"@),
        no_newline(""@),
{
    reveal_strlit("# [");
    reveal_strlit("] ");
    reveal_strlit(": ");
    reveal_strlit(" slot(s), vk=");
    reveal_strlit(", meta=");
    reveal_strlit("(");
    reveal_strlit(") -> ");
    reveal_strlit("func_");
    reveal_strlit(" ");
    reveal_strlit("(params=");
    reveal_strlit(", param_slots=");
    reveal_strlit(", locals=");
    reveal_strlit(", ret=");
    reveal_strlit("):");
    reveal_strlit("  ");
    reveal_strlit("# Module: ");
    reveal_strlit("# Entry: func_");
    reveal_strlit("#   ");
    reveal_strlit(": offset=");
    reveal_strlit(", slots=");
    reveal_strlit("] (");
    reveal_strlit(" slots)");
    reveal_strlit("#   method ");
    reveal_strlit("] methods: ");
    reveal_strlit("[");
    reveal_strlit("]");
    reveal_strlit(", ");
    reveal_strlit(" (underlying: meta_id=");
    reveal_strlit(", vk=");
    reveal_strlit(")");
    reveal_strlit("#   methods:");
    reveal_strlit("=func_");
    reveal_strlit("*");
    reveal_strlit("");
}

/// A global's entry is one line that is no heading.
proof fn lemma_global_entries(xs: Seq<GlobalDef>, n: nat)
    requires
        n <= xs.len(),
        forall|j: int| 0 <= j < n ==> lacks(#[trigger] xs[j].name@, '\n'),
    ensures
        headings_among(global_entries(xs, n), Set::empty()),
        ends_line(global_entries(xs, n)),
    decreases n,
{
    if n == 0 {
        assert forall|i: int| !heading_at(global_entries(xs, n), i) by {}
    } else {
        lemma_global_entries(xs, (n - 1) as nat);
        lemma_lits();
        reveal_strlit("# [");
        reveal_strlit("\n");
        let x = xs[n - 1];
        let l = "# ["@ + dec((n - 1) as nat) + "] "@ + x.name@ + ": "@ + dec(x.slots as nat) + " slot(s), vk="@
            + dec(x.value_kind as nat) + ", meta="@ + dec(x.meta_id as nat);
        assert(global_entry((n - 1) as nat, x) =~= l + "\n"@);
        assert(l[1] == ' ');
        lemma_one_line(l);
        lemma_join_plain(global_entries(xs, (n - 1) as nat), l + "\n"@);
    }
}

/// A host function's entry is one line that is no heading.
proof fn lemma_extern_entries(xs: Seq<ExternDef>, n: nat)
    requires
        n <= xs.len(),
        forall|j: int| 0 <= j < n ==> lacks(#[trigger] xs[j].name@, '\n'),
    ensures
        headings_among(extern_entries(xs, n), Set::empty()),
        ends_line(extern_entries(xs, n)),
    decreases n,
{
    if n == 0 {
        assert forall|i: int| !heading_at(extern_entries(xs, n), i) by {}
    } else {
        lemma_extern_entries(xs, (n - 1) as nat);
        lemma_lits();
        reveal_strlit("# [");
        reveal_strlit("\n");
        let x = xs[n - 1];
        let l = "# ["@ + dec((n - 1) as nat) + "] "@ + x.name@ + "("@ + dec(x.param_slots as nat) + ") -> "@
            + dec(x.ret_slots as nat);
        assert(extern_entry((n - 1) as nat, x) =~= l + "\n"@);
        assert(l[1] == ' ');
        lemma_one_line(l);
        lemma_join_plain(extern_entries(xs, (n - 1) as nat), l + "\n"@);
    }
}

/// A zero-padded number holds no line break.
proof fn lemma_zero_pad(s: Seq<char>, w: nat)
    requires
        no_newline(s),
    ensures
        no_newline(zero_pad(s, w)),
{
    if s.len() < w {
        let z = Seq::new((w - s.len()) as nat, |_i: int| '0');
        assert(no_newline(z));
    }
}

/// Code lines start with spaces, so they hold no heading.
proof fn lemma_code_lines(code: Seq<Instruction>, n: nat)
    requires
        n <= code.len(),
    ensures
        headings_among(code_lines(code, n), Set::empty()),
        ends_line(code_lines(code, n)),
    decreases n,
{
    if n == 0 {
        assert forall|i: int| !heading_at(code_lines(code, n), i) by {}
    } else {
        lemma_code_lines(code, (n - 1) as nat);
        lemma_lits();
        reveal_strlit("  ");
        reveal_strlit("\n");
        let i = code[n - 1];
        lemma_instruction_text_is_one_line(i);
        lemma_zero_pad(dec((n - 1) as nat), 4);
        let l = "  "@ + zero_pad(dec((n - 1) as nat), 4) + ": "@ + crate::format::instruction_text(i);
        assert(code_line((n - 1) as nat, i) =~= l + "\n"@);
        assert(l[0] == ' ');
        lemma_one_line(l);
        lemma_join_plain(code_lines(code, (n - 1) as nat), l + "\n"@);
    }
}

/// A function's entry: its header line, its code lines and a blank line,
/// none a heading.
proof fn lemma_function_entries(xs: Seq<FunctionDef>, n: nat)
    requires
        n <= xs.len(),
        forall|j: int| 0 <= j < n ==> lacks(#[trigger] xs[j].name@, '\n'),
    ensures
        headings_among(function_entries(xs, n), Set::empty()),
        ends_line(function_entries(xs, n)),
    decreases n,
{
    if n == 0 {
        assert forall|i: int| !heading_at(function_entries(xs, n), i) by {}
    } else {
        lemma_function_entries(xs, (n - 1) as nat);
        lemma_lits();
        reveal_strlit("func_");
        reveal_strlit("):\n");
        reveal_strlit("):");
        reveal_strlit("\n");
        let f = xs[n - 1];
        let h = "func_"@ + dec(((n - 1) as nat as u32) as nat) + " "@ + f.name@ + "(params="@ + dec(f.param_count as nat)
            + ", param_slots="@ + dec(f.param_slots as nat) + ", locals="@ + dec(f.local_slots as nat)
            + ", ret="@ + dec(f.ret_slots as nat) + "):"@;
        assert(function_header((n - 1) as nat as u32, f) =~= h + "\n"@);
        assert(h[0] == 'f');
        lemma_one_line(h);
        lemma_code_lines(f.code@, f.code@.len());
        lemma_join_plain(h + "\n"@, code_lines(f.code@, f.code@.len()));
        lemma_one_line(Seq::empty());
        assert(Seq::<char>::empty() + "\n"@ =~= "\n"@);
        let e = function_entry((n - 1) as nat, f);
        assert(e =~= (h + "\n"@ + code_lines(f.code@, f.code@.len())) + "\n"@);
        lemma_join_plain(h + "\n"@ + code_lines(f.code@, f.code@.len()), "\n"@);
        lemma_join_plain(function_entries(xs, (n - 1) as nat), e);
    }
}

/// A constant's entry is one line that is no heading.
proof fn lemma_constant_entries(xs: Seq<Constant>, n: nat)
    requires
        n <= xs.len(),
        forall|j: int| 0 <= j < n ==> plain_constant(#[trigger] xs[j]),
    ensures
        headings_among(constant_entries(xs, n), Set::empty()),
        ends_line(constant_entries(xs, n)),
    decreases n,
{
    if n == 0 {
        assert forall|i: int| !heading_at(constant_entries(xs, n), i) by {}
    } else {
        lemma_constant_entries(xs, (n - 1) as nat);
        lemma_lits();
        reveal_strlit("# [");
        reveal_strlit("\n");
        let x = xs[n - 1];
        lemma_constant_text(x);
        let l = "# ["@ + dec((n - 1) as nat) + "] "@ + constant_text(x);
        assert(constant_entry((n - 1) as nat, x) =~= l + "\n"@);
        assert(l[1] == ' ');
        lemma_one_line(l);
        lemma_join_plain(constant_entries(xs, (n - 1) as nat), l + "\n"@);
    }
}

/// A list of ids holds no line break.
proof fn lemma_id_items(xs: Seq<u32>, n: nat)
    ensures
        no_newline(id_items(xs, n)),
    decreases n,
{
    lemma_lits();
    if n > 1 {
        lemma_id_items(xs, (n - 1) as nat);
    }
}

/// A method table's entry is one line that is no heading.
proof fn lemma_itab_entries(xs: Seq<Itab>, n: nat)
    requires
        n <= xs.len(),
    ensures
        headings_among(itab_entries(xs, n), Set::empty()),
        ends_line(itab_entries(xs, n)),
    decreases n,
{
    if n == 0 {
        assert forall|i: int| !heading_at(itab_entries(xs, n), i) by {}
    } else {
        lemma_itab_entries(xs, (n - 1) as nat);
        lemma_lits();
        reveal_strlit("# [");
        reveal_strlit("\n");
        let x = xs[n - 1];
        lemma_id_items(x.methods@, x.methods@.len());
        let l = "# ["@ + dec((n - 1) as nat) + "] methods: "@ + id_list(x.methods@);
        assert(itab_entry((n - 1) as nat, x) =~= l + "\n"@);
        assert(l[1] == ' ');
        lemma_one_line(l);
        lemma_join_plain(itab_entries(xs, (n - 1) as nat), l + "\n"@);
    }
}

/// An interface's method lines start with `#   `, so none is a heading.
proof fn lemma_interface_method_lines(ms: Seq<String>, n: nat)
    requires
        n <= ms.len(),
        forall|j: int| 0 <= j < n ==> lacks(#[trigger] ms[j]@, '\n'),
    ensures
        headings_among(interface_method_lines(ms, n), Set::empty()),
        ends_line(interface_method_lines(ms, n)),
    decreases n,
{
    if n == 0 {
        assert forall|i: int| !heading_at(interface_method_lines(ms, n), i) by {}
    } else {
        lemma_interface_method_lines(ms, (n - 1) as nat);
        lemma_lits();
        reveal_strlit("#   method ");
        reveal_strlit("\n");
        let l = "#   method "@ + ms[n - 1]@;
        assert(interface_method_lines(ms, n) =~= interface_method_lines(ms, (n - 1) as nat) + (l + "\n"@));
        assert(l[1] == ' ');
        lemma_one_line(l);
        lemma_join_plain(interface_method_lines(ms, (n - 1) as nat), l + "\n"@);
    }
}

/// An interface's entry: its name line and method lines, none a heading.
proof fn lemma_interface_entries(xs: Seq<InterfaceMeta>, n: nat)
    requires
        n <= xs.len(),
        forall|j: int| 0 <= j < n ==> lacks(#[trigger] xs[j].name@, '\n'),
        forall|j: int, k: int| 0 <= j < n && 0 <= k < xs[j].method_names@.len()
            ==> lacks(#[trigger] xs[j].method_names@[k]@, '\n'),
    ensures
        headings_among(interface_entries(xs, n), Set::empty()),
        ends_line(interface_entries(xs, n)),
    decreases n,
{
    if n == 0 {
        assert forall|i: int| !heading_at(interface_entries(xs, n), i) by {}
    } else {
        lemma_interface_entries(xs, (n - 1) as nat);
        lemma_lits();
        reveal_strlit("# [");
        reveal_strlit("\n");
        let x = xs[n - 1];
        let l = "# ["@ + dec((n - 1) as nat) + "] "@ + x.name@;
        assert(l[1] == ' ');
        lemma_one_line(l);
        assert forall|k: int| 0 <= k < x.method_names@.len() implies lacks(#[trigger] x.method_names@[k]@, '\n') by {
            assert(lacks(xs[n - 1].method_names@[k]@, '\n'));
        }
        lemma_interface_method_lines(x.method_names@, x.method_names@.len());
        let e = interface_entry((n - 1) as nat, x);
        assert(e =~= (l + "\n"@) + interface_method_lines(x.method_names@, x.method_names@.len()));
        lemma_join_plain(l + "\n"@, interface_method_lines(x.method_names@, x.method_names@.len()));
        lemma_join_plain(interface_entries(xs, (n - 1) as nat), e);
    }
}

/// A struct type's field lines start with `#   `, so none is a heading.
proof fn lemma_field_lines(fs: Seq<crate::bytecode::FieldMeta>, n: nat)
    requires
        n <= fs.len(),
        forall|j: int| 0 <= j < n ==> lacks(#[trigger] fs[j].name@, '\n'),
    ensures
        headings_among(field_lines(fs, n), Set::empty()),
        ends_line(field_lines(fs, n)),
    decreases n,
{
    if n == 0 {
        assert forall|i: int| !heading_at(field_lines(fs, n), i) by {}
    } else {
        lemma_field_lines(fs, (n - 1) as nat);
        lemma_lits();
        reveal_strlit("#   ");
        reveal_strlit("\n");
        let f = fs[n - 1];
        let l = "#   "@ + f.name@ + ": offset="@ + dec(f.offset as nat) + ", slots="@ + dec(f.slot_count as nat);
        assert(field_lines(fs, n) =~= field_lines(fs, (n - 1) as nat) + (l + "\n"@));
        assert(l[1] == ' ');
        lemma_one_line(l);
        lemma_join_plain(field_lines(fs, (n - 1) as nat), l + "\n"@);
    }
}

/// A struct type's entry: its slot-count line and field lines, none a
/// heading.
proof fn lemma_struct_entries(xs: Seq<StructMeta>, n: nat)
    requires
        n <= xs.len(),
        forall|j: int, k: int| 0 <= j < n && 0 <= k < xs[j].fields@.len()
            ==> lacks(#[trigger] xs[j].fields@[k].name@, '\n'),
    ensures
        headings_among(struct_entries(xs, n), Set::empty()),
        ends_line(struct_entries(xs, n)),
    decreases n,
{
    if n == 0 {
        assert forall|i: int| !heading_at(struct_entries(xs, n), i) by {}
    } else {
        lemma_struct_entries(xs, (n - 1) as nat);
        lemma_lits();
        reveal_strlit("# [");
        reveal_strlit(" slots)\n");
        reveal_strlit(" slots)");
        reveal_strlit("\n");
        let x = xs[n - 1];
        let l = "# ["@ + dec((n - 1) as nat) + "] ("@ + dec(x.slot_count as nat) + " slots)"@;
        assert(l[1] == ' ');
        lemma_one_line(l);
        assert forall|k: int| 0 <= k < x.fields@.len() implies lacks(#[trigger] x.fields@[k].name@, '\n') by {
            assert(lacks(xs[n - 1].fields@[k].name@, '\n'));
        }
        lemma_field_lines(x.fields@, x.fields@.len());
        let e = struct_entry((n - 1) as nat, x);
        assert(e =~= (l + "\n"@) + field_lines(x.fields@, x.fields@.len()));
        lemma_join_plain(l + "\n"@, field_lines(x.fields@, x.fields@.len()));
        lemma_join_plain(struct_entries(xs, (n - 1) as nat), e);
    }
}

/// The methods of a named type hold no line break when their names hold
/// none.
proof fn lemma_method_lines(ms: Seq<(String, MethodInfo)>, n: nat)
    requires
        n <= ms.len(),
        forall|j: int| 0 <= j < n ==> lacks(#[trigger] ms[j].0@, '\n'),
    ensures
        no_newline(method_lines(ms, n)),
    decreases n,
{
    lemma_lits();
    if n > 0 {
        lemma_method_lines(ms, (n - 1) as nat);
        assert(lacks(ms[n - 1].0@, '\n'));
    }
}

/// A named type's entry: its underlying-type line and its methods line,
/// none a heading.
proof fn lemma_named_entries(xs: Seq<NamedTypeMeta>, n: nat)
    requires
        n <= xs.len(),
        forall|j: int| 0 <= j < n ==> lacks(#[trigger] xs[j].name@, '\n'),
        forall|j: int, k: int| 0 <= j < n && 0 <= k < xs[j].methods@.len()
            ==> lacks(#[trigger] xs[j].methods@[k].0@, '\n'),
    ensures
        headings_among(named_entries(xs, n), Set::empty()),
        ends_line(named_entries(xs, n)),
    decreases n,
{
    if n == 0 {
        assert forall|i: int| !heading_at(named_entries(xs, n), i) by {}
    } else {
        lemma_named_entries(xs, (n - 1) as nat);
        lemma_lits();
        reveal_strlit("# [");
        reveal_strlit(")\n");
        reveal_strlit(")");
        reveal_strlit("#   methods:");
        reveal_strlit("\n");
        let x = xs[n - 1];
        let l = "# ["@ + dec((n - 1) as nat) + "] "@ + x.name@ + " (underlying: meta_id="@
            + dec(x.underlying_meta_id as nat) + ", vk="@ + dec(x.underlying_value_kind as nat) + ")"@;
        assert(l[1] == ' ');
        lemma_one_line(l);
        let e = named_entry((n - 1) as nat, x);
        if x.methods@.len() > 0 {
            assert forall|k: int| 0 <= k < x.methods@.len() implies lacks(#[trigger] x.methods@[k].0@, '\n') by {
                assert(lacks(xs[n - 1].methods@[k].0@, '\n'));
            }
            lemma_method_lines(x.methods@, x.methods@.len());
            let ml = "#   methods:"@ + method_lines(x.methods@, x.methods@.len());
            assert(ml[1] == ' ');
            lemma_one_line(ml);
            assert(e =~= (l + "\n"@) + (ml + "\n"@));
            lemma_join_plain(l + "\n"@, ml + "\n"@);
        } else {
            assert(e =~= l + "\n"@);
        }
        lemma_join_plain(named_entries(xs, (n - 1) as nat), e);
    }
}

/// The two header lines of a module and the blank line after them hold no
/// heading.
proof fn lemma_header(m: Module)
    requires
        lacks(m.name@, '\n'),
    ensures
        headings_among(module_header(m), Set::empty()),
        ends_line(module_header(m)),
{
    lemma_lits();
    reveal_strlit("# Module: ");
    reveal_strlit("# Entry: func_");
    reveal_strlit("\n\n");
    reveal_strlit("\n");
    let a = "# Module: "@ + m.name@;
    let b = "# Entry: func_"@ + dec(m.entry_func as nat);
    assert(a[1] == ' ');
    assert(b[1] == ' ');
    lemma_one_line(a);
    lemma_one_line(b);
    lemma_one_line(Seq::empty());
    assert(Seq::<char>::empty() + "\n"@ =~= "\n"@);
    assert(module_header(m) =~= (a + "\n"@) + (b + "\n"@) + "\n"@);
    lemma_join_plain(a + "\n"@, b + "\n"@);
    lemma_join_plain((a + "\n"@) + (b + "\n"@), "\n"@);
}

/// A line that starts with a title `x` is a heading, so it starts with one
/// of the titles the text's headings are among, which agrees with `x` in
/// its fourth and fifth characters.
proof fn lemma_title_line(text: Seq<char>, titles: Set<Seq<char>>, i: int, x: Seq<char>)
    requires
        headings_among(text, titles),
        line_start(text, i),
        holds_at(text, i, x),
        x.len() >= 5,
        x[0] == '#',
        x[1] == '#',
    ensures
        exists|t: Seq<char>| titles.contains(t) && holds_at(text, i, t)
            && (t.len() >= 5 ==> t[3] == x[3] && t[4] == x[4]),
{
    assert(text[i] == x[0]) by {
        assert(text[i] == text.subrange(i, i + x.len())[0]);
    }
    assert(text[i + 1] == x[1]) by {
        assert(text[i + 1] == text.subrange(i, i + x.len())[1]);
    }
    assert(heading_at(text, i));
    let t = choose|t: Seq<char>| titles.contains(t) && holds_at(text, i, t);
    if t.len() >= 5 {
        assert(text[i + 3] == t[3] && text[i + 4] == t[4]) by {
            assert(text[i + 3] == text.subrange(i, i + t.len())[3]);
            assert(text[i + 4] == text.subrange(i, i + t.len())[4]);
        }
        assert(text[i + 3] == x[3] && text[i + 4] == x[4]) by {
            assert(text[i + 3] == text.subrange(i, i + x.len())[3]);
            assert(text[i + 4] == text.subrange(i, i + x.len())[4]);
        }
    }
}

/// A section shown right after text `p` that ends a line starts a line
/// with its title.
proof fn lemma_title_at(p: Seq<char>, sec: Seq<char>, r: Seq<char>, x: Seq<char>)
    requires
        p.len() > 0,
        ends_line(p),
        holds_at(sec, 0, x),
        x.len() > 0,
    ensures
        line_start(p + sec + r, p.len() as int),
        holds_at(p + sec + r, p.len() as int, x),
{
    let t = p + sec + r;
    assert(t[p.len() - 1] == p.last());
    assert(t.subrange(p.len() as int, (p.len() + x.len()) as int) =~= sec.subrange(0, x.len() as int));
}

/// A module whose text the title law is stated for: no name, field name,
/// method name or constant text holds a line break, and no constant is a
/// string.
pub open spec fn one_line_names(m: Module) -> bool {
    &&& lacks(m.name@, '\n')
    &&& forall|j: int, k: int| 0 <= j < m.struct_metas@.len() && 0 <= k < m.struct_metas@[j].fields@.len()
        ==> lacks(#[trigger] m.struct_metas@[j].fields@[k].name@, '\n')
    &&& forall|j: int| 0 <= j < m.named_type_metas@.len() ==> lacks(#[trigger] m.named_type_metas@[j].name@, '\n')
    &&& forall|j: int, k: int| 0 <= j < m.named_type_metas@.len() && 0 <= k < m.named_type_metas@[j].methods@.len()
        ==> lacks(#[trigger] m.named_type_metas@[j].methods@[k].0@, '\n')
    &&& forall|j: int| 0 <= j < m.interface_metas@.len() ==> lacks(#[trigger] m.interface_metas@[j].name@, '\n')
    &&& forall|j: int, k: int| 0 <= j < m.interface_metas@.len() && 0 <= k < m.interface_metas@[j].method_names@.len()
        ==> lacks(#[trigger] m.interface_metas@[j].method_names@[k]@, '\n')
    &&& forall|j: int| 0 <= j < m.constants@.len() ==> plain_constant(#[trigger] m.constants@[j])
    &&& forall|j: int| 0 <= j < m.globals@.len() ==> lacks(#[trigger] m.globals@[j].name@, '\n')
    &&& forall|j: int| 0 <= j < m.externs@.len() ==> lacks(#[trigger] m.externs@[j].name@, '\n')
    &&& forall|j: int| 0 <= j < m.functions@.len() ==> lacks(#[trigger] m.functions@[j].name@, '\n')
}

/// The titles of the sections that the text of `m` shows, with that of
/// the functions section.
pub open spec fn shown_titles(m: Module) -> Set<Seq<char>> {
    Set::<Seq<char>>::empty()
        .union(if m.struct_metas@.len() > 0 { set!["## Struct Types\n"@] } else { Set::empty() })
        .union(if m.named_type_metas@.len() > 0 { set!["## Named Types\n"@] } else { Set::empty() })
        .union(if m.interface_metas@.len() > 0 { set!["## Interface Types\n"@] } else { Set::empty() })
        .union(if m.itabs@.len() > 0 { set!["## Itabs\n"@] } else { Set::empty() })
        .union(if m.constants@.len() > 0 { set!["## Constants\n"@] } else { Set::empty() })
        .union(if m.globals@.len() > 0 { set!["## Globals\n"@] } else { Set::empty() })
        .union(if m.externs@.len() > 0 { set!["## Externs\n"@] } else { Set::empty() })
        .union(set!["## Functions\n"@])
        .union(Set::empty())
}

/// The lines of a module's text that start with `##` start with the titles
/// of the sections it shows or with that of the functions section.
#[verifier::spinoff_prover]
#[verifier::rlimit(80)]
pub proof fn lemma_headings(m: Module)
    requires
        one_line_names(m),
    ensures
        headings_among(module_text(m), shown_titles(m)),
{
    reveal_strlit("## Struct Types\n");
    reveal_strlit("## Named Types\n");
    reveal_strlit("## Interface Types\n");
    reveal_strlit("## Itabs\n");
    reveal_strlit("## Constants\n");
    reveal_strlit("## Globals\n");
    reveal_strlit("## Externs\n");
    reveal_strlit("## Functions\n");
    reveal_strlit("## Functions\n\n");
    reveal_strlit("\n");
    lemma_header(m);
    lemma_struct_entries(m.struct_metas@, m.struct_metas@.len());
    lemma_named_entries(m.named_type_metas@, m.named_type_metas@.len());
    lemma_interface_entries(m.interface_metas@, m.interface_metas@.len());
    lemma_itab_entries(m.itabs@, m.itabs@.len());
    lemma_constant_entries(m.constants@, m.constants@.len());
    lemma_global_entries(m.globals@, m.globals@.len());
    lemma_extern_entries(m.externs@, m.externs@.len());
    lemma_function_entries(m.functions@, m.functions@.len());
    let s1 = section(m.struct_metas@.len() > 0, "## Struct Types\n"@, struct_entries(m.struct_metas@, m.struct_metas@.len()));
    let s2 = section(m.named_type_metas@.len() > 0, "## Named Types\n"@, named_entries(m.named_type_metas@, m.named_type_metas@.len()));
    let s3 = section(m.interface_metas@.len() > 0, "## Interface Types\n"@, interface_entries(m.interface_metas@, m.interface_metas@.len()));
    let s4 = section(m.itabs@.len() > 0, "## Itabs\n"@, itab_entries(m.itabs@, m.itabs@.len()));
    let s5 = section(m.constants@.len() > 0, "## Constants\n"@, constant_entries(m.constants@, m.constants@.len()));
    let s6 = section(m.globals@.len() > 0, "## Globals\n"@, global_entries(m.globals@, m.globals@.len()));
    let s7 = section(m.externs@.len() > 0, "## Externs\n"@, extern_entries(m.externs@, m.externs@.len()));
    lemma_section_headings(m.struct_metas@.len() > 0, "## Struct Types\n"@, struct_entries(m.struct_metas@, m.struct_metas@.len()));
    lemma_section_headings(m.named_type_metas@.len() > 0, "## Named Types\n"@, named_entries(m.named_type_metas@, m.named_type_metas@.len()));
    lemma_section_headings(m.interface_metas@.len() > 0, "## Interface Types\n"@, interface_entries(m.interface_metas@, m.interface_metas@.len()));
    lemma_section_headings(m.itabs@.len() > 0, "## Itabs\n"@, itab_entries(m.itabs@, m.itabs@.len()));
    lemma_section_headings(m.constants@.len() > 0, "## Constants\n"@, constant_entries(m.constants@, m.constants@.len()));
    lemma_section_headings(m.globals@.len() > 0, "## Globals\n"@, global_entries(m.globals@, m.globals@.len()));
    lemma_section_headings(m.externs@.len() > 0, "## Externs\n"@, extern_entries(m.externs@, m.externs@.len()));
    lemma_section_headings(true, "## Functions\n"@, Seq::empty());
    let fx = section(true, "## Functions\n"@, Seq::empty());
    assert(fx =~= "## Functions\n\n"@);
    let body = function_entries(m.functions@, m.functions@.len());
    let h = module_header(m);
    lemma_join(h, s1, Set::empty(), if m.struct_metas@.len() > 0 { set!["## Struct Types\n"@] } else { Set::empty() });
    let t1 = Set::<Seq<char>>::empty().union(if m.struct_metas@.len() > 0 { set!["## Struct Types\n"@] } else { Set::empty() });
    lemma_join(h + s1, s2, t1, if m.named_type_metas@.len() > 0 { set!["## Named Types\n"@] } else { Set::empty() });
    let t2 = t1.union(if m.named_type_metas@.len() > 0 { set!["## Named Types\n"@] } else { Set::empty() });
    lemma_join(h + s1 + s2, s3, t2, if m.interface_metas@.len() > 0 { set!["## Interface Types\n"@] } else { Set::empty() });
    let t3 = t2.union(if m.interface_metas@.len() > 0 { set!["## Interface Types\n"@] } else { Set::empty() });
    lemma_join(h + s1 + s2 + s3, s4, t3, if m.itabs@.len() > 0 { set!["## Itabs\n"@] } else { Set::empty() });
    let t4 = t3.union(if m.itabs@.len() > 0 { set!["## Itabs\n"@] } else { Set::empty() });
    lemma_join(h + s1 + s2 + s3 + s4, s5, t4, if m.constants@.len() > 0 { set!["## Constants\n"@] } else { Set::empty() });
    let t5 = t4.union(if m.constants@.len() > 0 { set!["## Constants\n"@] } else { Set::empty() });
    lemma_join(h + s1 + s2 + s3 + s4 + s5, s6, t5, if m.globals@.len() > 0 { set!["## Globals\n"@] } else { Set::empty() });
    let t6 = t5.union(if m.globals@.len() > 0 { set!["## Globals\n"@] } else { Set::empty() });
    lemma_join(h + s1 + s2 + s3 + s4 + s5 + s6, s7, t6, if m.externs@.len() > 0 { set!["## Externs\n"@] } else { Set::empty() });
    let t7 = t6.union(if m.externs@.len() > 0 { set!["## Externs\n"@] } else { Set::empty() });
    lemma_join(h + s1 + s2 + s3 + s4 + s5 + s6 + s7, fx, t7, set!["## Functions\n"@]);
    let t8 = t7.union(set!["## Functions\n"@]);
    lemma_join(h + s1 + s2 + s3 + s4 + s5 + s6 + s7 + fx, body, t8, Set::empty());
    assert(module_text(m) =~= h + s1 + s2 + s3 + s4 + s5 + s6 + s7 + fx + body);
}

/// Joining two texts that end lines gives one that ends a line.
proof fn lemma_ends(a: Seq<char>, b: Seq<char>)
    requires
        ends_line(a),
        ends_line(b),
    ensures
        ends_line(a + b),
{
    if b.len() > 0 {
        assert((a + b).last() == b.last());
    } else {
        assert(a + b =~= a);
    }
}

/// A title `x` starts a line of `text` exactly when `c` holds: given that
/// the headings of `text` are among `ts`, that only when `c` does a title
/// in `ts` agree with `x` in its fourth and fifth characters, and that
/// when `c` holds, `x` starts `sec`, which follows text `p` ending a line.
proof fn lemma_title_iff(text: Seq<char>, ts: Set<Seq<char>>, x: Seq<char>, c: bool, p: Seq<char>, sec: Seq<char>, r: Seq<char>)
    requires
        headings_among(text, ts),
        text == p + sec + r,
        p.len() > 0,
        ends_line(p),
        c ==> holds_at(sec, 0, x),
        x.len() >= 5,
        x[0] == '#',
        x[1] == '#',
        forall|t: Seq<char>| #[trigger] ts.contains(t) ==> t.len() >= 5,
        forall|t: Seq<char>| #[trigger] ts.contains(t) && t[3] == x[3] && t[4] == x[4] ==> c,
    ensures
        (exists|i: int| line_start(text, i) && holds_at(text, i, x)) <==> c,
{
    if exists|i: int| line_start(text, i) && holds_at(text, i, x) {
        let i = choose|i: int| line_start(text, i) && holds_at(text, i, x);
        lemma_title_line(text, ts, i, x);
    }
    if c {
        lemma_title_at(p, sec, r, x);
    }
}

/// The ways of cutting a module's text around one of its pieces.
proof fn lemma_cuts(
    h: Seq<char>,
    s1: Seq<char>,
    s2: Seq<char>,
    s3: Seq<char>,
    s4: Seq<char>,
    s5: Seq<char>,
    s6: Seq<char>,
    s7: Seq<char>,
    fx: Seq<char>,
    body: Seq<char>,
)
    ensures
        h + s1 + s2 + s3 + s4 + s5 + s6 + s7 + fx + body == (h) + s1 + (s2 + s3 + s4 + s5 + s6 + s7 + fx + body),
        h + s1 + s2 + s3 + s4 + s5 + s6 + s7 + fx + body == (h + s1) + s2 + (s3 + s4 + s5 + s6 + s7 + fx + body),
        h + s1 + s2 + s3 + s4 + s5 + s6 + s7 + fx + body == (h + s1 + s2) + s3 + (s4 + s5 + s6 + s7 + fx + body),
        h + s1 + s2 + s3 + s4 + s5 + s6 + s7 + fx + body == (h + s1 + s2 + s3) + s4 + (s5 + s6 + s7 + fx + body),
        h + s1 + s2 + s3 + s4 + s5 + s6 + s7 + fx + body == (h + s1 + s2 + s3 + s4) + s5 + (s6 + s7 + fx + body),
        h + s1 + s2 + s3 + s4 + s5 + s6 + s7 + fx + body == (h + s1 + s2 + s3 + s4 + s5) + s6 + (s7 + fx + body),
        h + s1 + s2 + s3 + s4 + s5 + s6 + s7 + fx + body == (h + s1 + s2 + s3 + s4 + s5 + s6) + s7 + (fx + body),
        h + s1 + s2 + s3 + s4 + s5 + s6 + s7 + fx + body == (h + s1 + s2 + s3 + s4 + s5 + s6 + s7) + fx + (body),
{
    assert(h + s1 + s2 + s3 + s4 + s5 + s6 + s7 + fx + body =~= (h) + s1 + (s2 + s3 + s4 + s5 + s6 + s7 + fx + body));
    assert(h + s1 + s2 + s3 + s4 + s5 + s6 + s7 + fx + body =~= (h + s1) + s2 + (s3 + s4 + s5 + s6 + s7 + fx + body));
    assert(h + s1 + s2 + s3 + s4 + s5 + s6 + s7 + fx + body =~= (h + s1 + s2) + s3 + (s4 + s5 + s6 + s7 + fx + body));
    assert(h + s1 + s2 + s3 + s4 + s5 + s6 + s7 + fx + body =~= (h + s1 + s2 + s3) + s4 + (s5 + s6 + s7 + fx + body));
    assert(h + s1 + s2 + s3 + s4 + s5 + s6 + s7 + fx + body =~= (h + s1 + s2 + s3 + s4) + s5 + (s6 + s7 + fx + body));
    assert(h + s1 + s2 + s3 + s4 + s5 + s6 + s7 + fx + body =~= (h + s1 + s2 + s3 + s4 + s5) + s6 + (s7 + fx + body));
    assert(h + s1 + s2 + s3 + s4 + s5 + s6 + s7 + fx + body =~= (h + s1 + s2 + s3 + s4 + s5 + s6) + s7 + (fx + body));
    assert(h + s1 + s2 + s3 + s4 + s5 + s6 + s7 + fx + body =~= (h + s1 + s2 + s3 + s4 + s5 + s6 + s7) + fx + (body));
}

/// The header of a module's text ends a line and is not empty.
proof fn lemma_prefix_0(m: Module)
    requires
        one_line_names(m),
    ensures
        module_header(m).len() > 0,
        ends_line(module_header(m)),
{
    lemma_header(m);
    reveal_strlit("# Module: ");
}

/// The text of a module up to the end of its section 1 ends a line.
proof fn lemma_prefix_1(m: Module)
    requires
        one_line_names(m),
    ensures
        ends_line(module_header(m) + section(m.struct_metas@.len() > 0, "## Struct Types\n"@, struct_entries(m.struct_metas@, m.struct_metas@.len()))),
{
    lemma_prefix_0(m);
    lemma_struct_entries(m.struct_metas@, m.struct_metas@.len());
    reveal_strlit("## Struct Types\n");
    lemma_section_headings(m.struct_metas@.len() > 0, "## Struct Types\n"@, struct_entries(m.struct_metas@, m.struct_metas@.len()));
    lemma_ends(module_header(m), section(m.struct_metas@.len() > 0, "## Struct Types\n"@, struct_entries(m.struct_metas@, m.struct_metas@.len())));
}

/// The text of a module up to the end of its section 2 ends a line.
proof fn lemma_prefix_2(m: Module)
    requires
        one_line_names(m),
    ensures
        ends_line(module_header(m) + section(m.struct_metas@.len() > 0, "## Struct Types\n"@, struct_entries(m.struct_metas@, m.struct_metas@.len())) + section(m.named_type_metas@.len() > 0, "## Named Types\n"@, named_entries(m.named_type_metas@, m.named_type_metas@.len()))),
{
    lemma_prefix_1(m);
    lemma_named_entries(m.named_type_metas@, m.named_type_metas@.len());
    reveal_strlit("## Named Types\n");
    lemma_section_headings(m.named_type_metas@.len() > 0, "## Named Types\n"@, named_entries(m.named_type_metas@, m.named_type_metas@.len()));
    lemma_ends(module_header(m) + section(m.struct_metas@.len() > 0, "## Struct Types\n"@, struct_entries(m.struct_metas@, m.struct_metas@.len())), section(m.named_type_metas@.len() > 0, "## Named Types\n"@, named_entries(m.named_type_metas@, m.named_type_metas@.len())));
}

/// The text of a module up to the end of its section 3 ends a line.
proof fn lemma_prefix_3(m: Module)
    requires
        one_line_names(m),
    ensures
        ends_line(module_header(m) + section(m.struct_metas@.len() > 0, "## Struct Types\n"@, struct_entries(m.struct_metas@, m.struct_metas@.len())) + section(m.named_type_metas@.len() > 0, "## Named Types\n"@, named_entries(m.named_type_metas@, m.named_type_metas@.len())) + section(m.interface_metas@.len() > 0, "## Interface Types\n"@, interface_entries(m.interface_metas@, m.interface_metas@.len()))),
{
    lemma_prefix_2(m);
    lemma_interface_entries(m.interface_metas@, m.interface_metas@.len());
    reveal_strlit("## Interface Types\n");
    lemma_section_headings(m.interface_metas@.len() > 0, "## Interface Types\n"@, interface_entries(m.interface_metas@, m.interface_metas@.len()));
    lemma_ends(module_header(m) + section(m.struct_metas@.len() > 0, "## Struct Types\n"@, struct_entries(m.struct_metas@, m.struct_metas@.len())) + section(m.named_type_metas@.len() > 0, "## Named Types\n"@, named_entries(m.named_type_metas@, m.named_type_metas@.len())), section(m.interface_metas@.len() > 0, "## Interface Types\n"@, interface_entries(m.interface_metas@, m.interface_metas@.len())));
}

/// The text of a module up to the end of its section 4 ends a line.
proof fn lemma_prefix_4(m: Module)
    requires
        one_line_names(m),
    ensures
        ends_line(module_header(m) + section(m.struct_metas@.len() > 0, "## Struct Types\n"@, struct_entries(m.struct_metas@, m.struct_metas@.len())) + section(m.named_type_metas@.len() > 0, "## Named Types\n"@, named_entries(m.named_type_metas@, m.named_type_metas@.len())) + section(m.interface_metas@.len() > 0, "## Interface Types\n"@, interface_entries(m.interface_metas@, m.interface_metas@.len())) + section(m.itabs@.len() > 0, "## Itabs\n"@, itab_entries(m.itabs@, m.itabs@.len()))),
{
    lemma_prefix_3(m);
    lemma_itab_entries(m.itabs@, m.itabs@.len());
    reveal_strlit("## Itabs\n");
    lemma_section_headings(m.itabs@.len() > 0, "## Itabs\n"@, itab_entries(m.itabs@, m.itabs@.len()));
    lemma_ends(module_header(m) + section(m.struct_metas@.len() > 0, "## Struct Types\n"@, struct_entries(m.struct_metas@, m.struct_metas@.len())) + section(m.named_type_metas@.len() > 0, "## Named Types\n"@, named_entries(m.named_type_metas@, m.named_type_metas@.len())) + section(m.interface_metas@.len() > 0, "## Interface Types\n"@, interface_entries(m.interface_metas@, m.interface_metas@.len())), section(m.itabs@.len() > 0, "## Itabs\n"@, itab_entries(m.itabs@, m.itabs@.len())));
}

/// The text of a module up to the end of its section 5 ends a line.
proof fn lemma_prefix_5(m: Module)
    requires
        one_line_names(m),
    ensures
        ends_line(module_header(m) + section(m.struct_metas@.len() > 0, "## Struct Types\n"@, struct_entries(m.struct_metas@, m.struct_metas@.len())) + section(m.named_type_metas@.len() > 0, "## Named Types\n"@, named_entries(m.named_type_metas@, m.named_type_metas@.len())) + section(m.interface_metas@.len() > 0, "## Interface Types\n"@, interface_entries(m.interface_metas@, m.interface_metas@.len())) + section(m.itabs@.len() > 0, "## Itabs\n"@, itab_entries(m.itabs@, m.itabs@.len())) + section(m.constants@.len() > 0, "## Constants\n"@, constant_entries(m.constants@, m.constants@.len()))),
{
    lemma_prefix_4(m);
    lemma_constant_entries(m.constants@, m.constants@.len());
    reveal_strlit("## Constants\n");
    lemma_section_headings(m.constants@.len() > 0, "## Constants\n"@, constant_entries(m.constants@, m.constants@.len()));
    lemma_ends(module_header(m) + section(m.struct_metas@.len() > 0, "## Struct Types\n"@, struct_entries(m.struct_metas@, m.struct_metas@.len())) + section(m.named_type_metas@.len() > 0, "## Named Types\n"@, named_entries(m.named_type_metas@, m.named_type_metas@.len())) + section(m.interface_metas@.len() > 0, "## Interface Types\n"@, interface_entries(m.interface_metas@, m.interface_metas@.len())) + section(m.itabs@.len() > 0, "## Itabs\n"@, itab_entries(m.itabs@, m.itabs@.len())), section(m.constants@.len() > 0, "## Constants\n"@, constant_entries(m.constants@, m.constants@.len())));
}

/// The text of a module up to the end of its section 6 ends a line.
proof fn lemma_prefix_6(m: Module)
    requires
        one_line_names(m),
    ensures
        ends_line(module_header(m) + section(m.struct_metas@.len() > 0, "## Struct Types\n"@, struct_entries(m.struct_metas@, m.struct_metas@.len())) + section(m.named_type_metas@.len() > 0, "## Named Types\n"@, named_entries(m.named_type_metas@, m.named_type_metas@.len())) + section(m.interface_metas@.len() > 0, "## Interface Types\n"@, interface_entries(m.interface_metas@, m.interface_metas@.len())) + section(m.itabs@.len() > 0, "## Itabs\n"@, itab_entries(m.itabs@, m.itabs@.len())) + section(m.constants@.len() > 0, "## Constants\n"@, constant_entries(m.constants@, m.constants@.len())) + section(m.globals@.len() > 0, "## Globals\n"@, global_entries(m.globals@, m.globals@.len()))),
{
    lemma_prefix_5(m);
    lemma_global_entries(m.globals@, m.globals@.len());
    reveal_strlit("## Globals\n");
    lemma_section_headings(m.globals@.len() > 0, "## Globals\n"@, global_entries(m.globals@, m.globals@.len()));
    lemma_ends(module_header(m) + section(m.struct_metas@.len() > 0, "## Struct Types\n"@, struct_entries(m.struct_metas@, m.struct_metas@.len())) + section(m.named_type_metas@.len() > 0, "## Named Types\n"@, named_entries(m.named_type_metas@, m.named_type_metas@.len())) + section(m.interface_metas@.len() > 0, "## Interface Types\n"@, interface_entries(m.interface_metas@, m.interface_metas@.len())) + section(m.itabs@.len() > 0, "## Itabs\n"@, itab_entries(m.itabs@, m.itabs@.len())) + section(m.constants@.len() > 0, "## Constants\n"@, constant_entries(m.constants@, m.constants@.len())), section(m.globals@.len() > 0, "## Globals\n"@, global_entries(m.globals@, m.globals@.len())));
}

/// The text of a module up to the end of its section 7 ends a line.
proof fn lemma_prefix_7(m: Module)
    requires
        one_line_names(m),
    ensures
        ends_line(module_header(m) + section(m.struct_metas@.len() > 0, "## Struct Types\n"@, struct_entries(m.struct_metas@, m.struct_metas@.len())) + section(m.named_type_metas@.len() > 0, "## Named Types\n"@, named_entries(m.named_type_metas@, m.named_type_metas@.len())) + section(m.interface_metas@.len() > 0, "## Interface Types\n"@, interface_entries(m.interface_metas@, m.interface_metas@.len())) + section(m.itabs@.len() > 0, "## Itabs\n"@, itab_entries(m.itabs@, m.itabs@.len())) + section(m.constants@.len() > 0, "## Constants\n"@, constant_entries(m.constants@, m.constants@.len())) + section(m.globals@.len() > 0, "## Globals\n"@, global_entries(m.globals@, m.globals@.len())) + section(m.externs@.len() > 0, "## Externs\n"@, extern_entries(m.externs@, m.externs@.len()))),
{
    lemma_prefix_6(m);
    lemma_extern_entries(m.externs@, m.externs@.len());
    reveal_strlit("## Externs\n");
    lemma_section_headings(m.externs@.len() > 0, "## Externs\n"@, extern_entries(m.externs@, m.externs@.len()));
    lemma_ends(module_header(m) + section(m.struct_metas@.len() > 0, "## Struct Types\n"@, struct_entries(m.struct_metas@, m.struct_metas@.len())) + section(m.named_type_metas@.len() > 0, "## Named Types\n"@, named_entries(m.named_type_metas@, m.named_type_metas@.len())) + section(m.interface_metas@.len() > 0, "## Interface Types\n"@, interface_entries(m.interface_metas@, m.interface_metas@.len())) + section(m.itabs@.len() > 0, "## Itabs\n"@, itab_entries(m.itabs@, m.itabs@.len())) + section(m.constants@.len() > 0, "## Constants\n"@, constant_entries(m.constants@, m.constants@.len())) + section(m.globals@.len() > 0, "## Globals\n"@, global_entries(m.globals@, m.globals@.len())), section(m.externs@.len() > 0, "## Externs\n"@, extern_entries(m.externs@, m.externs@.len())));
}

/// Every title a module's text shows is at least five characters long.
proof fn lemma_titles_long(m: Module)
    ensures
        forall|t: Seq<char>| #[trigger] shown_titles(m).contains(t) ==> t.len() >= 5,
{
    reveal_strlit("## Struct Types\n");
    reveal_strlit("## Named Types\n");
    reveal_strlit("## Interface Types\n");
    reveal_strlit("## Itabs\n");
    reveal_strlit("## Constants\n");
    reveal_strlit("## Globals\n");
    reveal_strlit("## Externs\n");
    reveal_strlit("## Functions\n");
}

/// Among the titles a module's text shows, only that of the section of
/// `struct_metas` agrees with it in the fourth and fifth characters, and only
/// when that table has entries.
proof fn lemma_unique_1(m: Module)
    ensures
        forall|t: Seq<char>| #[trigger] shown_titles(m).contains(t) && t[3] == "## Struct Types\n"@[3] && t[4] == "## Struct Types\n"@[4]
            ==> m.struct_metas@.len() > 0,
{
    reveal_strlit("## Struct Types\n");
    reveal_strlit("## Named Types\n");
    reveal_strlit("## Interface Types\n");
    reveal_strlit("## Itabs\n");
    reveal_strlit("## Constants\n");
    reveal_strlit("## Globals\n");
    reveal_strlit("## Externs\n");
    reveal_strlit("## Functions\n");
}

/// Among the titles a module's text shows, only that of the section of
/// `named_type_metas` agrees with it in the fourth and fifth characters, and only
/// when that table has entries.
proof fn lemma_unique_2(m: Module)
    ensures
        forall|t: Seq<char>| #[trigger] shown_titles(m).contains(t) && t[3] == "## Named Types\n"@[3] && t[4] == "## Named Types\n"@[4]
            ==> m.named_type_metas@.len() > 0,
{
    reveal_strlit("## Struct Types\n");
    reveal_strlit("## Named Types\n");
    reveal_strlit("## Interface Types\n");
    reveal_strlit("## Itabs\n");
    reveal_strlit("## Constants\n");
    reveal_strlit("## Globals\n");
    reveal_strlit("## Externs\n");
    reveal_strlit("## Functions\n");
}

/// Among the titles a module's text shows, only that of the section of
/// `interface_metas` agrees with it in the fourth and fifth characters, and only
/// when that table has entries.
proof fn lemma_unique_3(m: Module)
    ensures
        forall|t: Seq<char>| #[trigger] shown_titles(m).contains(t) && t[3] == "## Interface Types\n"@[3] && t[4] == "## Interface Types\n"@[4]
            ==> m.interface_metas@.len() > 0,
{
    reveal_strlit("## Struct Types\n");
    reveal_strlit("## Named Types\n");
    reveal_strlit("## Interface Types\n");
    reveal_strlit("## Itabs\n");
    reveal_strlit("## Constants\n");
    reveal_strlit("## Globals\n");
    reveal_strlit("## Externs\n");
    reveal_strlit("## Functions\n");
}

/// Among the titles a module's text shows, only that of the section of
/// `itabs` agrees with it in the fourth and fifth characters, and only
/// when that table has entries.
proof fn lemma_unique_4(m: Module)
    ensures
        forall|t: Seq<char>| #[trigger] shown_titles(m).contains(t) && t[3] == "## Itabs\n"@[3] && t[4] == "## Itabs\n"@[4]
            ==> m.itabs@.len() > 0,
{
    reveal_strlit("## Struct Types\n");
    reveal_strlit("## Named Types\n");
    reveal_strlit("## Interface Types\n");
    reveal_strlit("## Itabs\n");
    reveal_strlit("## Constants\n");
    reveal_strlit("## Globals\n");
    reveal_strlit("## Externs\n");
    reveal_strlit("## Functions\n");
}

/// Among the titles a module's text shows, only that of the section of
/// `constants` agrees with it in the fourth and fifth characters, and only
/// when that table has entries.
proof fn lemma_unique_5(m: Module)
    ensures
        forall|t: Seq<char>| #[trigger] shown_titles(m).contains(t) && t[3] == "## Constants\n"@[3] && t[4] == "## Constants\n"@[4]
            ==> m.constants@.len() > 0,
{
    reveal_strlit("## Struct Types\n");
    reveal_strlit("## Named Types\n");
    reveal_strlit("## Interface Types\n");
    reveal_strlit("## Itabs\n");
    reveal_strlit("## Constants\n");
    reveal_strlit("## Globals\n");
    reveal_strlit("## Externs\n");
    reveal_strlit("## Functions\n");
}

/// Among the titles a module's text shows, only that of the section of
/// `globals` agrees with it in the fourth and fifth characters, and only
/// when that table has entries.
proof fn lemma_unique_6(m: Module)
    ensures
        forall|t: Seq<char>| #[trigger] shown_titles(m).contains(t) && t[3] == "## Globals\n"@[3] && t[4] == "## Globals\n"@[4]
            ==> m.globals@.len() > 0,
{
    reveal_strlit("## Struct Types\n");
    reveal_strlit("## Named Types\n");
    reveal_strlit("## Interface Types\n");
    reveal_strlit("## Itabs\n");
    reveal_strlit("## Constants\n");
    reveal_strlit("## Globals\n");
    reveal_strlit("## Externs\n");
    reveal_strlit("## Functions\n");
}

/// Among the titles a module's text shows, only that of the section of
/// `externs` agrees with it in the fourth and fifth characters, and only
/// when that table has entries.
proof fn lemma_unique_7(m: Module)
    ensures
        forall|t: Seq<char>| #[trigger] shown_titles(m).contains(t) && t[3] == "## Externs\n"@[3] && t[4] == "## Externs\n"@[4]
            ==> m.externs@.len() > 0,
{
    reveal_strlit("## Struct Types\n");
    reveal_strlit("## Named Types\n");
    reveal_strlit("## Interface Types\n");
    reveal_strlit("## Itabs\n");
    reveal_strlit("## Constants\n");
    reveal_strlit("## Globals\n");
    reveal_strlit("## Externs\n");
    reveal_strlit("## Functions\n");
}

/// The text of a module cut around its piece 1.
#[verifier::spinoff_prover]
proof fn lemma_text_cut_1(m: Module)
    ensures
        module_text(m) == (module_header(m)) + section(m.struct_metas@.len() > 0, "## Struct Types\n"@, struct_entries(m.struct_metas@, m.struct_metas@.len())) + (section(m.named_type_metas@.len() > 0, "## Named Types\n"@, named_entries(m.named_type_metas@, m.named_type_metas@.len())) + section(m.interface_metas@.len() > 0, "## Interface Types\n"@, interface_entries(m.interface_metas@, m.interface_metas@.len())) + section(m.itabs@.len() > 0, "## Itabs\n"@, itab_entries(m.itabs@, m.itabs@.len())) + section(m.constants@.len() > 0, "## Constants\n"@, constant_entries(m.constants@, m.constants@.len())) + section(m.globals@.len() > 0, "## Globals\n"@, global_entries(m.globals@, m.globals@.len())) + section(m.externs@.len() > 0, "## Externs\n"@, extern_entries(m.externs@, m.externs@.len())) + "## Functions\n\n"@ + function_entries(m.functions@, m.functions@.len())),
{
    let h = module_header(m);
    let s1 = section(m.struct_metas@.len() > 0, "## Struct Types\n"@, struct_entries(m.struct_metas@, m.struct_metas@.len()));
    let s2 = section(m.named_type_metas@.len() > 0, "## Named Types\n"@, named_entries(m.named_type_metas@, m.named_type_metas@.len()));
    let s3 = section(m.interface_metas@.len() > 0, "## Interface Types\n"@, interface_entries(m.interface_metas@, m.interface_metas@.len()));
    let s4 = section(m.itabs@.len() > 0, "## Itabs\n"@, itab_entries(m.itabs@, m.itabs@.len()));
    let s5 = section(m.constants@.len() > 0, "## Constants\n"@, constant_entries(m.constants@, m.constants@.len()));
    let s6 = section(m.globals@.len() > 0, "## Globals\n"@, global_entries(m.globals@, m.globals@.len()));
    let s7 = section(m.externs@.len() > 0, "## Externs\n"@, extern_entries(m.externs@, m.externs@.len()));
    let fx = "## Functions\n\n"@;
    let body = function_entries(m.functions@, m.functions@.len());
    assert(module_text(m) == h + s1 + s2 + s3 + s4 + s5 + s6 + s7 + fx + body);
    lemma_cuts(h, s1, s2, s3, s4, s5, s6, s7, fx, body);
}

/// The text of a module cut around its piece 2.
#[verifier::spinoff_prover]
proof fn lemma_text_cut_2(m: Module)
    ensures
        module_text(m) == (module_header(m) + section(m.struct_metas@.len() > 0, "## Struct Types\n"@, struct_entries(m.struct_metas@, m.struct_metas@.len()))) + section(m.named_type_metas@.len() > 0, "## Named Types\n"@, named_entries(m.named_type_metas@, m.named_type_metas@.len())) + (section(m.interface_metas@.len() > 0, "## Interface Types\n"@, interface_entries(m.interface_metas@, m.interface_metas@.len())) + section(m.itabs@.len() > 0, "## Itabs\n"@, itab_entries(m.itabs@, m.itabs@.len())) + section(m.constants@.len() > 0, "## Constants\n"@, constant_entries(m.constants@, m.constants@.len())) + section(m.globals@.len() > 0, "## Globals\n"@, global_entries(m.globals@, m.globals@.len())) + section(m.externs@.len() > 0, "## Externs\n"@, extern_entries(m.externs@, m.externs@.len())) + "## Functions\n\n"@ + function_entries(m.functions@, m.functions@.len())),
{
    let h = module_header(m);
    let s1 = section(m.struct_metas@.len() > 0, "## Struct Types\n"@, struct_entries(m.struct_metas@, m.struct_metas@.len()));
    let s2 = section(m.named_type_metas@.len() > 0, "## Named Types\n"@, named_entries(m.named_type_metas@, m.named_type_metas@.len()));
    let s3 = section(m.interface_metas@.len() > 0, "## Interface Types\n"@, interface_entries(m.interface_metas@, m.interface_metas@.len()));
    let s4 = section(m.itabs@.len() > 0, "## Itabs\n"@, itab_entries(m.itabs@, m.itabs@.len()));
    let s5 = section(m.constants@.len() > 0, "## Constants\n"@, constant_entries(m.constants@, m.constants@.len()));
    let s6 = section(m.globals@.len() > 0, "## Globals\n"@, global_entries(m.globals@, m.globals@.len()));
    let s7 = section(m.externs@.len() > 0, "## Externs\n"@, extern_entries(m.externs@, m.externs@.len()));
    let fx = "## Functions\n\n"@;
    let body = function_entries(m.functions@, m.functions@.len());
    assert(module_text(m) == h + s1 + s2 + s3 + s4 + s5 + s6 + s7 + fx + body);
    lemma_cuts(h, s1, s2, s3, s4, s5, s6, s7, fx, body);
}

/// The text of a module cut around its piece 3.
#[verifier::spinoff_prover]
proof fn lemma_text_cut_3(m: Module)
    ensures
        module_text(m) == (module_header(m) + section(m.struct_metas@.len() > 0, "## Struct Types\n"@, struct_entries(m.struct_metas@, m.struct_metas@.len())) + section(m.named_type_metas@.len() > 0, "## Named Types\n"@, named_entries(m.named_type_metas@, m.named_type_metas@.len()))) + section(m.interface_metas@.len() > 0, "## Interface Types\n"@, interface_entries(m.interface_metas@, m.interface_metas@.len())) + (section(m.itabs@.len() > 0, "## Itabs\n"@, itab_entries(m.itabs@, m.itabs@.len())) + section(m.constants@.len() > 0, "## Constants\n"@, constant_entries(m.constants@, m.constants@.len())) + section(m.globals@.len() > 0, "## Globals\n"@, global_entries(m.globals@, m.globals@.len())) + section(m.externs@.len() > 0, "## Externs\n"@, extern_entries(m.externs@, m.externs@.len())) + "## Functions\n\n"@ + function_entries(m.functions@, m.functions@.len())),
{
    let h = module_header(m);
    let s1 = section(m.struct_metas@.len() > 0, "## Struct Types\n"@, struct_entries(m.struct_metas@, m.struct_metas@.len()));
    let s2 = section(m.named_type_metas@.len() > 0, "## Named Types\n"@, named_entries(m.named_type_metas@, m.named_type_metas@.len()));
    let s3 = section(m.interface_metas@.len() > 0, "## Interface Types\n"@, interface_entries(m.interface_metas@, m.interface_metas@.len()));
    let s4 = section(m.itabs@.len() > 0, "## Itabs\n"@, itab_entries(m.itabs@, m.itabs@.len()));
    let s5 = section(m.constants@.len() > 0, "## Constants\n"@, constant_entries(m.constants@, m.constants@.len()));
    let s6 = section(m.globals@.len() > 0, "## Globals\n"@, global_entries(m.globals@, m.globals@.len()));
    let s7 = section(m.externs@.len() > 0, "## Externs\n"@, extern_entries(m.externs@, m.externs@.len()));
    let fx = "## Functions\n\n"@;
    let body = function_entries(m.functions@, m.functions@.len());
    assert(module_text(m) == h + s1 + s2 + s3 + s4 + s5 + s6 + s7 + fx + body);
    lemma_cuts(h, s1, s2, s3, s4, s5, s6, s7, fx, body);
}

/// The text of a module cut around its piece 4.
#[verifier::spinoff_prover]
proof fn lemma_text_cut_4(m: Module)
    ensures
        module_text(m) == (module_header(m) + section(m.struct_metas@.len() > 0, "## Struct Types\n"@, struct_entries(m.struct_metas@, m.struct_metas@.len())) + section(m.named_type_metas@.len() > 0, "## Named Types\n"@, named_entries(m.named_type_metas@, m.named_type_metas@.len())) + section(m.interface_metas@.len() > 0, "## Interface Types\n"@, interface_entries(m.interface_metas@, m.interface_metas@.len()))) + section(m.itabs@.len() > 0, "## Itabs\n"@, itab_entries(m.itabs@, m.itabs@.len())) + (section(m.constants@.len() > 0, "## Constants\n"@, constant_entries(m.constants@, m.constants@.len())) + section(m.globals@.len() > 0, "## Globals\n"@, global_entries(m.globals@, m.globals@.len())) + section(m.externs@.len() > 0, "## Externs\n"@, extern_entries(m.externs@, m.externs@.len())) + "## Functions\n\n"@ + function_entries(m.functions@, m.functions@.len())),
{
    let h = module_header(m);
    let s1 = section(m.struct_metas@.len() > 0, "## Struct Types\n"@, struct_entries(m.struct_metas@, m.struct_metas@.len()));
    let s2 = section(m.named_type_metas@.len() > 0, "## Named Types\n"@, named_entries(m.named_type_metas@, m.named_type_metas@.len()));
    let s3 = section(m.interface_metas@.len() > 0, "## Interface Types\n"@, interface_entries(m.interface_metas@, m.interface_metas@.len()));
    let s4 = section(m.itabs@.len() > 0, "## Itabs\n"@, itab_entries(m.itabs@, m.itabs@.len()));
    let s5 = section(m.constants@.len() > 0, "## Constants\n"@, constant_entries(m.constants@, m.constants@.len()));
    let s6 = section(m.globals@.len() > 0, "## Globals\n"@, global_entries(m.globals@, m.globals@.len()));
    let s7 = section(m.externs@.len() > 0, "## Externs\n"@, extern_entries(m.externs@, m.externs@.len()));
    let fx = "## Functions\n\n"@;
    let body = function_entries(m.functions@, m.functions@.len());
    assert(module_text(m) == h + s1 + s2 + s3 + s4 + s5 + s6 + s7 + fx + body);
    lemma_cuts(h, s1, s2, s3, s4, s5, s6, s7, fx, body);
}

/// The text of a module cut around its piece 5.
#[verifier::spinoff_prover]
proof fn lemma_text_cut_5(m: Module)
    ensures
        module_text(m) == (module_header(m) + section(m.struct_metas@.len() > 0, "## Struct Types\n"@, struct_entries(m.struct_metas@, m.struct_metas@.len())) + section(m.named_type_metas@.len() > 0, "## Named Types\n"@, named_entries(m.named_type_metas@, m.named_type_metas@.len())) + section(m.interface_metas@.len() > 0, "## Interface Types\n"@, interface_entries(m.interface_metas@, m.interface_metas@.len())) + section(m.itabs@.len() > 0, "## Itabs\n"@, itab_entries(m.itabs@, m.itabs@.len()))) + section(m.constants@.len() > 0, "## Constants\n"@, constant_entries(m.constants@, m.constants@.len())) + (section(m.globals@.len() > 0, "## Globals\n"@, global_entries(m.globals@, m.globals@.len())) + section(m.externs@.len() > 0, "## Externs\n"@, extern_entries(m.externs@, m.externs@.len())) + "## Functions\n\n"@ + function_entries(m.functions@, m.functions@.len())),
{
    let h = module_header(m);
    let s1 = section(m.struct_metas@.len() > 0, "## Struct Types\n"@, struct_entries(m.struct_metas@, m.struct_metas@.len()));
    let s2 = section(m.named_type_metas@.len() > 0, "## Named Types\n"@, named_entries(m.named_type_metas@, m.named_type_metas@.len()));
    let s3 = section(m.interface_metas@.len() > 0, "## Interface Types\n"@, interface_entries(m.interface_metas@, m.interface_metas@.len()));
    let s4 = section(m.itabs@.len() > 0, "## Itabs\n"@, itab_entries(m.itabs@, m.itabs@.len()));
    let s5 = section(m.constants@.len() > 0, "## Constants\n"@, constant_entries(m.constants@, m.constants@.len()));
    let s6 = section(m.globals@.len() > 0, "## Globals\n"@, global_entries(m.globals@, m.globals@.len()));
    let s7 = section(m.externs@.len() > 0, "## Externs\n"@, extern_entries(m.externs@, m.externs@.len()));
    let fx = "## Functions\n\n"@;
    let body = function_entries(m.functions@, m.functions@.len());
    assert(module_text(m) == h + s1 + s2 + s3 + s4 + s5 + s6 + s7 + fx + body);
    lemma_cuts(h, s1, s2, s3, s4, s5, s6, s7, fx, body);
}

/// The text of a module cut around its piece 6.
#[verifier::spinoff_prover]
proof fn lemma_text_cut_6(m: Module)
    ensures
        module_text(m) == (module_header(m) + section(m.struct_metas@.len() > 0, "## Struct Types\n"@, struct_entries(m.struct_metas@, m.struct_metas@.len())) + section(m.named_type_metas@.len() > 0, "## Named Types\n"@, named_entries(m.named_type_metas@, m.named_type_metas@.len())) + section(m.interface_metas@.len() > 0, "## Interface Types\n"@, interface_entries(m.interface_metas@, m.interface_metas@.len())) + section(m.itabs@.len() > 0, "## Itabs\n"@, itab_entries(m.itabs@, m.itabs@.len())) + section(m.constants@.len() > 0, "## Constants\n"@, constant_entries(m.constants@, m.constants@.len()))) + section(m.globals@.len() > 0, "## Globals\n"@, global_entries(m.globals@, m.globals@.len())) + (section(m.externs@.len() > 0, "## Externs\n"@, extern_entries(m.externs@, m.externs@.len())) + "## Functions\n\n"@ + function_entries(m.functions@, m.functions@.len())),
{
    let h = module_header(m);
    let s1 = section(m.struct_metas@.len() > 0, "## Struct Types\n"@, struct_entries(m.struct_metas@, m.struct_metas@.len()));
    let s2 = section(m.named_type_metas@.len() > 0, "## Named Types\n"@, named_entries(m.named_type_metas@, m.named_type_metas@.len()));
    let s3 = section(m.interface_metas@.len() > 0, "## Interface Types\n"@, interface_entries(m.interface_metas@, m.interface_metas@.len()));
    let s4 = section(m.itabs@.len() > 0, "## Itabs\n"@, itab_entries(m.itabs@, m.itabs@.len()));
    let s5 = section(m.constants@.len() > 0, "## Constants\n"@, constant_entries(m.constants@, m.constants@.len()));
    let s6 = section(m.globals@.len() > 0, "## Globals\n"@, global_entries(m.globals@, m.globals@.len()));
    let s7 = section(m.externs@.len() > 0, "## Externs\n"@, extern_entries(m.externs@, m.externs@.len()));
    let fx = "## Functions\n\n"@;
    let body = function_entries(m.functions@, m.functions@.len());
    assert(module_text(m) == h + s1 + s2 + s3 + s4 + s5 + s6 + s7 + fx + body);
    lemma_cuts(h, s1, s2, s3, s4, s5, s6, s7, fx, body);
}

/// The text of a module cut around its piece 7.
#[verifier::spinoff_prover]
proof fn lemma_text_cut_7(m: Module)
    ensures
        module_text(m) == (module_header(m) + section(m.struct_metas@.len() > 0, "## Struct Types\n"@, struct_entries(m.struct_metas@, m.struct_metas@.len())) + section(m.named_type_metas@.len() > 0, "## Named Types\n"@, named_entries(m.named_type_metas@, m.named_type_metas@.len())) + section(m.interface_metas@.len() > 0, "## Interface Types\n"@, interface_entries(m.interface_metas@, m.interface_metas@.len())) + section(m.itabs@.len() > 0, "## Itabs\n"@, itab_entries(m.itabs@, m.itabs@.len())) + section(m.constants@.len() > 0, "## Constants\n"@, constant_entries(m.constants@, m.constants@.len())) + section(m.globals@.len() > 0, "## Globals\n"@, global_entries(m.globals@, m.globals@.len()))) + section(m.externs@.len() > 0, "## Externs\n"@, extern_entries(m.externs@, m.externs@.len())) + ("## Functions\n\n"@ + function_entries(m.functions@, m.functions@.len())),
{
    let h = module_header(m);
    let s1 = section(m.struct_metas@.len() > 0, "## Struct Types\n"@, struct_entries(m.struct_metas@, m.struct_metas@.len()));
    let s2 = section(m.named_type_metas@.len() > 0, "## Named Types\n"@, named_entries(m.named_type_metas@, m.named_type_metas@.len()));
    let s3 = section(m.interface_metas@.len() > 0, "## Interface Types\n"@, interface_entries(m.interface_metas@, m.interface_metas@.len()));
    let s4 = section(m.itabs@.len() > 0, "## Itabs\n"@, itab_entries(m.itabs@, m.itabs@.len()));
    let s5 = section(m.constants@.len() > 0, "## Constants\n"@, constant_entries(m.constants@, m.constants@.len()));
    let s6 = section(m.globals@.len() > 0, "## Globals\n"@, global_entries(m.globals@, m.globals@.len()));
    let s7 = section(m.externs@.len() > 0, "## Externs\n"@, extern_entries(m.externs@, m.externs@.len()));
    let fx = "## Functions\n\n"@;
    let body = function_entries(m.functions@, m.functions@.len());
    assert(module_text(m) == h + s1 + s2 + s3 + s4 + s5 + s6 + s7 + fx + body);
    lemma_cuts(h, s1, s2, s3, s4, s5, s6, s7, fx, body);
}

/// The text of a module cut around its piece 8.
#[verifier::spinoff_prover]
proof fn lemma_text_cut_8(m: Module)
    ensures
        module_text(m) == (module_header(m) + section(m.struct_metas@.len() > 0, "## Struct Types\n"@, struct_entries(m.struct_metas@, m.struct_metas@.len())) + section(m.named_type_metas@.len() > 0, "## Named Types\n"@, named_entries(m.named_type_metas@, m.named_type_metas@.len())) + section(m.interface_metas@.len() > 0, "## Interface Types\n"@, interface_entries(m.interface_metas@, m.interface_metas@.len())) + section(m.itabs@.len() > 0, "## Itabs\n"@, itab_entries(m.itabs@, m.itabs@.len())) + section(m.constants@.len() > 0, "## Constants\n"@, constant_entries(m.constants@, m.constants@.len())) + section(m.globals@.len() > 0, "## Globals\n"@, global_entries(m.globals@, m.globals@.len())) + section(m.externs@.len() > 0, "## Externs\n"@, extern_entries(m.externs@, m.externs@.len()))) + "## Functions\n\n"@ + (function_entries(m.functions@, m.functions@.len())),
{
    let h = module_header(m);
    let s1 = section(m.struct_metas@.len() > 0, "## Struct Types\n"@, struct_entries(m.struct_metas@, m.struct_metas@.len()));
    let s2 = section(m.named_type_metas@.len() > 0, "## Named Types\n"@, named_entries(m.named_type_metas@, m.named_type_metas@.len()));
    let s3 = section(m.interface_metas@.len() > 0, "## Interface Types\n"@, interface_entries(m.interface_metas@, m.interface_metas@.len()));
    let s4 = section(m.itabs@.len() > 0, "## Itabs\n"@, itab_entries(m.itabs@, m.itabs@.len()));
    let s5 = section(m.constants@.len() > 0, "## Constants\n"@, constant_entries(m.constants@, m.constants@.len()));
    let s6 = section(m.globals@.len() > 0, "## Globals\n"@, global_entries(m.globals@, m.globals@.len()));
    let s7 = section(m.externs@.len() > 0, "## Externs\n"@, extern_entries(m.externs@, m.externs@.len()));
    let fx = "## Functions\n\n"@;
    let body = function_entries(m.functions@, m.functions@.len());
    assert(module_text(m) == h + s1 + s2 + s3 + s4 + s5 + s6 + s7 + fx + body);
    lemma_cuts(h, s1, s2, s3, s4, s5, s6, s7, fx, body);
}

/// The title line of the section of `m.struct_metas` is in the text exactly
/// when that table has entries.
#[verifier::spinoff_prover]
#[verifier::rlimit(100)]
proof fn lemma_title_1(m: Module)
    requires
        one_line_names(m),
    ensures
        (exists|i: int| line_start(module_text(m), i) && holds_at(module_text(m), i, "## Struct Types\n"@))
            <==> m.struct_metas@.len() > 0,
{
    lemma_headings(m);
    reveal_strlit("## Struct Types\n");
    reveal_strlit("## Named Types\n");
    reveal_strlit("## Interface Types\n");
    reveal_strlit("## Itabs\n");
    reveal_strlit("## Constants\n");
    reveal_strlit("## Globals\n");
    reveal_strlit("## Externs\n");
    reveal_strlit("## Functions\n");
    let ts = shown_titles(m);
    let h = module_header(m);
    let s1 = section(m.struct_metas@.len() > 0, "## Struct Types\n"@, struct_entries(m.struct_metas@, m.struct_metas@.len()));
    let s2 = section(m.named_type_metas@.len() > 0, "## Named Types\n"@, named_entries(m.named_type_metas@, m.named_type_metas@.len()));
    let s3 = section(m.interface_metas@.len() > 0, "## Interface Types\n"@, interface_entries(m.interface_metas@, m.interface_metas@.len()));
    let s4 = section(m.itabs@.len() > 0, "## Itabs\n"@, itab_entries(m.itabs@, m.itabs@.len()));
    let s5 = section(m.constants@.len() > 0, "## Constants\n"@, constant_entries(m.constants@, m.constants@.len()));
    let s6 = section(m.globals@.len() > 0, "## Globals\n"@, global_entries(m.globals@, m.globals@.len()));
    let s7 = section(m.externs@.len() > 0, "## Externs\n"@, extern_entries(m.externs@, m.externs@.len()));
    let fx = "## Functions\n\n"@;
    let body = function_entries(m.functions@, m.functions@.len());
    lemma_text_cut_1(m);
    lemma_prefix_0(m);
    lemma_prefix_0(m);
    assert((h).len() > 0);
    if m.struct_metas@.len() > 0 {
        assert(s1.subrange(0, "## Struct Types\n"@.len() as int) =~= "## Struct Types\n"@);
    }
    lemma_titles_long(m);
    lemma_unique_1(m);
    lemma_title_iff(module_text(m), ts, "## Struct Types\n"@, m.struct_metas@.len() > 0, h, s1, s2 + s3 + s4 + s5 + s6 + s7 + fx + body);
}

/// The title line of the section of `m.named_type_metas` is in the text exactly
/// when that table has entries.
#[verifier::spinoff_prover]
#[verifier::rlimit(100)]
proof fn lemma_title_2(m: Module)
    requires
        one_line_names(m),
    ensures
        (exists|i: int| line_start(module_text(m), i) && holds_at(module_text(m), i, "## Named Types\n"@))
            <==> m.named_type_metas@.len() > 0,
{
    lemma_headings(m);
    reveal_strlit("## Struct Types\n");
    reveal_strlit("## Named Types\n");
    reveal_strlit("## Interface Types\n");
    reveal_strlit("## Itabs\n");
    reveal_strlit("## Constants\n");
    reveal_strlit("## Globals\n");
    reveal_strlit("## Externs\n");
    reveal_strlit("## Functions\n");
    let ts = shown_titles(m);
    let h = module_header(m);
    let s1 = section(m.struct_metas@.len() > 0, "## Struct Types\n"@, struct_entries(m.struct_metas@, m.struct_metas@.len()));
    let s2 = section(m.named_type_metas@.len() > 0, "## Named Types\n"@, named_entries(m.named_type_metas@, m.named_type_metas@.len()));
    let s3 = section(m.interface_metas@.len() > 0, "## Interface Types\n"@, interface_entries(m.interface_metas@, m.interface_metas@.len()));
    let s4 = section(m.itabs@.len() > 0, "## Itabs\n"@, itab_entries(m.itabs@, m.itabs@.len()));
    let s5 = section(m.constants@.len() > 0, "## Constants\n"@, constant_entries(m.constants@, m.constants@.len()));
    let s6 = section(m.globals@.len() > 0, "## Globals\n"@, global_entries(m.globals@, m.globals@.len()));
    let s7 = section(m.externs@.len() > 0, "## Externs\n"@, extern_entries(m.externs@, m.externs@.len()));
    let fx = "## Functions\n\n"@;
    let body = function_entries(m.functions@, m.functions@.len());
    lemma_text_cut_2(m);
    lemma_prefix_1(m);
    lemma_prefix_0(m);
    assert((h + s1).len() > 0);
    if m.named_type_metas@.len() > 0 {
        assert(s2.subrange(0, "## Named Types\n"@.len() as int) =~= "## Named Types\n"@);
    }
    lemma_titles_long(m);
    lemma_unique_2(m);
    lemma_title_iff(module_text(m), ts, "## Named Types\n"@, m.named_type_metas@.len() > 0, h + s1, s2, s3 + s4 + s5 + s6 + s7 + fx + body);
}

/// The title line of the section of `m.interface_metas` is in the text exactly
/// when that table has entries.
#[verifier::spinoff_prover]
#[verifier::rlimit(100)]
proof fn lemma_title_3(m: Module)
    requires
        one_line_names(m),
    ensures
        (exists|i: int| line_start(module_text(m), i) && holds_at(module_text(m), i, "## Interface Types\n"@))
            <==> m.interface_metas@.len() > 0,
{
    lemma_headings(m);
    reveal_strlit("## Struct Types\n");
    reveal_strlit("## Named Types\n");
    reveal_strlit("## Interface Types\n");
    reveal_strlit("## Itabs\n");
    reveal_strlit("## Constants\n");
    reveal_strlit("## Globals\n");
    reveal_strlit("## Externs\n");
    reveal_strlit("## Functions\n");
    let ts = shown_titles(m);
    let h = module_header(m);
    let s1 = section(m.struct_metas@.len() > 0, "## Struct Types\n"@, struct_entries(m.struct_metas@, m.struct_metas@.len()));
    let s2 = section(m.named_type_metas@.len() > 0, "## Named Types\n"@, named_entries(m.named_type_metas@, m.named_type_metas@.len()));
    let s3 = section(m.interface_metas@.len() > 0, "## Interface Types\n"@, interface_entries(m.interface_metas@, m.interface_metas@.len()));
    let s4 = section(m.itabs@.len() > 0, "## Itabs\n"@, itab_entries(m.itabs@, m.itabs@.len()));
    let s5 = section(m.constants@.len() > 0, "## Constants\n"@, constant_entries(m.constants@, m.constants@.len()));
    let s6 = section(m.globals@.len() > 0, "## Globals\n"@, global_entries(m.globals@, m.globals@.len()));
    let s7 = section(m.externs@.len() > 0, "## Externs\n"@, extern_entries(m.externs@, m.externs@.len()));
    let fx = "## Functions\n\n"@;
    let body = function_entries(m.functions@, m.functions@.len());
    lemma_text_cut_3(m);
    lemma_prefix_2(m);
    lemma_prefix_0(m);
    assert((h + s1 + s2).len() > 0);
    if m.interface_metas@.len() > 0 {
        assert(s3.subrange(0, "## Interface Types\n"@.len() as int) =~= "## Interface Types\n"@);
    }
    lemma_titles_long(m);
    lemma_unique_3(m);
    lemma_title_iff(module_text(m), ts, "## Interface Types\n"@, m.interface_metas@.len() > 0, h + s1 + s2, s3, s4 + s5 + s6 + s7 + fx + body);
}

/// The title line of the section of `m.itabs` is in the text exactly
/// when that table has entries.
#[verifier::spinoff_prover]
#[verifier::rlimit(100)]
proof fn lemma_title_4(m: Module)
    requires
        one_line_names(m),
    ensures
        (exists|i: int| line_start(module_text(m), i) && holds_at(module_text(m), i, "## Itabs\n"@))
            <==> m.itabs@.len() > 0,
{
    lemma_headings(m);
    reveal_strlit("## Struct Types\n");
    reveal_strlit("## Named Types\n");
    reveal_strlit("## Interface Types\n");
    reveal_strlit("## Itabs\n");
    reveal_strlit("## Constants\n");
    reveal_strlit("## Globals\n");
    reveal_strlit("## Externs\n");
    reveal_strlit("## Functions\n");
    let ts = shown_titles(m);
    let h = module_header(m);
    let s1 = section(m.struct_metas@.len() > 0, "## Struct Types\n"@, struct_entries(m.struct_metas@, m.struct_metas@.len()));
    let s2 = section(m.named_type_metas@.len() > 0, "## Named Types\n"@, named_entries(m.named_type_metas@, m.named_type_metas@.len()));
    let s3 = section(m.interface_metas@.len() > 0, "## Interface Types\n"@, interface_entries(m.interface_metas@, m.interface_metas@.len()));
    let s4 = section(m.itabs@.len() > 0, "## Itabs\n"@, itab_entries(m.itabs@, m.itabs@.len()));
    let s5 = section(m.constants@.len() > 0, "## Constants\n"@, constant_entries(m.constants@, m.constants@.len()));
    let s6 = section(m.globals@.len() > 0, "## Globals\n"@, global_entries(m.globals@, m.globals@.len()));
    let s7 = section(m.externs@.len() > 0, "## Externs\n"@, extern_entries(m.externs@, m.externs@.len()));
    let fx = "## Functions\n\n"@;
    let body = function_entries(m.functions@, m.functions@.len());
    lemma_text_cut_4(m);
    lemma_prefix_3(m);
    lemma_prefix_0(m);
    assert((h + s1 + s2 + s3).len() > 0);
    if m.itabs@.len() > 0 {
        assert(s4.subrange(0, "## Itabs\n"@.len() as int) =~= "## Itabs\n"@);
    }
    lemma_titles_long(m);
    lemma_unique_4(m);
    lemma_title_iff(module_text(m), ts, "## Itabs\n"@, m.itabs@.len() > 0, h + s1 + s2 + s3, s4, s5 + s6 + s7 + fx + body);
}

/// The title line of the section of `m.constants` is in the text exactly
/// when that table has entries.
#[verifier::spinoff_prover]
#[verifier::rlimit(100)]
proof fn lemma_title_5(m: Module)
    requires
        one_line_names(m),
    ensures
        (exists|i: int| line_start(module_text(m), i) && holds_at(module_text(m), i, "## Constants\n"@))
            <==> m.constants@.len() > 0,
{
    lemma_headings(m);
    reveal_strlit("## Struct Types\n");
    reveal_strlit("## Named Types\n");
    reveal_strlit("## Interface Types\n");
    reveal_strlit("## Itabs\n");
    reveal_strlit("## Constants\n");
    reveal_strlit("## Globals\n");
    reveal_strlit("## Externs\n");
    reveal_strlit("## Functions\n");
    let ts = shown_titles(m);
    let h = module_header(m);
    let s1 = section(m.struct_metas@.len() > 0, "## Struct Types\n"@, struct_entries(m.struct_metas@, m.struct_metas@.len()));
    let s2 = section(m.named_type_metas@.len() > 0, "## Named Types\n"@, named_entries(m.named_type_metas@, m.named_type_metas@.len()));
    let s3 = section(m.interface_metas@.len() > 0, "## Interface Types\n"@, interface_entries(m.interface_metas@, m.interface_metas@.len()));
    let s4 = section(m.itabs@.len() > 0, "## Itabs\n"@, itab_entries(m.itabs@, m.itabs@.len()));
    let s5 = section(m.constants@.len() > 0, "## Constants\n"@, constant_entries(m.constants@, m.constants@.len()));
    let s6 = section(m.globals@.len() > 0, "## Globals\n"@, global_entries(m.globals@, m.globals@.len()));
    let s7 = section(m.externs@.len() > 0, "## Externs\n"@, extern_entries(m.externs@, m.externs@.len()));
    let fx = "## Functions\n\n"@;
    let body = function_entries(m.functions@, m.functions@.len());
    lemma_text_cut_5(m);
    lemma_prefix_4(m);
    lemma_prefix_0(m);
    assert((h + s1 + s2 + s3 + s4).len() > 0);
    if m.constants@.len() > 0 {
        assert(s5.subrange(0, "## Constants\n"@.len() as int) =~= "## Constants\n"@);
    }
    lemma_titles_long(m);
    lemma_unique_5(m);
    lemma_title_iff(module_text(m), ts, "## Constants\n"@, m.constants@.len() > 0, h + s1 + s2 + s3 + s4, s5, s6 + s7 + fx + body);
}

/// The title line of the section of `m.globals` is in the text exactly
/// when that table has entries.
#[verifier::spinoff_prover]
#[verifier::rlimit(100)]
proof fn lemma_title_6(m: Module)
    requires
        one_line_names(m),
    ensures
        (exists|i: int| line_start(module_text(m), i) && holds_at(module_text(m), i, "## Globals\n"@))
            <==> m.globals@.len() > 0,
{
    lemma_headings(m);
    reveal_strlit("## Struct Types\n");
    reveal_strlit("## Named Types\n");
    reveal_strlit("## Interface Types\n");
    reveal_strlit("## Itabs\n");
    reveal_strlit("## Constants\n");
    reveal_strlit("## Globals\n");
    reveal_strlit("## Externs\n");
    reveal_strlit("## Functions\n");
    let ts = shown_titles(m);
    let h = module_header(m);
    let s1 = section(m.struct_metas@.len() > 0, "## Struct Types\n"@, struct_entries(m.struct_metas@, m.struct_metas@.len()));
    let s2 = section(m.named_type_metas@.len() > 0, "## Named Types\n"@, named_entries(m.named_type_metas@, m.named_type_metas@.len()));
    let s3 = section(m.interface_metas@.len() > 0, "## Interface Types\n"@, interface_entries(m.interface_metas@, m.interface_metas@.len()));
    let s4 = section(m.itabs@.len() > 0, "## Itabs\n"@, itab_entries(m.itabs@, m.itabs@.len()));
    let s5 = section(m.constants@.len() > 0, "## Constants\n"@, constant_entries(m.constants@, m.constants@.len()));
    let s6 = section(m.globals@.len() > 0, "## Globals\n"@, global_entries(m.globals@, m.globals@.len()));
    let s7 = section(m.externs@.len() > 0, "## Externs\n"@, extern_entries(m.externs@, m.externs@.len()));
    let fx = "## Functions\n\n"@;
    let body = function_entries(m.functions@, m.functions@.len());
    lemma_text_cut_6(m);
    lemma_prefix_5(m);
    lemma_prefix_0(m);
    assert((h + s1 + s2 + s3 + s4 + s5).len() > 0);
    if m.globals@.len() > 0 {
        assert(s6.subrange(0, "## Globals\n"@.len() as int) =~= "## Globals\n"@);
    }
    lemma_titles_long(m);
    lemma_unique_6(m);
    lemma_title_iff(module_text(m), ts, "## Globals\n"@, m.globals@.len() > 0, h + s1 + s2 + s3 + s4 + s5, s6, s7 + fx + body);
}

/// The title line of the section of `m.externs` is in the text exactly
/// when that table has entries.
#[verifier::spinoff_prover]
#[verifier::rlimit(100)]
proof fn lemma_title_7(m: Module)
    requires
        one_line_names(m),
    ensures
        (exists|i: int| line_start(module_text(m), i) && holds_at(module_text(m), i, "## Externs\n"@))
            <==> m.externs@.len() > 0,
{
    lemma_headings(m);
    reveal_strlit("## Struct Types\n");
    reveal_strlit("## Named Types\n");
    reveal_strlit("## Interface Types\n");
    reveal_strlit("## Itabs\n");
    reveal_strlit("## Constants\n");
    reveal_strlit("## Globals\n");
    reveal_strlit("## Externs\n");
    reveal_strlit("## Functions\n");
    let ts = shown_titles(m);
    let h = module_header(m);
    let s1 = section(m.struct_metas@.len() > 0, "## Struct Types\n"@, struct_entries(m.struct_metas@, m.struct_metas@.len()));
    let s2 = section(m.named_type_metas@.len() > 0, "## Named Types\n"@, named_entries(m.named_type_metas@, m.named_type_metas@.len()));
    let s3 = section(m.interface_metas@.len() > 0, "## Interface Types\n"@, interface_entries(m.interface_metas@, m.interface_metas@.len()));
    let s4 = section(m.itabs@.len() > 0, "## Itabs\n"@, itab_entries(m.itabs@, m.itabs@.len()));
    let s5 = section(m.constants@.len() > 0, "## Constants\n"@, constant_entries(m.constants@, m.constants@.len()));
    let s6 = section(m.globals@.len() > 0, "## Globals\n"@, global_entries(m.globals@, m.globals@.len()));
    let s7 = section(m.externs@.len() > 0, "## Externs\n"@, extern_entries(m.externs@, m.externs@.len()));
    let fx = "## Functions\n\n"@;
    let body = function_entries(m.functions@, m.functions@.len());
    lemma_text_cut_7(m);
    lemma_prefix_6(m);
    lemma_prefix_0(m);
    assert((h + s1 + s2 + s3 + s4 + s5 + s6).len() > 0);
    if m.externs@.len() > 0 {
        assert(s7.subrange(0, "## Externs\n"@.len() as int) =~= "## Externs\n"@);
    }
    lemma_titles_long(m);
    lemma_unique_7(m);
    lemma_title_iff(module_text(m), ts, "## Externs\n"@, m.externs@.len() > 0, h + s1 + s2 + s3 + s4 + s5 + s6, s7, fx + body);
}

/// The title line of each table's section is in the text of a module
/// exactly when that table has entries, and the functions section's title
/// line always is.
#[verifier::spinoff_prover]
#[verifier::rlimit(100)]
pub proof fn law_section_titles(m: Module)
    requires
        one_line_names(m),
    ensures
        (exists|i: int| line_start(module_text(m), i) && holds_at(module_text(m), i, "## Struct Types\n"@))
            <==> m.struct_metas@.len() > 0,
        (exists|i: int| line_start(module_text(m), i) && holds_at(module_text(m), i, "## Named Types\n"@))
            <==> m.named_type_metas@.len() > 0,
        (exists|i: int| line_start(module_text(m), i) && holds_at(module_text(m), i, "## Interface Types\n"@))
            <==> m.interface_metas@.len() > 0,
        (exists|i: int| line_start(module_text(m), i) && holds_at(module_text(m), i, "## Itabs\n"@))
            <==> m.itabs@.len() > 0,
        (exists|i: int| line_start(module_text(m), i) && holds_at(module_text(m), i, "## Constants\n"@))
            <==> m.constants@.len() > 0,
        (exists|i: int| line_start(module_text(m), i) && holds_at(module_text(m), i, "## Globals\n"@))
            <==> m.globals@.len() > 0,
        (exists|i: int| line_start(module_text(m), i) && holds_at(module_text(m), i, "## Externs\n"@))
            <==> m.externs@.len() > 0,
        exists|i: int| line_start(module_text(m), i) && holds_at(module_text(m), i, "## Functions\n"@),
{
    lemma_title_1(m);
    lemma_title_2(m);
    lemma_title_3(m);
    lemma_title_4(m);
    lemma_title_5(m);
    lemma_title_6(m);
    lemma_title_7(m);
    reveal_strlit("## Functions\n\n");
    reveal_strlit("## Functions\n");
    let h = module_header(m);
    let s1 = section(m.struct_metas@.len() > 0, "## Struct Types\n"@, struct_entries(m.struct_metas@, m.struct_metas@.len()));
    let s2 = section(m.named_type_metas@.len() > 0, "## Named Types\n"@, named_entries(m.named_type_metas@, m.named_type_metas@.len()));
    let s3 = section(m.interface_metas@.len() > 0, "## Interface Types\n"@, interface_entries(m.interface_metas@, m.interface_metas@.len()));
    let s4 = section(m.itabs@.len() > 0, "## Itabs\n"@, itab_entries(m.itabs@, m.itabs@.len()));
    let s5 = section(m.constants@.len() > 0, "## Constants\n"@, constant_entries(m.constants@, m.constants@.len()));
    let s6 = section(m.globals@.len() > 0, "## Globals\n"@, global_entries(m.globals@, m.globals@.len()));
    let s7 = section(m.externs@.len() > 0, "## Externs\n"@, extern_entries(m.externs@, m.externs@.len()));
    let fx = "## Functions\n\n"@;
    let body = function_entries(m.functions@, m.functions@.len());
    lemma_text_cut_8(m);
    lemma_prefix_7(m);
    lemma_prefix_0(m);
    assert((h + s1 + s2 + s3 + s4 + s5 + s6 + s7).len() > 0);
    assert(fx.subrange(0, 13) =~= "## Functions\n"@);
    lemma_title_at(h + s1 + s2 + s3 + s4 + s5 + s6 + s7, fx, body, "## Functions\n"@);
}

} // verus!
