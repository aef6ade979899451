//! How `list_notes` renders the entries of a directory walk.

use vstd::prelude::*;
use crate::text::{join_seqs, join_strings, to_chars, views};

verus! {

/// One entry of a directory walk, below the listed directory.
#[derive(Clone, Debug, PartialEq, Eq)]
pub struct DirEntryInfo {
    /// The entry's own file name.
    pub name: String,
    /// The entry's path relative to the listed directory.
    pub rel_path: String,
    /// 1 for a direct child, 2 for a grandchild, and so on.
    pub depth: usize,
    pub is_dir: bool,
}

/// `a` comes no later than `b` in character order.
pub open spec fn lex_le(a: Seq<char>, b: Seq<char>) -> bool
    decreases a.len(),
{
    if a.len() == 0 {
        true
    } else if b.len() == 0 {
        false
    } else if (a[0] as u32) != (b[0] as u32) {
        (a[0] as u32) < (b[0] as u32)
    } else {
        lex_le(a.drop_first(), b.drop_first())
    }
}

/// Of two texts, one comes no later than the other.
pub proof fn lemma_lex_total(a: Seq<char>, b: Seq<char>)
    ensures
        lex_le(a, b) || lex_le(b, a),
    decreases a.len(),
{
    if a.len() > 0 && b.len() > 0 && (a[0] as u32) == (b[0] as u32) {
        lemma_lex_total(a.drop_first(), b.drop_first());
    }
}

/// Character order is transitive.
pub proof fn lemma_lex_trans(a: Seq<char>, b: Seq<char>, c: Seq<char>)
    requires
        lex_le(a, b),
        lex_le(b, c),
    ensures
        lex_le(a, c),
    decreases a.len(),
{
    if a.len() > 0 && b.len() > 0 && c.len() > 0 && (a[0] as u32) == (b[0] as u32) && (b[0]
        as u32) == (c[0] as u32) {
        lemma_lex_trans(a.drop_first(), b.drop_first(), c.drop_first());
    }
}

/// Whether `a` comes no later than `b` in character order.
pub fn lex_le_exec(a: &str, b: &str) -> (r: bool)
    ensures
        r == lex_le(a@, b@),
{
    let x = to_chars(a);
    let y = to_chars(b);
    let mut k: usize = 0;
    assert(a@.subrange(0, a@.len() as int) =~= a@);
    assert(b@.subrange(0, b@.len() as int) =~= b@);
    while k < x.len() && k < y.len() && (x[k] as u32) == (y[k] as u32)
        invariant
            x@ == a@,
            y@ == b@,
            k <= x@.len(),
            k <= y@.len(),
            lex_le(a@, b@) == lex_le(a@.subrange(k as int, a@.len() as int), b@.subrange(k as int, b@.len() as int)),
        decreases x@.len() - k,
    {
        assert(a@.subrange(k as int, a@.len() as int).drop_first() =~= a@.subrange(k + 1, a@.len() as int));
        assert(b@.subrange(k as int, b@.len() as int).drop_first() =~= b@.subrange(k + 1, b@.len() as int));
        k = k + 1;
    }
    let ghost sa = a@.subrange(k as int, a@.len() as int);
    let ghost sb = b@.subrange(k as int, b@.len() as int);
    if k == x.len() {
        assert(sa.len() == 0);
        true
    } else if k == y.len() {
        assert(sb.len() == 0 && sa.len() > 0);
        false
    } else {
        assert(sa[0] == x@[k as int] && sb[0] == y@[k as int]);
        (x[k] as u32) < (y[k] as u32)
    }
}

/// An entry whose name starts with a dot is hidden.
pub open spec fn is_hidden(e: DirEntryInfo) -> bool {
    e.name@.len() > 0 && e.name@[0] == '.'
}

/// The positions of the visible entries among the first `n`, in walk order.
pub open spec fn visible_indices(es: Seq<DirEntryInfo>, n: int) -> Seq<usize>
    decreases n,
{
    if n <= 0 {
        seq![]
    } else if is_hidden(es[n - 1]) {
        visible_indices(es, n - 1)
    } else {
        visible_indices(es, n - 1).push((n - 1) as usize)
    }
}

/// The marker in front of a folder or a file.
pub open spec fn marker(is_dir: bool) -> Seq<char> {
    if is_dir {
        "📁 "@
    } else {
        "📄 "@
    }
}

/// Two spaces of indentation per level below the first.
pub open spec fn indent(depth: usize) -> Seq<char> {
    Seq::new(if depth >= 1 { 2 * (depth - 1) } else { 0 } as nat, |i: int| ' ')
}

/// How a recursive listing shows an entry.
pub open spec fn tree_line(e: DirEntryInfo) -> Seq<char> {
    indent(e.depth) + marker(e.is_dir) + e.rel_path@
}

/// How a flat listing shows an entry.
pub open spec fn flat_line(e: DirEntryInfo) -> Seq<char> {
    marker(e.is_dir) + e.name@
}

/// The listing of the given lines; a placeholder for an empty directory.
pub open spec fn listing_text(lines: Seq<Seq<char>>) -> Seq<char> {
    if lines.len() == 0 {
        "(empty directory)"@
    } else {
        join_seqs(lines, "\n"@)
    }
}

/// The entries at `order` come in order of their names.
pub open spec fn sorted_by_name(es: Seq<DirEntryInfo>, order: Seq<usize>) -> bool {
    forall|p: int, q: int|
        0 <= p < q < order.len() ==> lex_le(
            #[trigger] es[order[p] as int].name@,
            #[trigger] es[order[q] as int].name@,
        )
}

/// The positions of the visible entries, ordered by name.
pub fn sort_by_name(es: &Vec<DirEntryInfo>, vis: &Vec<usize>) -> (r: Vec<usize>)
    requires
        forall|i: int| 0 <= i < vis@.len() ==> (#[trigger] vis@[i]) < es@.len(),
    ensures
        r@.to_multiset() == vis@.to_multiset(),
        sorted_by_name(es@, r@),
        forall|i: int| 0 <= i < r@.len() ==> (#[trigger] r@[i]) < es@.len(),
{
    let mut sorted: Vec<usize> = Vec::new();
    let mut i: usize = 0;
    assert(sorted@ =~= vis@.subrange(0, 0));
    while i < vis.len()
        invariant
            i <= vis@.len(),
            forall|k: int| 0 <= k < vis@.len() ==> (#[trigger] vis@[k]) < es@.len(),
            forall|k: int| 0 <= k < sorted@.len() ==> (#[trigger] sorted@[k]) < es@.len(),
            sorted@.to_multiset() == vis@.subrange(0, i as int).to_multiset(),
            sorted_by_name(es@, sorted@),
        decreases vis@.len() - i,
    {
        let v = vis[i];
        let mut j: usize = 0;
        while j < sorted.len() && lex_le_exec(es[sorted[j]].name.as_str(), es[v].name.as_str())
            invariant
                j <= sorted@.len(),
                v < es@.len(),
                forall|k: int| 0 <= k < sorted@.len() ==> (#[trigger] sorted@[k]) < es@.len(),
                forall|p: int| 0 <= p < j ==> lex_le(es@[sorted@[p] as int].name@, es@[v as int].name@),
            decreases sorted@.len() - j,
        {
            j = j + 1;
        }
        let ghost old_s = sorted@;
        proof {
            if j < old_s.len() {
                lemma_lex_total(es@[v as int].name@, es@[old_s[j as int] as int].name@);
            }
        }
        sorted.insert(j, v);
        proof {
            let s = sorted@;
            assert(s == old_s.insert(j as int, v));
            assert forall|p: int, q: int| 0 <= p < q < s.len() implies lex_le(
                #[trigger] es@[s[p] as int].name@,
                #[trigger] es@[s[q] as int].name@,
            ) by {
                if q < j {
                    assert(s[p] == old_s[p] && s[q] == old_s[q]);
                } else if q == j {
                    assert(s[p] == old_s[p]);
                } else if p == j {
                    assert(s[q] == old_s[q - 1]);
                    if q - 1 > j {
                        assert(lex_le(es@[old_s[j as int] as int].name@, es@[old_s[q - 1] as int].name@));
                        lemma_lex_trans(es@[v as int].name@, es@[old_s[j as int] as int].name@, es@[old_s[q - 1] as int].name@);
                    }
                } else if p < j {
                    assert(s[p] == old_s[p] && s[q] == old_s[q - 1]);
                } else {
                    assert(s[p] == old_s[p - 1] && s[q] == old_s[q - 1]);
                }
            }
            assert(vis@.subrange(0, i + 1) =~= vis@.subrange(0, i as int).push(v));
            vstd::seq_lib::to_multiset_insert(old_s, j as int, v);
            vstd::seq_lib::to_multiset_build(vis@.subrange(0, i as int), v);
            assert(vis@.subrange(0, i as int).push(v).to_multiset() == vis@.subrange(0, i as int).to_multiset().insert(v));
        }
        i = i + 1;
    }
    assert(vis@.subrange(0, vis@.len() as int) =~= vis@);
    sorted
}

/// The positions of the entries that are not hidden, in walk order.
pub fn visible_entries(es: &Vec<DirEntryInfo>) -> (r: Vec<usize>)
    ensures
        r@ == visible_indices(es@, es@.len() as int),
        forall|i: int| 0 <= i < r@.len() ==> (#[trigger] r@[i]) < es@.len(),
{
    let mut r: Vec<usize> = Vec::new();
    let mut i: usize = 0;
    while i < es.len()
        invariant
            i <= es@.len(),
            r@ == visible_indices(es@, i as int),
            forall|k: int| 0 <= k < r@.len() ==> (#[trigger] r@[k]) < i,
        decreases es@.len() - i,
    {
        let name = es[i].name.as_str();
        let hidden = name.unicode_len() > 0 && name.get_char(0) == '.';
        if !hidden {
            r.push(i);
        }
        i = i + 1;
    }
    r
}

fn marker_text(is_dir: bool) -> (r: &'static str)
    ensures
        r@ == marker(is_dir),
{
    if is_dir {
        "📁 "
    } else {
        "📄 "
    }
}

fn indent_text(depth: usize) -> (r: String)
    ensures
        r@ == indent(depth),
{
    let n: usize = if depth >= 1 { depth - 1 } else { 0 };
    let mut r = String::new();
    let mut k: usize = 0;
    while k < n
        invariant
            k <= n,
            n == (if depth >= 1 { depth - 1 } else { 0 }),
            r@ == Seq::new(2 * k as nat, |i: int| ' '),
        decreases n - k,
    {
        r.append("  ");
        proof {
            reveal_strlit("  ");
        }
        assert(r@ =~= Seq::new(2 * (k + 1) as nat, |i: int| ' '));
        k = k + 1;
    }
    r
}

/// The text of a directory listing. A flat listing shows each visible entry's marker and
/// name, ordered by name; a recursive one keeps the walk's order and shows each visible
/// entry indented by depth, with its marker and relative path. Hidden entries are left out.
pub fn format_listing(entries: &Vec<DirEntryInfo>, recursive: bool) -> (r: String)
    ensures
        recursive ==> r@ == listing_text(
            visible_indices(entries@, entries@.len() as int).map_values(
                |i: usize| tree_line(entries@[i as int]),
            ),
        ),
        !recursive ==> exists|order: Seq<usize>|
            {
                &&& order.to_multiset() == visible_indices(
                    entries@,
                    entries@.len() as int,
                ).to_multiset()
                &&& sorted_by_name(entries@, order)
                &&& r@ == listing_text(order.map_values(|i: usize| flat_line(entries@[i as int])))
            },
{
    let vis = visible_entries(entries);
    let order = if recursive {
        vis
    } else {
        sort_by_name(entries, &vis)
    };
    let mut lines: Vec<String> = Vec::new();
    let mut k: usize = 0;
    while k < order.len()
        invariant
            k <= order@.len(),
            forall|i: int| 0 <= i < order@.len() ==> (#[trigger] order@[i]) < entries@.len(),
            lines@.len() == k,
            forall|j: int|
                0 <= j < k ==> (#[trigger] lines@[j])@ == (if recursive {
                    tree_line(entries@[order@[j] as int])
                } else {
                    flat_line(entries@[order@[j] as int])
                }),
        decreases order@.len() - k,
    {
        let e = &entries[order[k]];
        let line = if recursive {
            indent_text(e.depth).concat(marker_text(e.is_dir)).concat(e.rel_path.as_str())
        } else {
            String::from_str(marker_text(e.is_dir)).concat(e.name.as_str())
        };
        lines.push(line);
        k = k + 1;
    }
    proof {
        if recursive {
            assert(views(lines@) =~= order@.map_values(|i: usize| tree_line(entries@[i as int])));
        } else {
            assert(views(lines@) =~= order@.map_values(|i: usize| flat_line(entries@[i as int])));
        }
    }
    if lines.len() == 0 {
        String::from_str("(empty directory)")
    } else {
        join_strings(&lines, "\n")
    }
}

} // verus!
