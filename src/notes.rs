//! What the file tools compute from note contents: numbered listings, exact-match edits,
//! and the replies of the tools that change files.

use vstd::prelude::*;
use crate::text::{
    contains_seq, decimal, decimal_of, find_from, find_spec, join_seqs, join_strings,
    lemma_contains_find, lemma_find_spec, slice_string, to_chars, views,
};

verus! {

/// The pieces of `s` from `start` on, cut at each newline (the newline itself dropped).
pub open spec fn pieces_from(s: Seq<char>, start: int) -> Seq<Seq<char>>
    decreases s.len() + 1 - start,
{
    if start < 0 || start > s.len() {
        seq![]
    } else {
        match find_spec(s, seq!['\n'], start) {
            Some(i) => if start <= i < s.len() {
                seq![s.subrange(start, i)] + pieces_from(s, i + 1)
            } else {
                seq![]
            },
            None => seq![s.subrange(start, s.len() as int)],
        }
    }
}

/// A line that ended with a newline, without a carriage return before it.
pub open spec fn strip_cr(l: Seq<char>) -> Seq<char> {
    if l.len() > 0 && l.last() == '\r' {
        l.drop_last()
    } else {
        l
    }
}

/// The lines of `s` as `str::lines` yields them: cut at newlines, a carriage return before
/// a newline dropped, and no empty line after a final newline.
pub open spec fn lines_of(s: Seq<char>) -> Seq<Seq<char>> {
    let p = pieces_from(s, 0);
    if s.len() == 0 {
        seq![]
    } else if s.last() == '\n' {
        p.drop_last().map_values(|l: Seq<char>| strip_cr(l))
    } else {
        p.drop_last().map_values(|l: Seq<char>| strip_cr(l)).push(p.last())
    }
}

fn strip_cr_string(s: &str) -> (r: String)
    ensures
        r@ == strip_cr(s@),
{
    let n = s.unicode_len();
    if n > 0 && s.get_char(n - 1) == '\r' {
        slice_string(s, 0, n - 1)
    } else {
        String::from_str(s)
    }
}

proof fn lemma_pieces_nonempty(s: Seq<char>, start: int)
    requires
        0 <= start <= s.len(),
    ensures
        pieces_from(s, start).len() > 0,
        find_spec(s, seq!['\n'], start) is None ==> pieces_from(s, start).last() == s.subrange(start, s.len() as int),
    decreases s.len() + 1 - start,
{
    lemma_find_spec(s, seq!['\n'], start);
    if let Some(i) = find_spec(s, seq!['\n'], start) {
        lemma_pieces_nonempty(s, i + 1);
    }
}

/// The lines of `s`, as `str::lines` yields them.
pub fn split_lines(s: &str) -> (r: Vec<String>)
    ensures
        views(r@) == lines_of(s@),
{
    let chars = to_chars(s);
    let n = chars.len();
    let mut nl: Vec<char> = Vec::new();
    nl.push('\n');
    assert(nl@ =~= seq!['\n']);
    let mut out: Vec<String> = Vec::new();
    let ghost mut done: Seq<Seq<char>> = seq![];
    let mut start: usize = 0;
    loop
        invariant
            chars@ == s@,
            n == s@.len(),
            nl@ == seq!['\n'],
            start <= n,
            done + pieces_from(s@, start as int) == pieces_from(s@, 0),
            views(out@) == done.map_values(|l: Seq<char>| strip_cr(l)),
            start > 0 ==> s@[start - 1] == '\n',
        decreases n + 1 - start,
    {
        proof {
            lemma_find_spec(s@, seq!['\n'], start as int);
        }
        match find_from(&chars, &nl, start) {
            Some(i) => {
                let piece = slice_string(s, start, i);
                let line = strip_cr_string(piece.as_str());
                proof {
                    assert(s@.subrange(i as int, i + 1) == seq!['\n']);
                    assert(s@.subrange(i as int, i + 1)[0] == s@[i as int]);
                    assert(s@[i as int] == '\n');
                    assert(pieces_from(s@, start as int) == seq![piece@] + pieces_from(
                        s@,
                        i + 1,
                    ));
                    assert(done.push(piece@) + pieces_from(s@, i + 1) =~= done + pieces_from(
                        s@,
                        start as int,
                    ));
                }
                let ghost old_out = out@;
                let ghost line_v = line@;
                out.push(line);
                proof {
                    let nd = done.push(piece@);
                    assert(views(out@) =~= views(old_out).push(line_v));
                    assert(nd.map_values(|l: Seq<char>| strip_cr(l)) =~= done.map_values(
                        |l: Seq<char>| strip_cr(l),
                    ).push(strip_cr(piece@)));
                    assert(views(out@) =~= nd.map_values(|l: Seq<char>| strip_cr(l)));
                    done = nd;
                }
                start = i + 1;
            },
            None => {
                proof {
                    lemma_pieces_nonempty(s@, 0);
                    let p = pieces_from(s@, 0);
                    assert(pieces_from(s@, start as int) == seq![s@.subrange(
                        start as int,
                        n as int,
                    )]);
                    assert(p.drop_last() =~= done);
                    assert(p.last() == s@.subrange(start as int, n as int));
                }
                if start < n {
                    let last = slice_string(s, start, n);
                    proof {
                        assert(s@.last() == s@[n - 1]);
                        if s@.last() == '\n' {
                            assert(find_spec(s@, seq!['\n'], start as int) is None);
                            occurs_at_nl(s@, n - 1);
                        }
                    }
                    out.push(last);
                    assert(views(out@) =~= lines_of(s@));
                } else {
                    proof {
                        if n > 0 {
                            assert(s@.last() == '\n');
                        }
                    }
                    assert(views(out@) =~= lines_of(s@));
                }
                return out;
            },
        }
    }
}

proof fn occurs_at_nl(s: Seq<char>, i: int)
    requires
        0 <= i < s.len(),
        s[i] == '\n',
    ensures
        crate::text::occurs_at(s, seq!['\n'], i),
{
    assert(s.subrange(i, i + 1) =~= seq!['\n']);
}

/// `d` right-aligned in a field four characters wide.
pub open spec fn pad4(d: Seq<char>) -> Seq<char> {
    if d.len() >= 4 {
        d
    } else {
        Seq::new((4 - d.len()) as nat, |i: int| ' ') + d
    }
}

/// A line as `read_note` shows it: its 1-based number, right-aligned, then the text.
pub open spec fn numbered_line(i: int, l: Seq<char>) -> Seq<char> {
    pad4(decimal_of((i + 1) as nat)) + " | "@ + l
}

/// The content of a note with every line numbered.
pub open spec fn numbered_text(content: Seq<char>) -> Seq<char> {
    let ls = lines_of(content);
    join_seqs(Seq::new(ls.len(), |i: int| numbered_line(i, ls[i])), "\n"@)
}

fn pad_number(n: usize) -> (r: String)
    ensures
        r@ == pad4(decimal_of(n as nat)),
{
    let d = decimal(n);
    let len = d.as_str().unicode_len();
    let mut r = String::new();
    let mut k: usize = len;
    while k < 4
        invariant
            len == d@.len(),
            len <= k <= 4 || (len > 4 && k == len),
            r@ == Seq::new((k - len) as nat, |i: int| ' '),
        decreases 4 - k,
    {
        r.append(" ");
        proof {
            reveal_strlit(" ");
        }
        assert(r@ =~= Seq::new((k + 1 - len) as nat, |i: int| ' '));
        k = k + 1;
    }
    let out = r.concat(d.as_str());
    assert(out@ =~= pad4(decimal_of(n as nat)));
    out
}

/// The content of a note with every line numbered, as `read_note` shows it.
pub fn number_lines(content: &str) -> (r: String)
    ensures
        r@ == numbered_text(content@),
{
    let lines = split_lines(content);
    let ghost ls = lines_of(content@);
    let mut out: Vec<String> = Vec::new();
    let mut i: usize = 0;
    while i < lines.len()
        invariant
            views(lines@) == ls,
            i <= lines@.len(),
            out@.len() == i,
            forall|j: int| 0 <= j < i ==> (#[trigger] out@[j])@ == numbered_line(j, ls[j]),
        decreases lines@.len() - i,
    {
        assert(lines@[i as int]@ == ls[i as int]);
        let line = pad_number(i + 1).concat(" | ").concat(lines[i].as_str());
        out.push(line);
        i = i + 1;
    }
    assert(views(out@) =~= Seq::new(ls.len(), |i: int| numbered_line(i, ls[i])));
    join_strings(&out, "\n")
}

/// The error of an edit whose text to replace is not in the note.
pub open spec fn edit_not_found() -> Seq<char> {
    "old_string not found in file. Make sure it matches exactly including whitespace."@
}

/// `content` with the first occurrence of `old` replaced by `new`; an error, and no new
/// content, when `old` does not occur verbatim.
pub open spec fn edited(content: Seq<char>, old: Seq<char>, new: Seq<char>) -> Result<Seq<char>, Seq<char>> {
    match find_spec(content, old, 0) {
        Some(i) => Ok(content.subrange(0, i) + new + content.subrange(i + old.len(), content.len() as int)),
        None => Err(edit_not_found()),
    }
}

/// The edited content of a note: the first verbatim occurrence of `old_string` replaced by
/// `new_string`. Fails, giving no content to write, when `old_string` does not occur.
pub fn apply_edit(content: &str, old_string: &str, new_string: &str) -> (r: Result<String, String>)
    ensures
        r is Err <==> !contains_seq(content@, old_string@),
        match edited(content@, old_string@, new_string@) {
            Ok(c) => r matches Ok(t) && t@ == c,
            Err(e) => r matches Err(t) && t@ == e,
        },
{
    proof {
        lemma_contains_find(content@, old_string@);
        lemma_find_spec(content@, old_string@, 0);
    }
    let h = to_chars(content);
    let n = to_chars(old_string);
    let hl = h.len();
    match find_from(&h, &n, 0) {
        Some(i) => {
            let before = slice_string(content, 0, i);
            let after = slice_string(content, i + n.len(), hl);
            Ok(before.concat(new_string).concat(after.as_str()))
        },
        None => Err(
            String::from_str(
                "old_string not found in file. Make sure it matches exactly including whitespace.",
            ),
        ),
    }
}

/// An edit leaves the note exactly as it was when the text to replace is not in it: there
/// is then no new content at all.
pub proof fn lemma_edit_needs_match(content: Seq<char>, old: Seq<char>, new: Seq<char>)
    requires
        !contains_seq(content, old),
    ensures
        edited(content, old, new) is Err,
{
    lemma_contains_find(content, old);
}

/// The reply of a successful edit.
pub fn edited_message(path: &str) -> (r: String)
    ensures
        r@ == "Successfully edited "@ + path@,
{
    String::from_str("Successfully edited ").concat(path)
}

/// Whether a note may be created at `path`: never over an existing file.
pub fn check_create(path: &str, exists: bool) -> (r: Result<(), String>)
    ensures
        r is Err <==> exists,
        r matches Err(e) ==> e@ == "File already exists: "@ + path@,
{
    if exists {
        Err(String::from_str("File already exists: ").concat(path))
    } else {
        Ok(())
    }
}

/// The reply of a successful creation.
pub fn created_message(path: &str) -> (r: String)
    ensures
        r@ == "Successfully created "@ + path@,
{
    String::from_str("Successfully created ").concat(path)
}

/// The reply of a successful move.
pub fn moved_message(from_path: &str, to_path: &str) -> (r: String)
    ensures
        r@ == "Successfully moved "@ + from_path@ + " to "@ + to_path@,
{
    String::from_str("Successfully moved ").concat(from_path).concat(" to ").concat(to_path)
}

/// The reply of a successful deletion to the trash.
pub fn deleted_message(path: &str) -> (r: String)
    ensures
        r@ == "Successfully deleted "@ + path@ + " (moved to trash)"@,
{
    String::from_str("Successfully deleted ").concat(path).concat(" (moved to trash)")
}

/// An I/O failure, prefixed with what was being done (`Failed to read file: ...`).
pub fn io_error(what: &str, detail: &str) -> (r: String)
    ensures
        r@ == "Failed to "@ + what@ + ": "@ + detail@,
{
    String::from_str("Failed to ").concat(what).concat(": ").concat(detail)
}

} // verus!
