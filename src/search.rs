//! What the search tools compute from the notes that a walk of the workspace found.

use vstd::prelude::*;
use crate::notes::{lines_of, split_lines};
use crate::parse::{lower_of, lowercase};
use crate::text::{contains_chars, contains_seq, contains_str, decimal, decimal_of, join_seqs, join_strings, to_chars, views};

verus! {

/// What `str::trim` returns for the characters `s`.
pub uninterp spec fn trimmed_of(s: Seq<char>) -> Seq<char>;

/// Relies on `str::trim`: `s` without leading and trailing whitespace; the result depends
/// on the characters alone.
#[verifier::external_body]
pub(crate) fn trim_text(s: &str) -> (r: String)
    ensures
        r@ == trimmed_of(s@),
{
    s.trim().to_string()
}

/// A file that a walk of the workspace found.
#[derive(Clone, Debug, PartialEq, Eq)]
pub struct NoteFile {
    /// The full path, as text.
    pub path: String,
    /// The path relative to the workspace root, as shown in results.
    pub rel_path: String,
    /// The file name's extension is `md`.
    pub is_markdown: bool,
    /// The file's text, or `None` when it could not be read.
    pub content: Option<String>,
}

/// A file searched by the note tools: a markdown file outside any hidden directory.
pub open spec fn is_searchable(f: NoteFile) -> bool {
    f.is_markdown && !contains_seq(f.path@, "/."@) && !contains_seq(f.path@, "\\."@)
}

/// Whether a file is searched by the note tools.
pub fn searchable(f: &NoteFile) -> (r: bool)
    ensures
        r == is_searchable(*f),
{
    f.is_markdown && !contains_str(f.path.as_str(), "/.") && !contains_str(f.path.as_str(), "\\.")
}

/// How a matching line is shown: its 1-based number and its trimmed text.
pub open spec fn hit_line(i: int, l: Seq<char>) -> Seq<char> {
    "  Line "@ + decimal_of((i + 1) as nat) + ": "@ + trimmed_of(l)
}

/// The shown lines among the first `n` lines `ls` whose lower-cased text holds `q`.
pub open spec fn query_hits(ls: Seq<Seq<char>>, q: Seq<char>, n: int) -> Seq<Seq<char>>
    decreases n,
{
    if n <= 0 {
        seq![]
    } else if contains_seq(lower_of(ls[n - 1]), q) {
        query_hits(ls, q, n - 1).push(hit_line(n - 1, ls[n - 1]))
    } else {
        query_hits(ls, q, n - 1)
    }
}

/// The block that `search_notes` shows for a note whose lower-cased text holds `q`: its
/// path, then at most three matching lines.
pub open spec fn search_block(f: NoteFile, q: Seq<char>) -> Option<Seq<char>> {
    match f.content {
        Some(c) => if is_searchable(f) && contains_seq(lower_of(c@), q) {
            let ls = lines_of(c@);
            Some("📄 "@ + f.rel_path@ + "\n"@ + join_seqs(at_most(query_hits(ls, q, ls.len() as int), 3), "\n"@))
        } else {
            None
        },
        None => None,
    }
}

/// The blocks of the first `n` files.
pub open spec fn search_blocks(fs: Seq<NoteFile>, q: Seq<char>, n: int) -> Seq<Seq<char>>
    decreases n,
{
    if n <= 0 {
        seq![]
    } else {
        match search_block(fs[n - 1], q) {
            Some(b) => search_blocks(fs, q, n - 1).push(b),
            None => search_blocks(fs, q, n - 1),
        }
    }
}

/// The reply of `search_notes`.
pub open spec fn search_reply(fs: Seq<NoteFile>, query: Seq<char>, limit: usize) -> Seq<char> {
    let bs = search_blocks(fs, lower_of(query), fs.len() as int);
    if bs.len() == 0 || limit == 0 {
        "No notes found containing '"@ + query + "'"@
    } else {
        join_seqs(at_most(bs, limit as int), "\n\n"@)
    }
}

/// The first `n` items of `s`, or all of them when there are fewer.
pub open spec fn at_most(s: Seq<Seq<char>>, n: int) -> Seq<Seq<char>> {
    if s.len() <= n {
        s
    } else {
        s.take(n)
    }
}

/// Offering one more item to a list capped at `cap` items.
pub proof fn lemma_at_most_push(s: Seq<Seq<char>>, x: Seq<char>, cap: int)
    requires
        0 <= cap,
    ensures
        at_most(s.push(x), cap) == (if s.len() < cap {
            at_most(s, cap).push(x)
        } else {
            at_most(s, cap)
        }),
{
    if s.len() >= cap {
        assert(s.push(x).take(cap) =~= s.take(cap));
        if s.len() == cap {
            assert(s.take(cap) =~= s);
        }
    }
}

fn search_block_exec(f: &NoteFile, q: &str) -> (r: Option<String>)
    ensures
        match search_block(*f, q@) {
            Some(b) => r matches Some(t) && t@ == b,
            None => r is None,
        },
{
    let c = match &f.content {
        Some(c) => c,
        None => {
            return None;
        },
    };
    if !searchable(f) {
        return None;
    }
    let qc = to_chars(q);
    let lc = lowercase(c.as_str());
    if !contains_chars(&to_chars(lc.as_str()), &qc) {
        return None;
    }
    let lines = split_lines(c.as_str());
    let ghost ls = lines_of(c@);
    let mut hits: Vec<String> = Vec::new();
    let mut i: usize = 0;
    while i < lines.len()
        invariant
            views(lines@) == ls,
            qc@ == q@,
            i <= lines@.len(),
            views(hits@) == at_most(query_hits(ls, q@, i as int), 3),
        decreases lines@.len() - i,
    {
        assert(lines@[i as int]@ == ls[i as int]);
        let ll = lowercase(lines[i].as_str());
        if contains_chars(&to_chars(ll.as_str()), &qc) {
            proof {
                lemma_at_most_push(query_hits(ls, q@, i as int), hit_line(i as int, ls[i as int]), 3);
            }
            if hits.len() < 3 {
                let h = String::from_str("  Line ").concat(decimal(i + 1).as_str()).concat(": ").concat(
                    trim_text(lines[i].as_str()).as_str(),
                );
                let ghost old_h = hits@;
                hits.push(h);
                assert(views(hits@) =~= views(old_h).push(hit_line(i as int, ls[i as int])));
            }
        }
        i = i + 1;
    }
    let joined = join_strings(&hits, "\n");
    Some(String::from_str("📄 ").concat(f.rel_path.as_str()).concat("\n").concat(joined.as_str()))
}

/// The reply of `search_notes` over the files of a walk: for each searchable note whose
/// lower-cased text holds the lower-cased query, its block, until `limit` notes are found.
pub fn search_notes_in(files: &Vec<NoteFile>, query: &str, limit: usize) -> (r: String)
    ensures
        r@ == search_reply(files@, query@, limit),
{
    let q = lowercase(query);
    let mut blocks: Vec<String> = Vec::new();
    let mut i: usize = 0;
    while i < files.len()
        invariant
            i <= files@.len(),
            q@ == lower_of(query@),
            views(blocks@) == at_most(search_blocks(files@, q@, i as int), limit as int),
        decreases files@.len() - i,
    {
        let ghost prev = search_blocks(files@, q@, i as int);
        if blocks.len() < limit {
            match search_block_exec(&files[i], q.as_str()) {
                Some(b) => {
                    proof {
                        lemma_at_most_push(prev, b@, limit as int);
                    }
                    let ghost old_b = blocks@;
                    blocks.push(b);
                    assert(views(blocks@) =~= views(old_b).push(search_block(files@[i as int], q@)->0));
                },
                None => {},
            }
        } else {
            proof {
                if let Some(b) = search_block(files@[i as int], q@) {
                    lemma_at_most_push(prev, b, limit as int);
                }
            }
        }
        i = i + 1;
    }
    if blocks.len() == 0 {
        String::from_str("No notes found containing '").concat(query).concat("'")
    } else {
        join_strings(&blocks, "\n\n")
    }
}

} // verus!
