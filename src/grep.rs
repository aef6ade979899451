//! Regular-expression search and backlinks. What a pattern matches is decided by the
//! `regex` crate; the functions here take those verdicts per line and build the replies.

use vstd::prelude::*;
use crate::notes::{lines_of, split_lines};
use crate::search::{at_most, hit_line, is_searchable, lemma_at_most_push, searchable, trim_text, trimmed_of, NoteFile};
use crate::text::{contains_seq, contains_str, decimal, decimal_of, join_seqs, join_strings, views};

verus! {

#[verifier::external_type_specification]
#[verifier::external_body]
pub struct ExRegex(regex::Regex);

/// Whether `regex::Regex::new` accepts the pattern `p`.
pub uninterp spec fn regex_valid(p: Seq<char>) -> bool;

/// Whether the valid pattern `p` matches somewhere in `s`, as `regex::Regex::is_match`
/// decides.
pub uninterp spec fn regex_matches(p: Seq<char>, s: Seq<char>) -> bool;

/// Relies on `regex::Regex::new`: compiles `pattern`, which succeeds exactly when the
/// pattern is valid; otherwise gives the error's text.
#[verifier::external_body]
fn regex_new(pattern: &str) -> (r: Result<regex::Regex, String>)
    ensures
        r is Ok <==> regex_valid(pattern@),
{
    regex::Regex::new(pattern).map_err(|e| e.to_string())
}

/// A compiled regular expression, kept with the text it was compiled from.
pub struct Pattern {
    source: String,
    re: regex::Regex,
}

impl Pattern {
    /// The text the pattern was compiled from.
    pub closed spec fn source(&self) -> Seq<char> {
        self.source@
    }

    /// Compiles `pattern`; fails, with the error's text, exactly when it is not valid.
    pub fn compile(pattern: &str) -> (r: Result<Pattern, String>)
        ensures
            r is Ok <==> regex_valid(pattern@),
            r matches Ok(p) ==> p.source() == pattern@,
    {
        match regex_new(pattern) {
            Ok(re) => Ok(Pattern { source: String::from_str(pattern), re }),
            Err(e) => Err(e),
        }
    }
}

/// Relies on `regex::Regex::is_match`: whether the pattern, compiled from its source
/// text, matches somewhere in `s`.
#[verifier::external_body]
fn regex_is_match(p: &Pattern, s: &str) -> (r: bool)
    ensures
        r == regex_matches(p.source(), s@),
{
    p.re.is_match(s)
}

/// Whether `c` has a meaning of its own in a pattern.
pub open spec fn is_meta(c: char) -> bool {
    c == '\\' || c == '.' || c == '+' || c == '*' || c == '?' || c == '(' || c == ')' || c == '|'
        || c == '[' || c == ']' || c == '{' || c == '}' || c == '^' || c == '$' || c == '#'
        || c == '&' || c == '-' || c == '~'
}

/// `s` with a backslash before each meta character.
pub open spec fn escaped_of(s: Seq<char>) -> Seq<char>
    decreases s.len(),
{
    if s.len() == 0 {
        seq![]
    } else {
        let rest = escaped_of(s.drop_last());
        if is_meta(s.last()) {
            rest.push('\\').push(s.last())
        } else {
            rest.push(s.last())
        }
    }
}

/// Relies on `regex::escape`: a backslash before each of its meta characters.
#[verifier::external_body]
fn regex_escape(s: &str) -> (r: String)
    ensures
        r@ == escaped_of(s@),
{
    regex::escape(s)
}

/// What `std::path::Path::file_stem` returns for a path, as text.
pub uninterp spec fn file_stem_of(p: Seq<char>) -> Option<Seq<char>>;

/// Relies on `std::path::Path::file_stem`: the final component without its extension, if
/// the path has a final component.
#[verifier::external_body]
fn file_stem(p: &str) -> (r: Option<String>)
    ensures
        match file_stem_of(p@) {
            Some(s) => r matches Some(t) && t@ == s,
            None => r is None,
        },
{
    std::path::Path::new(p).file_stem().and_then(|s| s.to_str()).map(|s| s.to_string())
}

/// What a pattern matched in one file: the whole text, and each line.
#[derive(Clone, Debug, PartialEq, Eq)]
pub struct FileHits {
    pub whole: bool,
    pub lines: Vec<bool>,
}

/// Line `i` was matched.
pub open spec fn hit_at(hs: Seq<bool>, i: int) -> bool {
    0 <= i < hs.len() && hs[i]
}

/// How `grep_search` shows a matching line (with its doubled colon).
pub open spec fn grep_line(i: int, l: Seq<char>) -> Seq<char> {
    "  "@ + decimal_of((i + 1) as nat) + ":"@ + ":"@ + " "@ + trimmed_of(l)
}

/// The shown lines among the first `n` lines `ls` that were matched.
pub open spec fn marked_lines(ls: Seq<Seq<char>>, hs: Seq<bool>, grep_style: bool, n: int) -> Seq<Seq<char>>
    decreases n,
{
    if n <= 0 {
        seq![]
    } else if hit_at(hs, n - 1) {
        marked_lines(ls, hs, grep_style, n - 1).push(
            if grep_style { grep_line(n - 1, ls[n - 1]) } else { hit_line(n - 1, ls[n - 1]) },
        )
    } else {
        marked_lines(ls, hs, grep_style, n - 1)
    }
}

/// The line verdicts for file `i`, or none.
pub open spec fn line_hits_of(hits: Seq<Seq<bool>>, i: int) -> Seq<bool> {
    if 0 <= i < hits.len() {
        hits[i]
    } else {
        seq![]
    }
}

/// The line verdicts of each file.
pub open spec fn hit_lines(hits: Seq<FileHits>) -> Seq<Seq<bool>> {
    hits.map_values(|h: FileHits| h.lines@)
}

/// The whole-text verdict of each file.
pub open spec fn hit_wholes(hits: Seq<FileHits>) -> Seq<bool> {
    hits.map_values(|h: FileHits| h.whole)
}

/// The lines of a file's text; none when it could not be read.
pub open spec fn content_lines(f: NoteFile) -> Seq<Seq<char>> {
    match f.content {
        Some(c) => lines_of(c@),
        None => seq![],
    }
}

/// What pattern `p` matches in each line of each file.
pub open spec fn pattern_line_hits(fs: Seq<NoteFile>, p: Seq<char>) -> Seq<Seq<bool>> {
    fs.map_values(|f: NoteFile| content_lines(f).map_values(|l: Seq<char>| regex_matches(p, l)))
}

/// Whether pattern `p` matches the whole text of each file.
pub open spec fn pattern_whole_hits(fs: Seq<NoteFile>, p: Seq<char>) -> Seq<bool> {
    fs.map_values(
        |f: NoteFile|
            match f.content {
                Some(c) => regex_matches(p, c@),
                None => false,
            },
    )
}


/// The verdict on the whole text of file `i`.
pub open spec fn whole_hit_of(wholes: Seq<bool>, i: int) -> bool {
    0 <= i < wholes.len() && wholes[i]
}

/// The block `grep_search` shows for a file: its path and at most five matching lines;
/// none when no line matched.
pub open spec fn grep_block(f: NoteFile, h: Seq<bool>) -> Option<Seq<char>> {
    match f.content {
        Some(c) => {
            let ls = lines_of(c@);
            let shown = at_most(marked_lines(ls, h, true, ls.len() as int), 5);
            if is_searchable(f) && shown.len() > 0 {
                Some("📄 "@ + f.rel_path@ + "\n"@ + join_seqs(shown, "\n"@))
            } else {
                None
            }
        },
        None => None,
    }
}

/// The blocks of the first `n` files.
pub open spec fn grep_blocks(fs: Seq<NoteFile>, hits: Seq<Seq<bool>>, n: int) -> Seq<Seq<char>>
    decreases n,
{
    if n <= 0 {
        seq![]
    } else {
        match grep_block(fs[n - 1], line_hits_of(hits, n - 1)) {
            Some(b) => grep_blocks(fs, hits, n - 1).push(b),
            None => grep_blocks(fs, hits, n - 1),
        }
    }
}

/// The reply of `grep_search`, at most `limit` files.
pub open spec fn grep_reply(fs: Seq<NoteFile>, hits: Seq<Seq<bool>>, pattern: Seq<char>, limit: usize) -> Seq<char> {
    let bs = at_most(grep_blocks(fs, hits, fs.len() as int), limit as int);
    if bs.len() == 0 {
        "No matches found for pattern '"@ + pattern + "'"@
    } else {
        "Found "@ + decimal_of(bs.len()) + " files matching '"@ + pattern + "':\n\n"@ + join_seqs(bs, "\n\n"@)
    }
}

/// The shown matching lines of one file, capped at `cap`.
fn marked_lines_exec(content: &str, hs: &Vec<bool>, grep_style: bool, cap: usize) -> (r: Vec<String>)
    ensures
        views(r@) == at_most(marked_lines(lines_of(content@), hs@, grep_style, lines_of(content@).len() as int), cap as int),
{
    let lines = split_lines(content);
    let ghost ls = lines_of(content@);
    let mut out: Vec<String> = Vec::new();
    let mut i: usize = 0;
    while i < lines.len()
        invariant
            views(lines@) == ls,
            i <= lines@.len(),
            views(out@) == at_most(marked_lines(ls, hs@, grep_style, i as int), cap as int),
        decreases lines@.len() - i,
    {
        assert(lines@[i as int]@ == ls[i as int]);
        if i < hs.len() && hs[i] {
            let ghost x = if grep_style { grep_line(i as int, ls[i as int]) } else { hit_line(i as int, ls[i as int]) };
            proof {
                lemma_at_most_push(marked_lines(ls, hs@, grep_style, i as int), x, cap as int);
            }
            if out.len() < cap {
                let t = trim_text(lines[i].as_str());
                let line = if grep_style {
                    String::from_str("  ").concat(decimal(i + 1).as_str()).concat(":").concat(":").concat(" ").concat(t.as_str())
                } else {
                    String::from_str("  Line ").concat(decimal(i + 1).as_str()).concat(": ").concat(t.as_str())
                };
                let ghost old_o = out@;
                out.push(line);
                assert(views(out@) =~= views(old_o).push(x));
            }
        }
        i = i + 1;
    }
    out
}

/// The reply of `grep_search` over the files of a walk, given what the pattern matched in
/// each file's lines.
pub fn grep_search_in(files: &Vec<NoteFile>, hits: &Vec<FileHits>, pattern: &str, limit: usize) -> (r: String)
    ensures
        r@ == grep_reply(files@, hit_lines(hits@), pattern@, limit),
{
    let mut blocks: Vec<String> = Vec::new();
    let mut i: usize = 0;
    while i < files.len()
        invariant
            i <= files@.len(),
            views(blocks@) == at_most(grep_blocks(files@, hit_lines(hits@), i as int), limit as int),
        decreases files@.len() - i,
    {
        let ghost prev = grep_blocks(files@, hit_lines(hits@), i as int);
        let ghost gb = grep_block(files@[i as int], line_hits_of(hit_lines(hits@), i as int));
        proof {
            if let Some(b) = gb {
                lemma_at_most_push(prev, b, limit as int);
            }
        }
        if blocks.len() < limit {
            let f = &files[i];
            if let Some(c) = &f.content {
                if searchable(f) {
                    let empty: Vec<bool> = Vec::new();
                    let hs: &Vec<bool> = if i < hits.len() { &hits[i].lines } else { &empty };
                    assert(hs@ == line_hits_of(hit_lines(hits@), i as int));
                    let shown = marked_lines_exec(c.as_str(), hs, true, 5);
                    if shown.len() > 0 {
                        let b = String::from_str("📄 ").concat(f.rel_path.as_str()).concat("\n").concat(join_strings(&shown, "\n").as_str());
                        let ghost old_b = blocks@;
                        blocks.push(b);
                        assert(views(blocks@) =~= views(old_b).push(gb->0));
                    }
                }
            }
        }
        i = i + 1;
    }
    if blocks.len() == 0 {
        String::from_str("No matches found for pattern '").concat(pattern).concat("'")
    } else {
        String::from_str("Found ").concat(decimal(blocks.len()).as_str()).concat(" files matching '").concat(pattern).concat("':\n\n").concat(join_strings(&blocks, "\n\n").as_str())
    }
}

/// What a compiled pattern matches in the text, and in each line, of each file.
pub fn line_verdicts(p: &Pattern, files: &Vec<NoteFile>) -> (r: Vec<FileHits>)
    ensures
        hit_lines(r@) == pattern_line_hits(files@, p.source()),
        hit_wholes(r@) == pattern_whole_hits(files@, p.source()),
{
    let mut out: Vec<FileHits> = Vec::new();
    let mut i: usize = 0;
    while i < files.len()
        invariant
            i <= files@.len(),
            hit_lines(out@) == pattern_line_hits(files@, p.source()).subrange(0, i as int),
            hit_wholes(out@) == pattern_whole_hits(files@, p.source()).subrange(0, i as int),
        decreases files@.len() - i,
    {
        let mut lines_hit: Vec<bool> = Vec::new();
        let mut whole = false;
        let ghost ls = content_lines(files@[i as int]);
        if let Some(c) = &files[i].content {
            whole = regex_is_match(p, c.as_str());
            let lines = split_lines(c.as_str());
            let mut j: usize = 0;
            while j < lines.len()
                invariant
                    j <= lines@.len(),
                    views(lines@) == ls,
                    lines_hit@ == ls.map_values(|l: Seq<char>| regex_matches(p.source(), l)).subrange(0, j as int),
                decreases lines@.len() - j,
            {
                assert(lines@[j as int]@ == ls[j as int]);
                lines_hit.push(regex_is_match(p, lines[j].as_str()));
                assert(lines_hit@ =~= ls.map_values(|l: Seq<char>| regex_matches(p.source(), l)).subrange(0, j + 1));
                j = j + 1;
            }
            assert(lines_hit@ =~= ls.map_values(|l: Seq<char>| regex_matches(p.source(), l)));
        } else {
            assert(lines_hit@ =~= ls.map_values(|l: Seq<char>| regex_matches(p.source(), l)));
        }
        let ghost old_out = out@;
        let h = FileHits { whole, lines: lines_hit };
        out.push(h);
        assert(hit_lines(out@) =~= hit_lines(old_out).push(h.lines@));
        assert(hit_wholes(out@) =~= hit_wholes(old_out).push(h.whole));
        assert(pattern_line_hits(files@, p.source()).subrange(0, i + 1) =~= pattern_line_hits(files@, p.source()).subrange(0, i as int).push(h.lines@));
        assert(pattern_whole_hits(files@, p.source()).subrange(0, i + 1) =~= pattern_whole_hits(files@, p.source()).subrange(0, i as int).push(h.whole));
        i = i + 1;
    }
    assert(pattern_line_hits(files@, p.source()).subrange(0, files@.len() as int) =~= pattern_line_hits(files@, p.source()));
    assert(pattern_whole_hits(files@, p.source()).subrange(0, files@.len() as int) =~= pattern_whole_hits(files@, p.source()));
    out
}

/// The pattern that `grep_search` compiles: case-insensitive unless asked otherwise.
pub open spec fn grep_pattern(pattern: Seq<char>, case_sensitive: bool) -> Seq<char> {
    if case_sensitive {
        pattern
    } else {
        "(?i)"@ + pattern
    }
}

/// Regular-expression search over the files of a walk: at most five matching lines per
/// file and at most `limit` files. An invalid pattern is an error.
pub fn grep_search(files: &Vec<NoteFile>, pattern: &str, case_sensitive: bool, limit: usize) -> (r: Result<String, String>)
    ensures
        r is Ok <==> regex_valid(grep_pattern(pattern@, case_sensitive)),
        r matches Err(e) ==> exists|d: Seq<char>| e@ == "Invalid regex pattern: "@ + d,
        r matches Ok(t) ==> t@ == grep_reply(
            files@,
            pattern_line_hits(files@, grep_pattern(pattern@, case_sensitive)),
            pattern@,
            limit,
        ),
{
    let full = if case_sensitive {
        String::from_str(pattern)
    } else {
        String::from_str("(?i)").concat(pattern)
    };
    let p = match Pattern::compile(full.as_str()) {
        Ok(p) => p,
        Err(e) => {
            let msg = String::from_str("Invalid regex pattern: ").concat(e.as_str());
            assert(msg@ == "Invalid regex pattern: "@ + e@);
            return Err(msg);
        },
    };
    let hits = line_verdicts(&p, files);
    Ok(grep_search_in(files, &hits, pattern, limit))
}

/// The pattern of a wiki link to the note named `name`, with or without a display alias.
pub open spec fn backlink_pattern(name: Seq<char>) -> Seq<char> {
    "\\[\\["@ + escaped_of(name) + "(\\|[^\\]]+)?\\]\\]"@
}

/// The block `get_backlinks` shows for a note that links to the target: its path and at
/// most two linking lines. The target itself and hidden notes are skipped.
pub open spec fn backlink_block(f: NoteFile, target: Seq<char>, whole: bool, lines: Seq<bool>) -> Option<Seq<char>> {
    match f.content {
        Some(c) => if f.is_markdown && f.rel_path@ != target && !contains_seq(f.rel_path@, "/."@)
            && !contains_seq(f.rel_path@, "\\."@) && whole {
            let ls = lines_of(c@);
            Some("📄 "@ + f.rel_path@ + "\n"@ + join_seqs(at_most(marked_lines(ls, lines, false, ls.len() as int), 2), "\n"@))
        } else {
            None
        },
        None => None,
    }
}

/// The blocks of the first `n` files.
pub open spec fn backlink_blocks(fs: Seq<NoteFile>, hits: Seq<Seq<bool>>, wholes: Seq<bool>, target: Seq<char>, n: int) -> Seq<Seq<char>>
    decreases n,
{
    if n <= 0 {
        seq![]
    } else {
        match backlink_block(fs[n - 1], target, whole_hit_of(wholes, n - 1), line_hits_of(hits, n - 1)) {
            Some(b) => backlink_blocks(fs, hits, wholes, target, n - 1).push(b),
            None => backlink_blocks(fs, hits, wholes, target, n - 1),
        }
    }
}

/// The reply of `get_backlinks` for the note named `name` at `target`.
pub open spec fn backlinks_reply(fs: Seq<NoteFile>, hits: Seq<Seq<bool>>, wholes: Seq<bool>, target: Seq<char>, name: Seq<char>) -> Seq<char> {
    let bs = backlink_blocks(fs, hits, wholes, target, fs.len() as int);
    if bs.len() == 0 {
        "No backlinks found for '"@ + name + "'"@
    } else {
        "Found "@ + decimal_of(bs.len()) + " notes linking to '"@ + name + "':\n\n"@ + join_seqs(bs, "\n\n"@)
    }
}

/// The reply of `get_backlinks` over the files of a walk, given what the link pattern
/// matched in each file and in each of its lines.
pub fn backlinks_in(files: &Vec<NoteFile>, hits: &Vec<FileHits>, target: &str, name: &str) -> (r: String)
    ensures
        r@ == backlinks_reply(files@, hit_lines(hits@), hit_wholes(hits@), target@, name@),
{
    let mut blocks: Vec<String> = Vec::new();
    let mut i: usize = 0;
    while i < files.len()
        invariant
            i <= files@.len(),
            views(blocks@) == backlink_blocks(files@, hit_lines(hits@), hit_wholes(hits@), target@, i as int),
        decreases files@.len() - i,
    {
        let f = &files[i];
        let ghost gb = backlink_block(files@[i as int], target@, whole_hit_of(hit_wholes(hits@), i as int), line_hits_of(hit_lines(hits@), i as int));
        if let Some(c) = &f.content {
            let whole = i < hits.len() && hits[i].whole;
            let rel = f.rel_path.as_str();
            if f.is_markdown && String::from_str(rel) != String::from_str(target) && !contains_str(rel, "/.")
                && !contains_str(rel, "\\.") && whole {
                let empty: Vec<bool> = Vec::new();
                let hs: &Vec<bool> = if i < hits.len() { &hits[i].lines } else { &empty };
                assert(hs@ == line_hits_of(hit_lines(hits@), i as int));
                let shown = marked_lines_exec(c.as_str(), hs, false, 2);
                let b = String::from_str("📄 ").concat(rel).concat("\n").concat(join_strings(&shown, "\n").as_str());
                let ghost old_b = blocks@;
                blocks.push(b);
                assert(views(blocks@) =~= views(old_b).push(gb->0));
            }
        }
        i = i + 1;
    }
    if blocks.len() == 0 {
        String::from_str("No backlinks found for '").concat(name).concat("'")
    } else {
        String::from_str("Found ").concat(decimal(blocks.len()).as_str()).concat(" notes linking to '").concat(name).concat("':\n\n").concat(join_strings(&blocks, "\n\n").as_str())
    }
}

/// The notes that link to the note at `path`, over the files of a walk. A path without a
/// file name is an error.
pub fn get_backlinks(files: &Vec<NoteFile>, path: &str) -> (r: Result<String, String>)
    ensures
        file_stem_of(path@) is None ==> (r matches Err(e) && e@ == "Invalid path"@),
        file_stem_of(path@) matches Some(n) ==> {
            &&& r is Ok <==> regex_valid(backlink_pattern(n))
            &&& r matches Ok(t) ==> t@ == backlinks_reply(
                files@,
                pattern_line_hits(files@, backlink_pattern(n)),
                pattern_whole_hits(files@, backlink_pattern(n)),
                path@,
                n,
            )
            &&& r matches Err(e) ==> exists|d: Seq<char>| e@ == "Regex error: "@ + d
        },
{
    let name = match file_stem(path) {
        Some(n) => n,
        None => {
            return Err(String::from_str("Invalid path"));
        },
    };
    let pattern = String::from_str("\\[\\[").concat(regex_escape(name.as_str()).as_str()).concat("(\\|[^\\]]+)?\\]\\]");
    let p = match Pattern::compile(pattern.as_str()) {
        Ok(p) => p,
        Err(e) => {
            let msg = String::from_str("Regex error: ").concat(e.as_str());
            assert(msg@ == "Regex error: "@ + e@);
            return Err(msg);
        },
    };
    let hits = line_verdicts(&p, files);
    Ok(backlinks_in(files, &hits, path, name.as_str()))
}

} // verus!
