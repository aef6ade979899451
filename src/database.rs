//! A minimal database over note front matter: notes join a database by naming it in their
//! front matter; queries filter on front matter fields and render a table.

use vstd::prelude::*;
use crate::json::{array_of, get_member, json_member, json_of, json_parse, json_str_member, str_of, Json};
use crate::notes::{lines_of, split_lines};
use crate::search::{at_most, trim_text, trimmed_of, NoteFile};
use crate::text::{find_from, find_spec, join_seqs, join_strings, lemma_find_spec, slice_string, to_chars, views};
use crate::types::FieldValue;

verus! {

/// The key and value of one front matter line, if it holds one: comments and blank lines
/// hold none, and a line needs a colon.
pub open spec fn fm_entry(line: Seq<char>) -> Option<(Seq<char>, Seq<char>)> {
    let t = trimmed_of(line);
    if t.len() == 0 || t[0] == '#' {
        None
    } else {
        match find_spec(t, seq![':'], 0) {
            Some(c) => Some((trimmed_of(t.subrange(0, c)), trimmed_of(t.subrange(c + 1, t.len() as int)))),
            None => None,
        }
    }
}

/// The entries of the first `n` lines.
pub open spec fn fm_entries(ls: Seq<Seq<char>>, n: int) -> Seq<(Seq<char>, Seq<char>)>
    decreases n,
{
    if n <= 0 {
        seq![]
    } else {
        match fm_entry(ls[n - 1]) {
            Some(e) => fm_entries(ls, n - 1).push(e),
            None => fm_entries(ls, n - 1),
        }
    }
}

/// The front matter of a note: after trimming, the text must open with `---`; the block
/// runs up to the next line that starts with `---`.
pub open spec fn frontmatter_of(content: Seq<char>) -> Option<Seq<(Seq<char>, Seq<char>)>> {
    let c = trimmed_of(content);
    if c.len() < 3 || c.subrange(0, 3) != "---"@ {
        None
    } else {
        let rest = c.subrange(3, c.len() as int);
        match find_spec(rest, "\n---"@, 0) {
            Some(e) => {
                let ls = lines_of(rest.subrange(0, e));
                Some(fm_entries(ls, ls.len() as int))
            },
            None => None,
        }
    }
}

/// The value of `key` in front matter entries: a later entry overrides an earlier one.
pub open spec fn fm_get(es: Seq<(Seq<char>, Seq<char>)>, key: Seq<char>) -> Option<Seq<char>>
    decreases es.len(),
{
    if es.len() == 0 {
        None
    } else if es.last().0 == key {
        Some(es.last().1)
    } else {
        fm_get(es.drop_last(), key)
    }
}

/// The views of front matter entries.
pub open spec fn entry_views(v: Seq<(String, String)>) -> Seq<(Seq<char>, Seq<char>)> {
    v.map_values(|e: (String, String)| (e.0@, e.1@))
}

fn fm_entry_exec(line: &str) -> (r: Option<(String, String)>)
    ensures
        match fm_entry(line@) {
            Some(e) => r matches Some(x) && x.0@ == e.0 && x.1@ == e.1,
            None => r is None,
        },
{
    let t = trim_text(line);
    let n = t.as_str().unicode_len();
    if n == 0 || t.as_str().get_char(0) == '#' {
        return None;
    }
    let tc = to_chars(t.as_str());
    let mut colon: Vec<char> = Vec::new();
    colon.push(':');
    assert(colon@ =~= seq![':']);
    match find_from(&tc, &colon, 0) {
        Some(c) => {
            proof {
                lemma_find_spec(t@, seq![':'], 0);
            }
            let k = slice_string(t.as_str(), 0, c);
            let v = slice_string(t.as_str(), c + 1, n);
            Some((trim_text(k.as_str()), trim_text(v.as_str())))
        },
        None => None,
    }
}

/// The front matter entries of a note, in order, or `None` when it has no front matter.
pub fn parse_frontmatter(content: &str) -> (r: Option<Vec<(String, String)>>)
    ensures
        match frontmatter_of(content@) {
            Some(es) => r matches Some(v) && entry_views(v@) == es,
            None => r is None,
        },
{
    let c = trim_text(content);
    let n = c.as_str().unicode_len();
    if n < 3 {
        return None;
    }
    let head = slice_string(c.as_str(), 0, 3);
    if head != String::from_str("---") {
        return None;
    }
    let rest = slice_string(c.as_str(), 3, n);
    let rc = to_chars(rest.as_str());
    let marker = to_chars("\n---");
    let e = match find_from(&rc, &marker, 0) {
        Some(e) => e,
        None => {
            return None;
        },
    };
    proof {
        lemma_find_spec(rest@, "\n---"@, 0);
    }
    let block = slice_string(rest.as_str(), 0, e);
    let lines = split_lines(block.as_str());
    let ghost ls = lines_of(block@);
    let mut out: Vec<(String, String)> = Vec::new();
    let mut i: usize = 0;
    while i < lines.len()
        invariant
            views(lines@) == ls,
            i <= lines@.len(),
            entry_views(out@) == fm_entries(ls, i as int),
        decreases lines@.len() - i,
    {
        assert(lines@[i as int]@ == ls[i as int]);
        match fm_entry_exec(lines[i].as_str()) {
            Some(x) => {
                let ghost old_out = out@;
                out.push(x);
                assert(entry_views(out@) =~= entry_views(old_out).push(fm_entry(ls[i as int])->0));
            },
            None => {},
        }
        i = i + 1;
    }
    Some(out)
}

/// The value of `key` in front matter entries.
pub fn frontmatter_get(es: &Vec<(String, String)>, key: &str) -> (r: Option<String>)
    ensures
        match fm_get(entry_views(es@), key@) {
            Some(v) => r matches Some(x) && x@ == v,
            None => r is None,
        },
{
    let mut i: usize = es.len();
    assert(es@.subrange(0, i as int) =~= es@);
    while i > 0
        invariant
            i <= es@.len(),
            fm_get(entry_views(es@), key@) == fm_get(entry_views(es@.subrange(0, i as int)), key@),
        decreases i,
    {
        let ghost pre = entry_views(es@.subrange(0, i as int));
        assert(pre.drop_last() =~= entry_views(es@.subrange(0, i - 1)));
        if String::from_str(es[i - 1].0.as_str()) == String::from_str(key) {
            return Some(String::from_str(es[i - 1].1.as_str()));
        }
        i = i - 1;
    }
    None
}

/// Every filter member is a string equal to the note's value for that key.
pub open spec fn filter_holds(es: Seq<(Seq<char>, Seq<char>)>, filter: Seq<FieldValue>) -> bool {
    forall|i: int|
        0 <= i < filter.len() ==> (#[trigger] filter[i]).is_string && fm_get(es, filter[i].key@)
            == Some(filter[i].text@)
}

/// A table row: cells between bars.
pub open spec fn row_line(cells: Seq<Seq<char>>) -> Seq<char> {
    "| "@ + join_seqs(cells, " | "@) + " |"@
}

/// The cells of a note's row: its title (or `Untitled`), then each column's value (or `-`).
pub open spec fn row_cells(es: Seq<(Seq<char>, Seq<char>)>, columns: Seq<Seq<char>>) -> Seq<Seq<char>> {
    seq![
        match fm_get(es, "title"@) {
            Some(t) => t,
            None => "Untitled"@,
        },
    ] + columns.map_values(
        |c: Seq<char>|
            match fm_get(es, c) {
                Some(v) => v,
                None => "-"@,
            },
    )
}

/// The row of a note that belongs to database `id` and passes the filter.
pub open spec fn row_of_file(f: NoteFile, id: Seq<char>, columns: Seq<Seq<char>>, filter: Seq<FieldValue>) -> Option<Seq<char>> {
    match f.content {
        Some(c) => if f.is_markdown {
            match frontmatter_of(c@) {
                Some(es) => if fm_get(es, "db"@) == Some(id) && filter_holds(es, filter) {
                    Some(row_line(row_cells(es, columns)))
                } else {
                    None
                },
                None => None,
            }
        } else {
            None
        },
        None => None,
    }
}

/// The rows of the first `n` files.
pub open spec fn db_rows(fs: Seq<NoteFile>, id: Seq<char>, columns: Seq<Seq<char>>, filter: Seq<FieldValue>, n: int) -> Seq<Seq<char>>
    decreases n,
{
    if n <= 0 {
        seq![]
    } else {
        match row_of_file(fs[n - 1], id, columns, filter) {
            Some(r) => db_rows(fs, id, columns, filter, n - 1).push(r),
            None => db_rows(fs, id, columns, filter, n - 1),
        }
    }
}

/// The reply of `query_database`: a table of at most `limit` rows.
pub open spec fn query_reply(fs: Seq<NoteFile>, id: Seq<char>, columns: Seq<Seq<char>>, filter: Seq<FieldValue>, limit: usize) -> Seq<char> {
    let rows = at_most(db_rows(fs, id, columns, filter, fs.len() as int), limit as int);
    if rows.len() == 0 {
        "Database '"@ + id + "' has no matching rows."@
    } else {
        "| Title | "@ + join_seqs(columns, " | "@) + " |"@ + "\n"@ + "|"@ + join_seqs(
            Seq::new((columns.len() + 1) as nat, |i: int| "---"@),
            "|"@,
        ) + "|"@ + "\n"@ + join_seqs(rows, "\n"@)
    }
}

fn filter_check(es: &Vec<(String, String)>, filter: &Vec<FieldValue>) -> (r: bool)
    ensures
        r == filter_holds(entry_views(es@), filter@),
{
    let mut i: usize = 0;
    while i < filter.len()
        invariant
            i <= filter@.len(),
            forall|k: int|
                0 <= k < i ==> (#[trigger] filter@[k]).is_string && fm_get(entry_views(es@), filter@[k].key@)
                    == Some(filter@[k].text@),
        decreases filter@.len() - i,
    {
        let f = &filter[i];
        if !f.is_string {
            return false;
        }
        match frontmatter_get(es, f.key.as_str()) {
            Some(v) => {
                if v != String::from_str(f.text.as_str()) {
                    return false;
                }
            },
            None => {
                return false;
            },
        }
        i = i + 1;
    }
    true
}

fn row_of_file_exec(f: &NoteFile, id: &str, columns: &Vec<String>, filter: &Vec<FieldValue>) -> (r: Option<String>)
    ensures
        match row_of_file(*f, id@, views(columns@), filter@) {
            Some(x) => r matches Some(t) && t@ == x,
            None => r is None,
        },
{
    let c = match &f.content {
        Some(c) => c,
        None => {
            return None;
        },
    };
    if !f.is_markdown {
        return None;
    }
    let es = match parse_frontmatter(c.as_str()) {
        Some(es) => es,
        None => {
            return None;
        },
    };
    match frontmatter_get(&es, "db") {
        Some(d) => {
            if d != String::from_str(id) {
                return None;
            }
        },
        None => {
            return None;
        },
    }
    if !filter_check(&es, filter) {
        return None;
    }
    let mut cells: Vec<String> = Vec::new();
    cells.push(
        match frontmatter_get(&es, "title") {
            Some(t) => t,
            None => String::from_str("Untitled"),
        },
    );
    let mut i: usize = 0;
    while i < columns.len()
        invariant
            i <= columns@.len(),
            cells@.len() == i + 1,
            views(cells@) == row_cells(entry_views(es@), views(columns@)).subrange(0, i + 1),
        decreases columns@.len() - i,
    {
        let v = match frontmatter_get(&es, columns[i].as_str()) {
            Some(v) => v,
            None => String::from_str("-"),
        };
        let ghost old_c = cells@;
        cells.push(v);
        assert(views(cells@) =~= row_cells(entry_views(es@), views(columns@)).subrange(0, i + 2));
        i = i + 1;
    }
    assert(views(cells@) =~= row_cells(entry_views(es@), views(columns@)));
    Some(String::from_str("| ").concat(join_strings(&cells, " | ").as_str()).concat(" |"))
}

/// The reply of `query_database` over the files of a walk and the database's columns.
pub fn query_table(files: &Vec<NoteFile>, id: &str, columns: &Vec<String>, filter: &Vec<FieldValue>, limit: usize) -> (r: String)
    ensures
        r@ == query_reply(files@, id@, views(columns@), filter@, limit),
{
    let mut rows: Vec<String> = Vec::new();
    let mut i: usize = 0;
    while i < files.len()
        invariant
            i <= files@.len(),
            views(rows@) == at_most(db_rows(files@, id@, views(columns@), filter@, i as int), limit as int),
        decreases files@.len() - i,
    {
        let ghost prev = db_rows(files@, id@, views(columns@), filter@, i as int);
        if rows.len() < limit {
            match row_of_file_exec(&files[i], id, columns, filter) {
                Some(x) => {
                    proof {
                        crate::search::lemma_at_most_push(prev, x@, limit as int);
                    }
                    let ghost old_r = rows@;
                    rows.push(x);
                    assert(views(rows@) =~= views(old_r).push(row_of_file(files@[i as int], id@, views(columns@), filter@)->0));
                },
                None => {},
            }
        } else {
            proof {
                if let Some(x) = row_of_file(files@[i as int], id@, views(columns@), filter@) {
                    crate::search::lemma_at_most_push(prev, x, limit as int);
                }
            }
        }
        i = i + 1;
    }
    if rows.len() == 0 {
        return String::from_str("Database '").concat(id).concat("' has no matching rows.");
    }
    let mut bars: Vec<String> = Vec::new();
    bars.push(String::from_str("---"));
    let mut k: usize = 0;
    while k < columns.len()
        invariant
            k <= columns@.len(),
            bars@.len() == k + 1,
            forall|j: int| 0 <= j < k + 1 ==> (#[trigger] bars@[j])@ == "---"@,
        decreases columns@.len() - k,
    {
        bars.push(String::from_str("---"));
        k = k + 1;
    }
    assert(views(bars@) =~= Seq::new((columns@.len() + 1) as nat, |i: int| "---"@));
    String::from_str("| Title | ").concat(join_strings(columns, " | ").as_str()).concat(" |").concat("\n").concat(
        "|",
    ).concat(join_strings(&bars, "|").as_str()).concat("|").concat("\n").concat(join_strings(&rows, "\n").as_str())
}

/// The text names of the first `n` column definitions.
pub open spec fn column_names(items: Seq<Json>, n: int) -> Seq<Seq<char>>
    decreases n,
{
    if n <= 0 {
        seq![]
    } else {
        match str_of(get_member(items[n - 1], "name"@)) {
            Some(c) => column_names(items, n - 1).push(c),
            None => column_names(items, n - 1),
        }
    }
}

/// The column names of a database definition `{"columns": [{"name": ...}, ...]}`; columns
/// without a text name are skipped. A definition that is not JSON, or has no `columns`
/// array, is an error.
pub fn database_columns(definition: &str) -> (r: Result<Vec<String>, String>)
    ensures
        json_of(definition@) is None ==> (r matches Err(e) && exists|d: Seq<char>|
            e@ == "Failed to parse database: "@ + d),
        json_of(definition@) matches Some(j) ==> match array_of(get_member(j, "columns"@)) {
            Some(items) => r matches Ok(v) && views(v@) == column_names(items, items.len() as int),
            None => r matches Err(e) && e@ == "Invalid database format: missing columns"@,
        },
{
    let doc = match json_parse(definition) {
        Ok(d) => d,
        Err(e) => {
            let msg = String::from_str("Failed to parse database: ").concat(e.as_str());
            assert(msg@ == "Failed to parse database: "@ + e@);
            return Err(msg);
        },
    };
    let cols: &Vec<Json> = match json_member(&doc, "columns") {
        Some(Json::Array(a)) => a,
        _ => {
            return Err(String::from_str("Invalid database format: missing columns"));
        },
    };
    let mut names: Vec<String> = Vec::new();
    let mut i: usize = 0;
    while i < cols.len()
        invariant
            i <= cols@.len(),
            views(names@) == column_names(cols@, i as int),
        decreases cols@.len() - i,
    {
        match json_str_member(&cols[i], "name") {
            Some(s) => {
                let ghost old_n = names@;
                names.push(s);
                assert(views(names@) =~= views(old_n).push(str_of(get_member(cols@[i as int], "name"@))->0));
            },
            None => {},
        }
        i = i + 1;
    }
    Ok(names)
}

/// A title character that cannot stand in a file name becomes `_`.
pub open spec fn safe_char(c: char) -> char {
    if c == '/' || c == '\\' || c == ':' || c == '*' || c == '?' || c == '"' || c == '<' || c == '>' || c == '|' {
        '_'
    } else {
        c
    }
}

/// The file name of the note for a new row titled `title`.
pub open spec fn row_note_path(title: Seq<char>) -> Seq<char> {
    title.map_values(|c: char| safe_char(c)) + ".md"@
}

/// The content of the note for a new row: front matter naming the database, the title and
/// each cell, then a heading.
pub open spec fn row_note_content(id: Seq<char>, title: Seq<char>, cells: Seq<FieldValue>) -> Seq<char> {
    "---\ndb: "@ + id + "\ntitle: "@ + title + "\n"@ + join_seqs(
        cells.map_values(|f: FieldValue| f.key@ + ": "@ + f.text@ + "\n"@),
        ""@,
    ) + "---\n\n"@ + "# "@ + title + "\n\n"@
}

/// The file name of the note for a new row.
pub fn row_note_name(title: &str) -> (r: String)
    ensures
        r@ == row_note_path(title@),
{
    let n = title.unicode_len();
    let mut r = String::new();
    let mut i: usize = 0;
    while i < n
        invariant
            n == title@.len(),
            i <= n,
            r@ == title@.subrange(0, i as int).map_values(|c: char| safe_char(c)),
        decreases n - i,
    {
        let c = title.get_char(i);
        if c == '/' || c == '\\' || c == ':' || c == '*' || c == '?' || c == '"' || c == '<' || c == '>' || c == '|' {
            r.append("_");
            proof {
                reveal_strlit("_");
            }
        } else {
            r.append(title.substring_char(i, i + 1));
        }
        assert(r@ =~= title@.subrange(0, i + 1).map_values(|c: char| safe_char(c)));
        i = i + 1;
    }
    assert(title@.subrange(0, n as int) =~= title@);
    r.concat(".md")
}

/// The content of the note for a new row.
pub fn row_note_text(id: &str, title: &str, cells: &Vec<FieldValue>) -> (r: String)
    ensures
        r@ == row_note_content(id@, title@, cells@),
{
    let mut lines: Vec<String> = Vec::new();
    let mut i: usize = 0;
    while i < cells.len()
        invariant
            i <= cells@.len(),
            lines@.len() == i,
            forall|j: int| 0 <= j < i ==> (#[trigger] lines@[j])@ == cells@[j].key@ + ": "@ + cells@[j].text@ + "\n"@,
        decreases cells@.len() - i,
    {
        lines.push(String::from_str(cells[i].key.as_str()).concat(": ").concat(cells[i].text.as_str()).concat("\n"));
        i = i + 1;
    }
    assert(views(lines@) =~= cells@.map_values(|f: FieldValue| f.key@ + ": "@ + f.text@ + "\n"@));
    String::from_str("---\ndb: ").concat(id).concat("\ntitle: ").concat(title).concat("\n").concat(
        join_strings(&lines, "").as_str(),
    ).concat("---\n\n").concat("# ").concat(title).concat("\n\n")
}

/// The reply of a successful `add_database_row`.
pub fn row_added_message(title: &str, id: &str) -> (r: String)
    ensures
        r@ == "Successfully added row '"@ + title@ + "' to database '"@ + id@ + "'"@,
{
    String::from_str("Successfully added row '").concat(title).concat("' to database '").concat(id).concat("'")
}

/// The error of `add_database_row` when the row's note already exists.
pub fn row_exists_error(note_path: &str) -> (r: String)
    ensures
        r@ == "Note '"@ + note_path@ + "' already exists"@,
{
    String::from_str("Note '").concat(note_path).concat("' already exists")
}

} // verus!
