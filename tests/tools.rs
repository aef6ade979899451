use lumina_agent::database::{database_columns, parse_frontmatter, query_table, row_note_name, row_note_text};
use lumina_agent::grep::{backlinks_in, grep_search, grep_search_in, FileHits};
use lumina_agent::listing::{format_listing, DirEntryInfo};
use lumina_agent::notes::{apply_edit, check_create, number_lines, split_lines};
use lumina_agent::registry::{ToolOp, ToolRegistry, ToolStep};
use lumina_agent::search::{search_notes_in, NoteFile};
use lumina_agent::text::decimal;
use lumina_agent::types::{FieldValue, ParamValue, ToolCall, ToolParam};

fn call(name: &str, params: Vec<(&str, ParamValue)>) -> ToolCall {
    ToolCall {
        id: "c".to_string(),
        name: name.to_string(),
        params: params.into_iter().map(|(k, v)| ToolParam { key: k.to_string(), value: v }).collect(),
    }
}

fn text(s: &str) -> ParamValue {
    ParamValue::Text(s.to_string())
}

fn note(rel: &str, content: &str) -> NoteFile {
    NoteFile {
        path: format!("/ws/{}", rel),
        rel_path: rel.to_string(),
        is_markdown: rel.ends_with(".md"),
        content: Some(content.to_string()),
    }
}

fn entry(name: &str, is_dir: bool) -> DirEntryInfo {
    DirEntryInfo { name: name.to_string(), rel_path: name.to_string(), depth: 1, is_dir }
}

#[test]
fn decimal_formatting() {
    assert_eq!(decimal(0), "0");
    assert_eq!(decimal(1234567), "1234567");
}

#[test]
fn lines_like_std() {
    for s in ["", "a", "a\n", "a\r\nb", "a\n\nb\n", "x\r", "\n"] {
        let expected: Vec<String> = s.lines().map(|l| l.to_string()).collect();
        assert_eq!(split_lines(s), expected, "input {:?}", s);
    }
}

#[test]
fn read_note_numbering() {
    assert_eq!(number_lines("alpha\nbeta\n"), "   1 | alpha\n   2 | beta");
    assert_eq!(number_lines(""), "");
}

#[test]
fn edit_requires_verbatim_match() {
    assert_eq!(apply_edit("a b a", "a", "X"), Ok("X b a".to_string()));
    assert_eq!(
        apply_edit("hello world", "hello  world", "x"),
        Err("old_string not found in file. Make sure it matches exactly including whitespace.".to_string())
    );
    assert_eq!(apply_edit("abc", "", "Z"), Ok("Zabc".to_string()));
}

#[test]
fn create_refuses_existing() {
    assert_eq!(check_create("a.md", true), Err("File already exists: a.md".to_string()));
    assert_eq!(check_create("a.md", false), Ok(()));
}

#[test]
fn list_flat_sorted_by_name() {
    let es = vec![entry("b.md", false), entry("a.md", false), entry("sub", true), entry(".hidden", false)];
    assert_eq!(format_listing(&es, false), "📄 a.md\n📄 b.md\n📁 sub");
    assert_eq!(format_listing(&vec![], false), "(empty directory)");
}

#[test]
fn list_recursive_keeps_order() {
    let es = vec![
        DirEntryInfo { name: "sub".to_string(), rel_path: "sub".to_string(), depth: 1, is_dir: true },
        DirEntryInfo { name: "c.md".to_string(), rel_path: "sub/c.md".to_string(), depth: 2, is_dir: false },
        DirEntryInfo { name: "a.md".to_string(), rel_path: "a.md".to_string(), depth: 1, is_dir: false },
    ];
    assert_eq!(format_listing(&es, true), "📁 sub\n  📄 sub/c.md\n📄 a.md");
}

#[test]
fn registry_prepares_operations() {
    let reg = ToolRegistry::new("/ws".to_string());
    assert_eq!(reg.get_full_path("//notes/a.md"), "/ws/notes/a.md");
    match reg.execute(&call("edit_note", vec![("path", text("a.md")), ("old_string", text("x"))])) {
        ToolStep::Done(r) => assert_eq!(r.error, Some("Missing 'new_string' parameter".to_string())),
        _ => panic!(),
    }
    match reg.execute(&call("list_notes", vec![("recursive", ParamValue::Bool(true))])) {
        ToolStep::Io(ToolOp::ListNotes { full_path, recursive, max_depth }) => {
            assert_eq!(full_path, "/ws/.");
            assert!(recursive);
            assert_eq!(max_depth, 3);
        }
        _ => panic!(),
    }
    match reg.execute(&call("search_notes", vec![("query", text("q")), ("limit", ParamValue::Int(2))])) {
        ToolStep::Io(ToolOp::SearchNotes { query, limit }) => {
            assert_eq!(query, "q");
            assert_eq!(limit, 2);
        }
        _ => panic!(),
    }
    match reg.execute(&call("ask_user", vec![("question", text("which?"))])) {
        ToolStep::Done(r) => assert_eq!(r.content, "[WAITING_FOR_USER] which?"),
        _ => panic!(),
    }
    match reg.execute(&call("semantic_search", vec![("query", text("q"))])) {
        ToolStep::Done(r) => assert!(r.content.starts_with("[SEMANTIC_SEARCH] Query: 'q', Limit: 5\n")),
        _ => panic!(),
    }
    match reg.execute(&call("query_database", vec![("database_id", text("books"))])) {
        ToolStep::Io(ToolOp::QueryDatabase { db_path, limit, .. }) => {
            assert_eq!(db_path, "/ws/books.db.json");
            assert_eq!(limit, 50);
        }
        _ => panic!(),
    }
}

#[test]
fn search_is_case_insensitive_and_capped() {
    let files = vec![
        note("a.md", "Budget 2024\nnothing\nbudget again\nBUDGET\nbudget four"),
        note("b.txt", "budget"),
        note(".hidden/c.md", "budget"),
        note("d.md", "no match"),
        note("e.md", "the budget"),
    ];
    let out = search_notes_in(&files, "BUDGET", 10);
    assert_eq!(out, "📄 a.md\n  Line 1: Budget 2024\n  Line 3: budget again\n  Line 4: BUDGET\n\n📄 e.md\n  Line 1: the budget");
    assert_eq!(search_notes_in(&files, "budget", 1), "📄 a.md\n  Line 1: Budget 2024\n  Line 3: budget again\n  Line 4: BUDGET");
    assert_eq!(search_notes_in(&files, "zzz", 10), "No notes found containing 'zzz'");
}

#[test]
fn frontmatter_reading() {
    let fm = parse_frontmatter("  ---\ndb: books\n# note\ntitle:  Dune \nbad line\n---\nbody").unwrap();
    assert_eq!(fm, vec![("db".to_string(), "books".to_string()), ("title".to_string(), "Dune".to_string())]);
    assert!(parse_frontmatter("no front matter").is_none());
    assert!(parse_frontmatter("---\nunterminated").is_none());
}

#[test]
fn database_query_table() {
    let files = vec![
        note("dune.md", "---\ndb: books\ntitle: Dune\nauthor: Herbert\n---\n"),
        note("other.md", "---\ndb: films\ntitle: Alien\n---\n"),
        note("anon.md", "---\ndb: books\n---\n"),
    ];
    let cols = database_columns("{\"columns\": [{\"name\": \"author\"}, {\"type\": \"x\"}]}").unwrap();
    assert_eq!(cols, vec!["author".to_string()]);
    let out = query_table(&files, "books", &cols, &vec![], 50);
    assert_eq!(out, "| Title | author |\n|---|---|\n| Dune | Herbert |\n| Untitled | - |");
    let filter = vec![FieldValue { key: "author".to_string(), text: "Herbert".to_string(), is_string: true }];
    assert_eq!(query_table(&files, "books", &cols, &filter, 50), "| Title | author |\n|---|---|\n| Dune | Herbert |");
    assert_eq!(query_table(&files, "music", &cols, &vec![], 50), "Database 'music' has no matching rows.");
    assert_eq!(database_columns("{}"), Err("Invalid database format: missing columns".to_string()));
    assert!(database_columns("{").unwrap_err().starts_with("Failed to parse database: "));
}

#[test]
fn database_new_row() {
    assert_eq!(row_note_name("a/b:c?"), "a_b_c_.md");
    let cells = vec![FieldValue { key: "year".to_string(), text: "1965".to_string(), is_string: false }];
    assert_eq!(row_note_text("books", "Dune", &cells), "---\ndb: books\ntitle: Dune\nyear: 1965\n---\n\n# Dune\n\n");
}

#[test]
fn grep_with_regex() {
    let files = vec![note("a.md", "Alpha\nbeta\nALPHABET"), note("b.md", "gamma")];
    assert_eq!(grep_search(&files, "alpha", false, 20).unwrap(), "Found 1 files matching 'alpha':\n\n📄 a.md\n  1:: Alpha\n  3:: ALPHABET");
    assert_eq!(grep_search(&files, "alpha", true, 20).unwrap(), "No matches found for pattern 'alpha'");
    assert!(grep_search(&files, "(", true, 20).unwrap_err().starts_with("Invalid regex pattern: "));
    let hits = vec![FileHits { whole: true, lines: vec![false, true] }];
    assert_eq!(grep_search_in(&files, &hits, "p", 20), "Found 1 files matching 'p':\n\n📄 a.md\n  2:: beta");
}

#[test]
fn backlinks_found() {
    let files = vec![
        note("a.md", "see [[target]] here\nand [[target|T]]\nthird [[target]]"),
        note("target.md", "[[target]]"),
        note("c.md", "[[other]]"),
    ];
    let out = lumina_agent::grep::get_backlinks(&files, "target.md").unwrap();
    assert_eq!(out, "Found 1 notes linking to 'target':\n\n📄 a.md\n  Line 1: see [[target]] here\n  Line 2: and [[target|T]]");
    let none = backlinks_in(&files, &vec![], "target.md", "target");
    assert_eq!(none, "No backlinks found for 'target'");
}

#[test]
fn backlinks_escape_note_name() {
    let files = vec![note("x.md", "[[axb]]"), note("y.md", "link [[a.b|alias]]")];
    let out = lumina_agent::grep::get_backlinks(&files, "a.b.md").unwrap();
    assert_eq!(out, "Found 1 notes linking to 'a.b':\n\n📄 y.md\n  Line 1: link [[a.b|alias]]");
    assert_eq!(lumina_agent::grep::get_backlinks(&files, "").unwrap_err(), "Invalid path");
}

#[test]
fn database_columns_from_definition() {
    assert_eq!(
        database_columns("{\"columns\": [{\"name\": \"b\"}, {\"name\": 3}, {\"name\": \"a\"}]}").unwrap(),
        vec!["b".to_string(), "a".to_string()]
    );
    assert_eq!(database_columns("{\"columns\": {}}"), Err("Invalid database format: missing columns".to_string()));
    assert_eq!(database_columns("[1]"), Err("Invalid database format: missing columns".to_string()));
}

#[test]
fn grep_invalid_pattern_and_escaped_names() {
    let files = vec![note("a.md", "x")];
    assert!(grep_search(&files, "[", false, 20).unwrap_err().starts_with("Invalid regex pattern: "));
    let files = vec![note("n.md", "see [[c++ (draft)]]")];
    let out = lumina_agent::grep::get_backlinks(&files, "c++ (draft).md").unwrap();
    assert_eq!(out, "Found 1 notes linking to 'c++ (draft)':\n\n📄 n.md\n  Line 1: see [[c++ (draft)]]");
}
