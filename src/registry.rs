//! The tool registry: validates tool calls, confines paths to the workspace, and decides
//! what each tool does. File system work is carried out by the caller on the [`ToolOp`]
//! that [`ToolRegistry::execute`] hands back; its outcome comes back through
//! [`ToolRegistry::complete`].

use vstd::prelude::*;
use crate::parse::same_text;
use crate::text::{decimal, decimal_of};
use crate::types::{
    bool_param_of, fields_param_of, int_param_of, text_param_of, FieldValue, ToolCall, ToolResult,
};

verus! {

/// What `std::path::Path::join` gives for a base directory and a relative path, as text.
pub uninterp spec fn joined_path(base: Seq<char>, rel: Seq<char>) -> Seq<char>;

/// Relies on `std::path::Path::join`: the path `rel` under `base`, rendered with
/// `to_string_lossy`.
#[verifier::external_body]
fn join_path(base: &str, rel: &str) -> (r: String)
    ensures
        r@ == joined_path(base@, rel@),
{
    std::path::Path::new(base).join(rel).to_string_lossy().to_string()
}

/// `s` without its leading characters `c`.
pub open spec fn drop_leading(s: Seq<char>, c: char) -> Seq<char>
    decreases s.len(),
{
    if s.len() > 0 && s[0] == c {
        drop_leading(s.drop_first(), c)
    } else {
        s
    }
}

/// A relative path without its leading `/`, then without its leading `\`.
pub open spec fn strip_separators(rel: Seq<char>) -> Seq<char> {
    drop_leading(drop_leading(rel, '/'), '\\')
}

fn skip_leading(s: &str, c: char) -> (r: String)
    ensures
        r@ == drop_leading(s@, c),
{
    let n = s.unicode_len();
    let mut i: usize = 0;
    assert(s@.subrange(0, n as int) =~= s@);
    while i < n && s.get_char(i) == c
        invariant
            n == s@.len(),
            i <= n,
            drop_leading(s@, c) == drop_leading(s@.subrange(i as int, n as int), c),
        decreases n - i,
    {
        assert(s@.subrange(i as int, n as int).drop_first() =~= s@.subrange(i + 1, n as int));
        i = i + 1;
    }
    String::from_str(s.substring_char(i, n))
}

/// The tools that the registry knows.
#[derive(Clone, Copy, Debug, PartialEq, Eq, Structural)]
pub enum ToolKind {
    ReadNote,
    EditNote,
    CreateNote,
    ListNotes,
    SearchNotes,
    GrepSearch,
    SemanticSearch,
    MoveNote,
    DeleteNote,
    QueryDatabase,
    AddDatabaseRow,
    GetBacklinks,
    AskUser,
    AttemptCompletion,
}

/// The tool named `n`, if the registry knows one.
pub open spec fn tool_kind(n: Seq<char>) -> Option<ToolKind> {
    if n == "read_note"@ {
        Some(ToolKind::ReadNote)
    } else if n == "edit_note"@ {
        Some(ToolKind::EditNote)
    } else if n == "create_note"@ {
        Some(ToolKind::CreateNote)
    } else if n == "list_notes"@ {
        Some(ToolKind::ListNotes)
    } else if n == "search_notes"@ {
        Some(ToolKind::SearchNotes)
    } else if n == "grep_search"@ {
        Some(ToolKind::GrepSearch)
    } else if n == "semantic_search"@ {
        Some(ToolKind::SemanticSearch)
    } else if n == "move_note"@ {
        Some(ToolKind::MoveNote)
    } else if n == "delete_note"@ {
        Some(ToolKind::DeleteNote)
    } else if n == "query_database"@ {
        Some(ToolKind::QueryDatabase)
    } else if n == "add_database_row"@ {
        Some(ToolKind::AddDatabaseRow)
    } else if n == "get_backlinks"@ {
        Some(ToolKind::GetBacklinks)
    } else if n == "ask_user"@ {
        Some(ToolKind::AskUser)
    } else if n == "attempt_completion"@ {
        Some(ToolKind::AttemptCompletion)
    } else {
        None
    }
}

/// The tool named `n`, if the registry knows one.
pub fn kind_of_tool(n: &str) -> (r: Option<ToolKind>)
    ensures
        r == tool_kind(n@),
{
    if same_text(n, "read_note") {
        Some(ToolKind::ReadNote)
    } else if same_text(n, "edit_note") {
        Some(ToolKind::EditNote)
    } else if same_text(n, "create_note") {
        Some(ToolKind::CreateNote)
    } else if same_text(n, "list_notes") {
        Some(ToolKind::ListNotes)
    } else if same_text(n, "search_notes") {
        Some(ToolKind::SearchNotes)
    } else if same_text(n, "grep_search") {
        Some(ToolKind::GrepSearch)
    } else if same_text(n, "semantic_search") {
        Some(ToolKind::SemanticSearch)
    } else if same_text(n, "move_note") {
        Some(ToolKind::MoveNote)
    } else if same_text(n, "delete_note") {
        Some(ToolKind::DeleteNote)
    } else if same_text(n, "query_database") {
        Some(ToolKind::QueryDatabase)
    } else if same_text(n, "add_database_row") {
        Some(ToolKind::AddDatabaseRow)
    } else if same_text(n, "get_backlinks") {
        Some(ToolKind::GetBacklinks)
    } else if same_text(n, "ask_user") {
        Some(ToolKind::AskUser)
    } else if same_text(n, "attempt_completion") {
        Some(ToolKind::AttemptCompletion)
    } else {
        None
    }
}

/// The error for a missing parameter `p`.
pub open spec fn missing(p: Seq<char>) -> Seq<char> {
    "Missing '"@ + p + "' parameter"@
}

fn missing_param(p: &str) -> (r: String)
    ensures
        r@ == missing(p@),
{
    String::from_str("Missing '").concat(p).concat("' parameter")
}

/// The text of parameter `key`, or the missing-parameter error.
fn required_text(call: &ToolCall, key: &str) -> (r: Result<String, String>)
    ensures
        match text_param_of(call.params@, key@) {
            Some(s) => r matches Ok(t) && t@ == s,
            None => r matches Err(e) && e@ == missing(key@),
        },
{
    match call.text_param(key) {
        Some(t) => Ok(t),
        None => Err(missing_param(key)),
    }
}

/// An integer parameter read as a count, with a default when it is absent or not an integer.
pub open spec fn count_param(call: ToolCall, key: Seq<char>, default: usize) -> usize {
    match int_param_of(call.params@, key) {
        Some(n) => n as usize,
        None => default,
    }
}

fn count_or(call: &ToolCall, key: &str, default: usize) -> (r: usize)
    ensures
        r == count_param(*call, key@, default),
{
    match call.int_param(key) {
        Some(n) => n as usize,
        None => default,
    }
}

/// The text of an optional parameter, with a default.
pub open spec fn text_or(call: ToolCall, key: Seq<char>, default: Seq<char>) -> Seq<char> {
    match text_param_of(call.params@, key) {
        Some(s) => s,
        None => default,
    }
}

fn text_param_or(call: &ToolCall, key: &str, default: &str) -> (r: String)
    ensures
        r@ == text_or(*call, key@, default@),
{
    match call.text_param(key) {
        Some(t) => t,
        None => String::from_str(default),
    }
}

/// The members of an object parameter; none when it is absent or not an object.
pub open spec fn fields_or_none(call: ToolCall, key: Seq<char>) -> Seq<FieldValue> {
    match fields_param_of(call.params@, key) {
        Some(f) => f,
        None => seq![],
    }
}

/// What object members say: key, text, and whether the value is a string.
pub open spec fn field_views(v: Seq<FieldValue>) -> Seq<(Seq<char>, Seq<char>, bool)> {
    v.map_values(|f: FieldValue| (f.key@, f.text@, f.is_string))
}

fn copy_field(f: &FieldValue) -> (r: FieldValue)
    ensures
        r.key@ == f.key@,
        r.text@ == f.text@,
        r.is_string == f.is_string,
{
    FieldValue {
        key: String::from_str(f.key.as_str()),
        text: String::from_str(f.text.as_str()),
        is_string: f.is_string,
    }
}

fn fields_copy(call: &ToolCall, key: &str) -> (r: Vec<FieldValue>)
    ensures
        field_views(r@) == field_views(fields_or_none(*call, key@)),
{
    let mut r: Vec<FieldValue> = Vec::new();
    assert(field_views(r@) =~= field_views(fields_or_none(*call, key@).subrange(0, 0)));
    match call.fields_param(key) {
        Some(v) => {
            let mut i: usize = 0;
            while i < v.len()
                invariant
                    i <= v@.len(),
                    field_views(r@) == field_views(v@.subrange(0, i as int)),
                decreases v@.len() - i,
            {
                let ghost old_r = r@;
                let c = copy_field(&v[i]);
                r.push(c);
                assert(r@ == old_r.push(c));
                assert(field_views(r@) =~= field_views(old_r).push((v@[i as int].key@, v@[i as int].text@, v@[i as int].is_string)));
                assert(field_views(v@.subrange(0, i + 1)) =~= field_views(v@.subrange(0, i as int)).push((v@[i as int].key@, v@[i as int].text@, v@[i as int].is_string)));
                i = i + 1;
            }
            assert(v@.subrange(0, v@.len() as int) =~= v@);
        },
        None => {
            assert(field_views(r@) =~= field_views(fields_or_none(*call, key@)));
        },
    }
    r
}

/// What a tool call needs done in the file system, with its inputs settled.
pub enum ToolOp {
    /// A fixed reply that needs no file system work.
    Reply { content: String },
    ReadNote { full_path: String },
    EditNote { path: String, full_path: String, old_string: String, new_string: String },
    CreateNote { path: String, full_path: String, content: String },
    ListNotes { full_path: String, recursive: bool, max_depth: usize },
    SearchNotes { query: String, limit: usize },
    GrepSearch { pattern: String, full_path: String, case_sensitive: bool, limit: usize },
    MoveNote { from_path: String, to_path: String, full_from: String, full_to: String },
    DeleteNote { path: String, full_path: String },
    QueryDatabase { database_id: String, db_path: String, limit: usize, filter: Vec<FieldValue> },
    AddDatabaseRow { database_id: String, title: String, cells: Vec<FieldValue> },
    GetBacklinks { path: String },
}

/// Where a tool call stands after the registry has looked at it.
pub enum ToolStep {
    /// Answered without touching the file system.
    Done(ToolResult),
    /// The caller performs this and hands its outcome to [`ToolRegistry::complete`].
    Io(ToolOp),
}

/// Confines file tools to one workspace root.
pub struct ToolRegistry {
    pub workspace_path: String,
}

/// The sentinel reply of `ask_user`.
pub open spec fn ask_user_reply(q: Seq<char>) -> Seq<char> {
    "[WAITING_FOR_USER] "@ + q
}

/// The sentinel reply of `attempt_completion`.
pub open spec fn completion_reply(r: Seq<char>) -> Seq<char> {
    "[TASK_COMPLETED] "@ + r
}

/// The placeholder reply of `semantic_search`.
pub open spec fn semantic_reply(q: Seq<char>, limit: usize) -> Seq<char> {
    "[SEMANTIC_SEARCH] Query: '"@ + q + "', Limit: "@ + decimal_of(limit as nat)
        + "\nNote: Semantic search requires RAG indexing. Please use search_notes or grep_search for now."@
}

impl ToolRegistry {
    /// A registry rooted at `workspace_path`.
    pub fn new(workspace_path: String) -> (r: ToolRegistry)
        ensures
            r.workspace_path == workspace_path,
    {
        ToolRegistry { workspace_path }
    }

    /// The path under the workspace root: leading separators are dropped, then the rest is
    /// joined to the root.
    pub open spec fn full_path_of(&self, rel: Seq<char>) -> Seq<char> {
        joined_path(self.workspace_path@, strip_separators(rel))
    }

    /// The path under the workspace root for a relative path.
    pub fn get_full_path(&self, relative_path: &str) -> (r: String)
        ensures
            r@ == self.full_path_of(relative_path@),
    {
        let a = skip_leading(relative_path, '/');
        let b = skip_leading(a.as_str(), '\\');
        join_path(self.workspace_path.as_str(), b.as_str())
    }

    /// Signals that the run should pause for a human answer.
    pub fn ask_user(&self, call: &ToolCall) -> (r: Result<String, String>)
        ensures
            match text_param_of(call.params@, "question"@) {
                Some(q) => r matches Ok(t) && t@ == ask_user_reply(q),
                None => r matches Err(e) && e@ == missing("question"@),
            },
    {
        let q = required_text(call, "question")?;
        Ok(String::from_str("[WAITING_FOR_USER] ").concat(q.as_str()))
    }

    /// Carries the final result text.
    pub fn attempt_completion(&self, call: &ToolCall) -> (r: Result<String, String>)
        ensures
            match text_param_of(call.params@, "result"@) {
                Some(q) => r matches Ok(t) && t@ == completion_reply(q),
                None => r matches Err(e) && e@ == missing("result"@),
            },
    {
        let q = required_text(call, "result")?;
        Ok(String::from_str("[TASK_COMPLETED] ").concat(q.as_str()))
    }

    /// A placeholder: semantic search is not wired to a retrieval index.
    pub fn semantic_search(&self, call: &ToolCall) -> (r: Result<String, String>)
        ensures
            match text_param_of(call.params@, "query"@) {
                Some(q) => r matches Ok(t) && t@ == semantic_reply(q, count_param(*call, "limit"@, 5)),
                None => r matches Err(e) && e@ == missing("query"@),
            },
    {
        let q = required_text(call, "query")?;
        let limit = count_or(call, "limit", 5);
        Ok(
            String::from_str("[SEMANTIC_SEARCH] Query: '").concat(q.as_str()).concat(
                "', Limit: ",
            ).concat(decimal(limit).as_str()).concat(
                "\nNote: Semantic search requires RAG indexing. Please use search_notes or grep_search for now.",
            ),
        )
    }
}

/// `r` is what [`ToolRegistry::prepare`] owes for a call of tool `k`: the first missing
/// required parameter is reported, else the operation with its inputs.
pub open spec fn prepared(reg: ToolRegistry, call: ToolCall, k: ToolKind, r: Result<ToolOp, String>) -> bool {
    let ps = call.params@;
    match k {
        ToolKind::ReadNote => match text_param_of(ps, "path"@) {
            None => r matches Err(e) && e@ == missing("path"@),
            Some(p) => r matches Ok(ToolOp::ReadNote { full_path }) && full_path@ == reg.full_path_of(p),
        },
        ToolKind::EditNote => match (text_param_of(ps, "path"@), text_param_of(ps, "old_string"@), text_param_of(ps, "new_string"@)) {
            (None, _, _) => r matches Err(e) && e@ == missing("path"@),
            (Some(_), None, _) => r matches Err(e) && e@ == missing("old_string"@),
            (Some(_), Some(_), None) => r matches Err(e) && e@ == missing("new_string"@),
            (Some(p), Some(o), Some(n)) => r matches Ok(ToolOp::EditNote { path, full_path, old_string, new_string })
                && path@ == p && full_path@ == reg.full_path_of(p) && old_string@ == o && new_string@ == n,
        },
        ToolKind::CreateNote => match (text_param_of(ps, "path"@), text_param_of(ps, "content"@)) {
            (None, _) => r matches Err(e) && e@ == missing("path"@),
            (Some(_), None) => r matches Err(e) && e@ == missing("content"@),
            (Some(p), Some(c)) => r matches Ok(ToolOp::CreateNote { path, full_path, content })
                && path@ == p && full_path@ == reg.full_path_of(p) && content@ == c,
        },
        ToolKind::ListNotes => {
            let rec = match bool_param_of(ps, "recursive"@) { Some(b) => b, None => false };
            r matches Ok(ToolOp::ListNotes { full_path, recursive, max_depth })
                && full_path@ == reg.full_path_of(text_or(call, "path"@, "."@)) && recursive == rec
                && max_depth == (if rec { count_param(call, "max_depth"@, 3) } else { 1 })
        },
        ToolKind::SearchNotes => match text_param_of(ps, "query"@) {
            None => r matches Err(e) && e@ == missing("query"@),
            Some(q) => r matches Ok(ToolOp::SearchNotes { query, limit }) && query@ == q
                && limit == count_param(call, "limit"@, 10),
        },
        ToolKind::GrepSearch => match text_param_of(ps, "pattern"@) {
            None => r matches Err(e) && e@ == missing("pattern"@),
            Some(q) => r matches Ok(ToolOp::GrepSearch { pattern, full_path, case_sensitive, limit })
                && pattern@ == q && full_path@ == reg.full_path_of(text_or(call, "path"@, "."@))
                && case_sensitive == (match bool_param_of(ps, "case_sensitive"@) { Some(b) => b, None => false })
                && limit == count_param(call, "limit"@, 20),
        },
        ToolKind::SemanticSearch => match text_param_of(ps, "query"@) {
            None => r matches Err(e) && e@ == missing("query"@),
            Some(q) => r matches Ok(ToolOp::Reply { content }) && content@ == semantic_reply(q, count_param(call, "limit"@, 5)),
        },
        ToolKind::MoveNote => match (text_param_of(ps, "from_path"@), text_param_of(ps, "to_path"@)) {
            (None, _) => r matches Err(e) && e@ == missing("from_path"@),
            (Some(_), None) => r matches Err(e) && e@ == missing("to_path"@),
            (Some(f), Some(t)) => r matches Ok(ToolOp::MoveNote { from_path, to_path, full_from, full_to })
                && from_path@ == f && to_path@ == t && full_from@ == reg.full_path_of(f) && full_to@ == reg.full_path_of(t),
        },
        ToolKind::DeleteNote => match text_param_of(ps, "path"@) {
            None => r matches Err(e) && e@ == missing("path"@),
            Some(p) => r matches Ok(ToolOp::DeleteNote { path, full_path }) && path@ == p && full_path@ == reg.full_path_of(p),
        },
        ToolKind::QueryDatabase => match text_param_of(ps, "database_id"@) {
            None => r matches Err(e) && e@ == missing("database_id"@),
            Some(d) => r matches Ok(ToolOp::QueryDatabase { database_id, db_path, limit, filter }) && database_id@ == d
                && db_path@ == reg.full_path_of(d + ".db.json"@) && limit == count_param(call, "limit"@, 50)
                && field_views(filter@) == field_views(fields_or_none(call, "filter"@)),
        },
        ToolKind::AddDatabaseRow => match (text_param_of(ps, "database_id"@), text_param_of(ps, "title"@)) {
            (None, _) => r matches Err(e) && e@ == missing("database_id"@),
            (Some(_), None) => r matches Err(e) && e@ == missing("title"@),
            (Some(d), Some(t)) => r matches Ok(ToolOp::AddDatabaseRow { database_id, title, cells }) && database_id@ == d && title@ == t
                && field_views(cells@) == field_views(fields_or_none(call, "cells"@)),
        },
        ToolKind::GetBacklinks => match text_param_of(ps, "path"@) {
            None => r matches Err(e) && e@ == missing("path"@),
            Some(p) => r matches Ok(ToolOp::GetBacklinks { path }) && path@ == p,
        },
        ToolKind::AskUser => match text_param_of(ps, "question"@) {
            None => r matches Err(e) && e@ == missing("question"@),
            Some(q) => r matches Ok(ToolOp::Reply { content }) && content@ == ask_user_reply(q),
        },
        ToolKind::AttemptCompletion => match text_param_of(ps, "result"@) {
            None => r matches Err(e) && e@ == missing("result"@),
            Some(q) => r matches Ok(ToolOp::Reply { content }) && content@ == completion_reply(q),
        },
    }
}

/// The error for a tool that the registry does not know.
pub open spec fn unknown_tool(name: Seq<char>) -> Seq<char> {
    "Unknown tool: "@ + name
}

impl ToolRegistry {
    /// Validates a call and settles what it needs: an unknown tool or a missing required
    /// parameter is an error; tools that need no file system work are answered at once.
    pub fn prepare(&self, call: &ToolCall) -> (r: Result<ToolOp, String>)
        ensures
            match tool_kind(call.name@) {
                None => r matches Err(e) && e@ == unknown_tool(call.name@),
                Some(k) => prepared(*self, *call, k, r),
            },
    {
        let kind = match kind_of_tool(call.name.as_str()) {
            Some(k) => k,
            None => {
                return Err(String::from_str("Unknown tool: ").concat(call.name.as_str()));
            },
        };
        match kind {
            ToolKind::ReadNote => {
                let p = required_text(call, "path")?;
                Ok(ToolOp::ReadNote { full_path: self.get_full_path(p.as_str()) })
            },
            ToolKind::EditNote => {
                let p = required_text(call, "path")?;
                let o = required_text(call, "old_string")?;
                let n = required_text(call, "new_string")?;
                let full_path = self.get_full_path(p.as_str());
                Ok(ToolOp::EditNote { path: p, full_path, old_string: o, new_string: n })
            },
            ToolKind::CreateNote => {
                let p = required_text(call, "path")?;
                let c = required_text(call, "content")?;
                let full_path = self.get_full_path(p.as_str());
                Ok(ToolOp::CreateNote { path: p, full_path, content: c })
            },
            ToolKind::ListNotes => {
                let p = text_param_or(call, "path", ".");
                let recursive = match call.bool_param("recursive") {
                    Some(b) => b,
                    None => false,
                };
                let max_depth = if recursive {
                    count_or(call, "max_depth", 3)
                } else {
                    1
                };
                Ok(ToolOp::ListNotes { full_path: self.get_full_path(p.as_str()), recursive, max_depth })
            },
            ToolKind::SearchNotes => {
                let q = required_text(call, "query")?;
                Ok(ToolOp::SearchNotes { query: q, limit: count_or(call, "limit", 10) })
            },
            ToolKind::GrepSearch => {
                let q = required_text(call, "pattern")?;
                let p = text_param_or(call, "path", ".");
                let case_sensitive = match call.bool_param("case_sensitive") {
                    Some(b) => b,
                    None => false,
                };
                Ok(
                    ToolOp::GrepSearch {
                        pattern: q,
                        full_path: self.get_full_path(p.as_str()),
                        case_sensitive,
                        limit: count_or(call, "limit", 20),
                    },
                )
            },
            ToolKind::SemanticSearch => {
                let content = self.semantic_search(call)?;
                Ok(ToolOp::Reply { content })
            },
            ToolKind::MoveNote => {
                let f = required_text(call, "from_path")?;
                let t = required_text(call, "to_path")?;
                let full_from = self.get_full_path(f.as_str());
                let full_to = self.get_full_path(t.as_str());
                Ok(ToolOp::MoveNote { from_path: f, to_path: t, full_from, full_to })
            },
            ToolKind::DeleteNote => {
                let p = required_text(call, "path")?;
                let full_path = self.get_full_path(p.as_str());
                Ok(ToolOp::DeleteNote { path: p, full_path })
            },
            ToolKind::QueryDatabase => {
                let d = required_text(call, "database_id")?;
                let file = String::from_str(d.as_str()).concat(".db.json");
                let db_path = self.get_full_path(file.as_str());
                Ok(
                    ToolOp::QueryDatabase {
                        database_id: d,
                        db_path,
                        limit: count_or(call, "limit", 50),
                        filter: fields_copy(call, "filter"),
                    },
                )
            },
            ToolKind::AddDatabaseRow => {
                let d = required_text(call, "database_id")?;
                let t = required_text(call, "title")?;
                Ok(ToolOp::AddDatabaseRow { database_id: d, title: t, cells: fields_copy(call, "cells") })
            },
            ToolKind::GetBacklinks => {
                let p = required_text(call, "path")?;
                Ok(ToolOp::GetBacklinks { path: p })
            },
            ToolKind::AskUser => {
                let content = self.ask_user(call)?;
                Ok(ToolOp::Reply { content })
            },
            ToolKind::AttemptCompletion => {
                let content = self.attempt_completion(call)?;
                Ok(ToolOp::Reply { content })
            },
        }
    }

    /// Runs a call as far as the registry can: errors and fixed replies come back as a
    /// result; work on the file system comes back as the operation to perform. A tool that
    /// the registry does not know fails, naming the tool.
    pub fn execute(&self, call: &ToolCall) -> (r: ToolStep)
        ensures
            exists|p: Result<ToolOp, String>| prep_owed(*self, *call, p) && step_of(*call, p, r),
            tool_kind(call.name@) is None ==> failed_with(*call, r, unknown_tool(call.name@)),
    {
        let id = String::from_str(call.id.as_str());
        let p = self.prepare(call);
        let ghost gp = p;
        let r = match p {
            Err(e) => ToolStep::Done(ToolResult::err(id, e)),
            Ok(ToolOp::Reply { content }) => ToolStep::Done(ToolResult::ok(id, content)),
            Ok(op) => ToolStep::Io(op),
        };
        assert(prep_owed(*self, *call, gp) && step_of(*call, gp, r));
        r
    }

    /// The uniform result of a call whose file system work ended with `outcome`.
    pub fn complete(call: &ToolCall, outcome: Result<String, String>) -> (r: ToolResult)
        ensures
            r.tool_call_id@ == call.id@,
            r.success == outcome is Ok,
            outcome matches Ok(c) ==> r.content == c && r.error is None,
            outcome matches Err(e) ==> r.content@.len() == 0 && r.error == Some(e),
    {
        let id = String::from_str(call.id.as_str());
        match outcome {
            Ok(c) => ToolResult::ok(id, c),
            Err(e) => ToolResult::err(id, e),
        }
    }
}

/// What [`ToolRegistry::prepare`] owes for `call`.
pub open spec fn prep_owed(reg: ToolRegistry, call: ToolCall, p: Result<ToolOp, String>) -> bool {
    match tool_kind(call.name@) {
        None => p matches Err(e) && e@ == unknown_tool(call.name@),
        Some(k) => prepared(reg, call, k, p),
    }
}

/// `r` is a failed result for `call` with the error `e`.
pub open spec fn failed_with(call: ToolCall, r: ToolStep, e: Seq<char>) -> bool {
    &&& r matches ToolStep::Done(res)
    &&& res.tool_call_id@ == call.id@
    &&& !res.success
    &&& res.content@.len() == 0
    &&& res.error matches Some(m)
    &&& m@ == e
}

/// `r` is the step that a prepared call `p` gives.
pub open spec fn step_of(call: ToolCall, p: Result<ToolOp, String>, r: ToolStep) -> bool {
    match p {
        Err(e) => failed_with(call, r, e@),
        Ok(ToolOp::Reply { content }) => {
            &&& r matches ToolStep::Done(res)
            &&& res.tool_call_id@ == call.id@
            &&& res.success
            &&& res.error is None
            &&& res.content@ == content@
        },
        Ok(op) => r == ToolStep::Io(op),
    }
}

} // verus!
