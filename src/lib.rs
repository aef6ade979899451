//! Orchestration core of a note-taking assistant: parsers for model replies,
//! routing decisions of the agent graph, and the tool registry's logic.

pub mod text;
pub mod types;
pub mod json;
pub mod parse;
pub mod router;
pub mod executor;
pub mod prompts;
pub mod nodes;
pub mod registry;
pub mod notes;
pub mod listing;
pub mod search;
pub mod database;
pub mod grep;
