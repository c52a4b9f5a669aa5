//! What the AGENTS.md pane shows of a project's AGENTS.md.
use vstd::prelude::*;

use crate::text::{concat, owned};

verus! {

/// A project's AGENTS.md as read from disk.
#[derive(Debug, Clone, PartialEq, Eq)]
pub enum AgentsContent {
    Missing,
    Loaded(String),
    Error(String),
}

pub open spec fn agents_body_spec(content: AgentsContent) -> Seq<char> {
    match content {
        AgentsContent::Missing => "No AGENTS.md found"@,
        AgentsContent::Loaded(text) => text@,
        AgentsContent::Error(err) => "Read error: "@ + err@,
    }
}

/// The text of the AGENTS.md pane.
pub fn agents_body(content: &AgentsContent) -> (r: String)
    ensures
        r@ == agents_body_spec(*content),
{
    match content {
        AgentsContent::Missing => owned("No AGENTS.md found"),
        AgentsContent::Loaded(text) => text.clone(),
        AgentsContent::Error(err) => concat("Read error: ", err.as_str()),
    }
}

pub open spec fn read_error_spec(path: Seq<char>, err: Seq<char>) -> Seq<char> {
    "failed to read "@ + path + ": "@ + err
}

/// The outcome of reading AGENTS.md: absent, its text, or why it could not be read.
pub fn agents_from_read(exists: bool, read: Result<String, String>, path: &str) -> (r: AgentsContent)
    ensures
        !exists ==> r == AgentsContent::Missing,
        exists ==> match read {
            Ok(text) => r == AgentsContent::Loaded(text),
            Err(e) => r matches AgentsContent::Error(m) && m@ == read_error_spec(path@, e@),
        },
{
    if !exists {
        return AgentsContent::Missing;
    }
    match read {
        Ok(text) => AgentsContent::Loaded(text),
        Err(e) => {
            let mut m = concat("failed to read ", path);
            crate::text::push_str(&mut m, ": ");
            crate::text::push_str(&mut m, e.as_str());
            AgentsContent::Error(m)
        },
    }
}

} // verus!
