//! A document with a name and a value, whose commands record the state they
//! replace and put it back on `undo`.

use vstd::prelude::*;

use crate::command::{reverses, Command};

verus! {

/// A named value.
#[derive(Debug, PartialEq, Eq)]
pub struct Document {
    pub name: &'static str,
    pub value: i64,
}

impl Document {
    /// Unnamed, with value zero.
    pub fn new() -> (r: Self)
        ensures
            r == (Document { name: "", value: 0 }),
    {
        Document { name: "", value: 0 }
    }
}

/// The commands on a document. Each records, when executed, the field that it
/// replaces.
pub enum DocumentCommand {
    Rename { name: &'static str, prev_name: Option<&'static str> },
    SetValue { value: i64, prev_value: Option<i64> },
}

impl DocumentCommand {
    /// A rename to `name` that has not run yet.
    pub fn rename(name: &'static str) -> (r: Self)
        ensures
            r == (DocumentCommand::Rename { name, prev_name: None }),
    {
        DocumentCommand::Rename { name, prev_name: None }
    }

    /// An assignment of `value` that has not run yet.
    pub fn set_value(value: i64) -> (r: Self)
        ensures
            r == (DocumentCommand::SetValue { value, prev_value: None }),
    {
        DocumentCommand::SetValue { value, prev_value: None }
    }
}

impl Command<Document> for DocumentCommand {
    open spec fn can_execute(&self, target: Document) -> bool {
        true
    }

    open spec fn executed(&self, target: Document) -> (DocumentCommand, Document) {
        match self {
            DocumentCommand::Rename { name, prev_name: _ } => (
                DocumentCommand::Rename { name: *name, prev_name: Some(target.name) },
                Document { name: *name, ..target },
            ),
            DocumentCommand::SetValue { value, prev_value: _ } => (
                DocumentCommand::SetValue { value: *value, prev_value: Some(target.value) },
                Document { value: *value, ..target },
            ),
        }
    }

    /// A command can be undone only once it has recorded what it replaced.
    open spec fn can_undo(&self, target: Document) -> bool {
        match self {
            DocumentCommand::Rename { name: _, prev_name } => prev_name is Some,
            DocumentCommand::SetValue { value: _, prev_value } => prev_value is Some,
        }
    }

    open spec fn undone(&self, target: Document) -> (DocumentCommand, Document) {
        (*self, match self {
            DocumentCommand::Rename { name: _, prev_name: Some(n) } => Document { name: *n, ..target },
            DocumentCommand::SetValue { value: _, prev_value: Some(v) } => Document { value: *v, ..target },
            _ => target,
        })
    }

    fn execute(&mut self, target: &mut Document) {
        match self {
            DocumentCommand::Rename { name, prev_name } => {
                *prev_name = Some(target.name);
                target.name = *name;
            },
            DocumentCommand::SetValue { value, prev_value } => {
                *prev_value = Some(target.value);
                target.value = *value;
            },
        }
    }

    fn undo(&mut self, target: &mut Document) {
        match self {
            DocumentCommand::Rename { name: _, prev_name } => {
                if let Some(n) = prev_name {
                    target.name = *n;
                }
            },
            DocumentCommand::SetValue { value: _, prev_value } => {
                if let Some(v) = prev_value {
                    target.value = *v;
                }
            },
        }
    }
}

/// Each document command is undone by restoring what it recorded.
pub proof fn lemma_document_commands_reverse(cmd: DocumentCommand)
    ensures
        reverses::<Document, DocumentCommand>(cmd),
{
}

} // verus!
