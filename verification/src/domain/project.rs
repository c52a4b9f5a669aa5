use vstd::prelude::*;

verus! {

/// A registered project directory.
#[derive(Debug, Clone, PartialEq, Eq)]
pub struct Project {
    pub id: i64,
    pub name: String,
    pub path: String,
    pub archived: bool,
    /// Where the project's todos live: `"db"` or `"markdown"`.
    pub todo_source: String,
    pub created_at: String,
    pub updated_at: String,
}

impl Project {
    /// A field-by-field copy.
    pub fn duplicate(&self) -> (r: Project)
        ensures
            r == *self,
    {
        Project {
            id: self.id,
            name: self.name.clone(),
            path: self.path.clone(),
            archived: self.archived,
            todo_source: self.todo_source.clone(),
            created_at: self.created_at.clone(),
            updated_at: self.updated_at.clone(),
        }
    }
}

} // verus!
