use vstd::prelude::*;

verus! {

/// One todo item of a project.
#[derive(Debug, Clone, PartialEq, Eq)]
pub struct Todo {
    pub id: i64,
    pub project_id: i64,
    pub title: String,
    pub done: bool,
    pub sort_order: i64,
    pub created_at: String,
    pub updated_at: String,
}

impl Todo {
    /// A field-by-field copy.
    pub fn duplicate(&self) -> (r: Todo)
        ensures
            r == *self,
    {
        Todo {
            id: self.id,
            project_id: self.project_id,
            title: self.title.clone(),
            done: self.done,
            sort_order: self.sort_order,
            created_at: self.created_at.clone(),
            updated_at: self.updated_at.clone(),
        }
    }
}

} // verus!
