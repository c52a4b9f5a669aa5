pub mod project;
pub mod todo;
