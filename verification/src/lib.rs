pub mod app;
pub mod clock;
pub mod db;
pub mod domain;
pub mod fs;
pub mod git;
pub mod launch;
pub mod numfmt;
pub mod settings;
pub mod text;
pub mod ui;
pub mod cli;
pub mod meta;
