pub mod theme;
pub mod view;
pub mod width;
