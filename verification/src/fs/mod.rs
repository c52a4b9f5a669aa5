pub mod markdown;
pub mod agents;
