pub mod timestamp;
pub mod types;
