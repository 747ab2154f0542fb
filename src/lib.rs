pub mod client;
pub mod date;
pub mod types;
