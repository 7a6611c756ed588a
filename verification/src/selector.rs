pub mod issue;
pub mod commands;
pub mod devices;
pub mod filter;
pub mod state;
