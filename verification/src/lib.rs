pub mod api;
pub mod cli;
pub mod config;
pub mod json;
pub mod session;
pub mod text;
