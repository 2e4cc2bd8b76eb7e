pub mod args;
pub mod config;
pub mod parse;
