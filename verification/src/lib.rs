pub mod cli_custom;
pub mod config;
pub mod segments;
pub mod utils;
