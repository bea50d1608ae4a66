pub mod args;
pub mod config;
pub mod engine;
pub mod render;
pub mod text;
pub mod util;
