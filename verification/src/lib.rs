pub mod color;
pub mod config;
pub mod keys;
pub mod pp7;
pub mod resolver;
pub mod sync;
