pub mod common;
pub mod modules;
