pub mod constants;
pub mod helpers;
pub mod links;
pub mod numbers;
pub mod sorting;
pub mod text;
pub mod types;
