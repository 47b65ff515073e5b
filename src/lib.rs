pub mod env;
pub mod error;
pub mod json;
pub mod rest;
pub mod vault;
