//! HTTP request methods: a closed set of nine verbs, their canonical text,
//! case-insensitive parsing and the "safe" classification.

pub mod method;

pub use method::{Error, Method};
