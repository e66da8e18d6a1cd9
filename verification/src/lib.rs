//! The verified core of a Python binding for a compact binary token format:
//! how Python values become tokens, how tokens become Python values, and how a
//! stream decoder is fed.
pub mod tag;
pub mod token;
pub mod types;
pub mod encode;
pub mod decode;
pub mod frame;
pub mod laws;
pub mod display;
pub mod value_laws;
