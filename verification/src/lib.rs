//! The front end of a compiler for a small imperative language with scalar
//! types, arrays, structs, type aliases and functions.
//!
//! [`token`] cuts a program text into tokens. [`syntatic_analyzer`] runs a
//! table-driven shift-reduce automaton over them; each reduction runs a
//! semantic action that keeps the scopes and computes and checks the
//! types. The parsing tables are handed in. The analysis ends at the first
//! violation and says of which kind it is.

pub mod syntatic_analyzer;
pub mod text;
pub mod token;
