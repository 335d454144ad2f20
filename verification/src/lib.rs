//! Brewsty core: the state and rules of a Homebrew front end.
//!
//! The heart of the crate is the task coordinator in
//! [`presentation::services`], which tracks background work for a render
//! loop that must never block. Everything here is verified with Verus; the
//! contracts of the public functions are stated over mathematical views of
//! the data.

pub mod application;
pub mod domain;
pub mod infrastructure;
pub mod presentation;
pub mod seqs;
pub mod text;
