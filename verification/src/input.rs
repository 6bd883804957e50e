//! Methods for interacting with the pointer of the compositor session.

pub mod pointer;
