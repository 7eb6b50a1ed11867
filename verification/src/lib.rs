//! A minimal backend-agnostic data-access layer for one entity (`User`).
//!
//! The library offers two read operations, `list` and `get`-by-id, implemented
//! once per relational backend (an embedded engine and a networked engine),
//! selected at startup from a configuration token, and exposed through a
//! shared, cloneable, backend-erased handle.
//!
//! The statement text per dialect, the decoding of rows into entities, the
//! error taxonomy and the backend selection are verified here; the engines
//! themselves sit behind a thin trusted boundary, and the asynchronous
//! execution of the two fixed statements is left to the surrounding
//! application.

pub mod dialect;
pub mod entity;
pub mod errors;
pub mod repo;
pub mod select;
