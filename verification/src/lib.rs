//! A transactional CRUD service layer for a hierarchical "view" entity,
//! fronted by a dynamic, parameterized SQL statement builder.
//!
//! The builder assembles SQL text with positional placeholders and a matching
//! ordered argument list; optional contributions that are absent appear in
//! neither. Untrusted input is validated into constrained domain values before
//! any statement is built, and every write is scoped by a unit of work with
//! commit-on-success / rollback-on-any-failure semantics.

pub mod builder;
pub mod errors;
pub mod laws;
pub mod parsers;
pub mod service;
pub mod text;
pub mod view;
