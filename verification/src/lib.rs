//! Member abstraction and alias naming for a semantic-layer SQL planner.
//!
//! A query selects a heterogeneous set of members (measures, dimensions,
//! time dimensions, calculated expressions), each bound to a cube occurrence.
//! This crate defines the uniform capability contract every member kind
//! satisfies ([`base_member::BaseMember`]), the deterministic alias-naming
//! scheme that keeps SQL column aliases collision-free across a query, and
//! batch utilities over ordered member collections.

pub mod base_member;
pub mod error;
pub mod members;
pub mod query_tools;
pub mod sql_evaluator;
pub mod sql_templates;
pub mod visitor_context;
