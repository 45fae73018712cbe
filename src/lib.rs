//! Typed builders for the command lines of PostgreSQL's client programs,
//! a diagnostic rendering of the resulting invocations, and the decisions
//! that classify how running one of them ended.

pub mod execution;
pub mod flags;
pub mod pg_controldata;
pub mod pg_isready;
pub mod psql;
pub mod render;
pub mod traits;
