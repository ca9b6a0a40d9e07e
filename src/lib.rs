//! Request handling rules of a multi-tenant memo and document service:
//! bearer tokens and refresh sessions, file and memo ownership checks,
//! text chunking and answer assembly.
//!
//! The functions here decide; the caller performs the database, cache,
//! object-store and vector-index work they ask for and hands back what came of it.

pub mod errors;
pub mod ids;
pub mod tokens;
pub mod auth;
pub mod text;
pub mod files;
pub mod rag;
pub mod memos;
