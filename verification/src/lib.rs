//! Paginated retrieval of an author's profile and publication list from a
//! citation-search service: a tolerant model of one response page, the merge
//! of successive pages into one snapshot, and the decisions of the fetch loop.
//!
//! The crate performs no input or output. It parses response bodies, says
//! which request comes next, and hands back the merged snapshot; a caller
//! sends the requests.

pub mod author_info;
pub mod config;
pub mod decimal;
pub mod decode;
pub mod error;
pub mod json;
pub mod model;
pub mod pager;
pub mod run;
pub mod show;
