//! Bus-factor analysis of popular repositories.
//!
//! The crate ranks the most-starred repositories of a programming language,
//! gathers every repository's contributor list from a paginated HTTP API, and
//! reports the repositories whose development history is dominated by a single
//! contributor. All decision logic lives here and is verified; the HTTP
//! transport is supplied by the caller, which hands responses to the library
//! as plain values and performs the requests the library plans.

pub mod aggregate;
pub mod catalog;
pub mod contributors;
pub mod decode;
pub mod errors;
pub mod orchestrator;
pub mod page_link;
pub mod page_set;
pub mod paged_fetcher;
pub mod records;
