//! Enrollment-triggered messaging and notification fan-out for a school
//! communication backend.
//!
//! The library holds the decisions of the backend: who may enroll, when an
//! enrollment row is written, which message is composed and to whom, which
//! messages a listing shows and in what order, and how device tokens are cut
//! into push batches. Storage, the push gateway and HTTP stay with the caller,
//! which runs the step machines of `orchestrator` and `fanout` and hands back
//! what the outside world answered.

pub mod ids;
pub mod model;
pub mod ledger;
pub mod fanout;
pub mod messages;
pub mod orchestrator;
pub mod users;
pub mod courses;
