//! A call-coalescing ("single-flight") primitive.
//!
//! Given a class of logically identical, expensive operations identified by a
//! string key, a [`Group`] guarantees that at most one execution of a given
//! key is in flight at any time, and that every caller requesting that key
//! while an execution is in flight receives the outcome of the execution that
//! actually ran, without re-running the work.

pub mod chan;
pub mod group;
pub mod outcome;
pub mod registry;

pub use group::Group;

pub use registry::Call;
pub use registry::Registry;
pub use registry::Role;
pub use outcome::Delivery;
pub use outcome::Failure;
pub use outcome::RoundMsg;
