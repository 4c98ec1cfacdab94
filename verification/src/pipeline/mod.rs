//! Combinators that run a computation over streams: the decisions they make on each poll.
pub mod unzip3;
pub mod zip3;
