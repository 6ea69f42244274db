//! Counting the records of a location history that fall inside a time window.
//!
//! A location history is an ordered list of observations, each stamped with
//! the millisecond at which it was taken. The library turns the wire form of
//! such a history into instants on the UTC time line, keeps the records that
//! lie strictly inside an optional window, and words the two counts that a
//! run reports: how many records were loaded and how many passed.

pub mod filter;
pub mod instant;
pub mod location;
pub mod period;
pub mod report;
pub mod rfc3339;
pub mod timestamp;
