//! Plain value types that semantic tags carry.

pub mod datetime;
