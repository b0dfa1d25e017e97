//! Semantic transformer: groups related raw tags and produces typed facts.

pub mod gps;
pub mod primitive;
pub mod tag;
pub mod thumbnail;
pub mod transformer;
