//! A fluent builder for regular-expression patterns.
//!
//! A [`Verex`] owns three string segments (`prefix`, `source`, `suffix`);
//! chained calls append fixed templates to one of the segments, and the
//! rendered pattern is always the concatenation `prefix + source + suffix`.
//! The terminal operations hand that pattern to the regex engine.

pub mod builder;
pub mod decimal;
pub mod engine;
pub mod laws;

pub use builder::Verex;
