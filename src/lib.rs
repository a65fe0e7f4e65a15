//! Cleans up music metadata (artist, album and track titles) by applying
//! ordered lists of regular-expression rewrite rules until the text settles.
//!
//! [`rules`] holds the rule type and the predefined rule lists; [`filters`]
//! holds the engine that applies a list of rules to a text.

pub mod filters;
pub mod rules;
