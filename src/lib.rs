//! Discovery of repository mirror directives from a GitLab group.
//!
//! The library holds the decisions: which page to ask for next, how a
//! response is judged, and which projects become mirrors. Sending requests
//! and decoding JSON or YAML documents is left to the caller, who hands the
//! results back as plain values.

pub mod decimal;
pub mod gitlab;
pub mod project;

