//! A closed, introspectable node model for PromQL expression trees, and the
//! projection that builds it from a parser's tree without losing meaning.

pub mod duration;
pub mod error;
pub mod fidelity;
pub mod laws;
pub mod matcher;
pub mod node;
pub mod project;
pub mod source;
pub mod text;
