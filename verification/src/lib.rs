//! A minimal computation-graph builder for differentiable numeric programs.
//!
//! Expressions over named external feeds and trainable constants are grown
//! into an append-only graph of operations; a pluggable numeric engine (a
//! backend) evaluates the graph, propagates gradients and applies parameter
//! updates.

/// The generic contract a numeric engine implements.
pub mod backend;
/// The graph intermediate representation: operations and node references.
pub mod graph;
/// The expression builder and the one-step training driver.
pub mod tensor;
/// A reference numeric engine over scalar machine words.
pub mod word;

pub use backend::Backend;
pub use graph::{Graph, Input, Internal, Op};
pub use tensor::Tensor;
