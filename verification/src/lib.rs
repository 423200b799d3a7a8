//! A small reverse-mode automatic-differentiation engine over scalars, and
//! the parameter containers of a feed-forward network built on it.
pub mod engine;
pub mod integer;
pub mod laws;
pub mod layer;
pub mod mlp;
pub mod neuron;

pub use layer::Layer;
pub use mlp::{InvalidTopology, MLP};
pub use neuron::Neuron;
