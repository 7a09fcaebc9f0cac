//! Architecture core of a feed-forward neural-network inference engine.
//!
//! The crate models network structure (an ordered sequence of layers), a
//! serializable record of that structure, and the sequential forward-pass
//! driver that threads a tensor through every layer in order. The numeric
//! kernels of the individual layer kinds (convolution arithmetic, pooling,
//! activation, normalization, dense matrix multiply) are supplied by the
//! embedding application through the [`layers::LayerBackend`] trait; this
//! crate verifies everything around them: shape propagation, rank gating,
//! cost accounting, and the lossless round trip between a live network and
//! its serializable record.

pub mod layers;
pub mod network;
pub mod tensor;

pub use layers::JSONLayer;
pub use layers::Layer;
pub use layers::LayerBackend;
pub use layers::LayerError;
pub use layers::LayerInfo;
pub use layers::LayerJson;
pub use layers::Layers;
pub use network::NNJson;
pub use network::NeuralNetwork;
pub use tensor::Tensor;
pub use tensor::TensorView;
pub use tensor::WordSeq;
