//! A feed-forward neural-network engine whose weights are not private to a
//! layer but drawn, by index, from one shared pool of scalar parameters
//! ("substrate"). Weight and bias matrices are materialized by gathering the
//! pool values at the positions held in per-layer index matrices, and every
//! update step scatters gradient contributions back into the pool through the
//! substrate's own update operation, which may also reassign which slot an
//! index refers to.
//!
//! The engine is generic over the scalar type (see [`scalar::Scalar`]); the
//! verified code routes values between the pool, the dense matrices and the
//! loss history without ever inspecting them.

pub mod capability;
pub mod layer;
pub mod manifold;
pub mod matrix;
pub mod rng;
pub mod scalar;
pub mod substrate;

pub use capability::Activation;
pub use capability::Loss;
pub use capability::StopRule;
pub use layer::Layer;
pub use manifold::GradientRetention;
pub use manifold::Manifold;
pub use matrix::Matrix;
pub use scalar::Scalar;
pub use substrate::PoolSubstrate;
pub use substrate::Substrate;
