//! Double-word floating-point arithmetic: a numeric type built from a pair of
//! ordinary floating-point components, giving roughly twice the working
//! precision of the underlying scalar without arbitrary-precision overhead.
//!
//! The scalar type is abstracted by the [`FloatComponent`] trait, which also
//! carries the three error-free-transformation kernels the algorithms rest on.
//! The double-word type itself is [`DFloat`].

pub mod component;
pub mod dfloat;
pub mod laws;

pub use component::FloatComponent;
pub use dfloat::DFloat;
