//! Implementations of the individual mappings.

pub mod color;
pub use color::ColorStrategy;

pub mod space;
pub use space::SpaceStrategy;
