//! Probability distributions.

pub mod von_mises;

pub use self::von_mises::VonMises;
