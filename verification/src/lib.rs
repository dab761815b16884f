//! Parity-based conditional mapping for integers.

pub mod big;
pub mod machine;
pub mod mapper;
pub mod parity;

pub use big::BigValue;
pub use mapper::CombinedError;
pub use mapper::ParityMap;
pub use parity::Parity;
