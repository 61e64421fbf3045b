//! Colorimetric conversion over fixed-point scalars: RGB color spaces
//! expressed in relation to CIE XYZ, Bradford chromatic adaptation between
//! white points, and the sRGB transfer function.
//!
//! Every scalar is an `i64` holding a real value times [`fixed::SCALE`]
//! (seven decimal places). All arithmetic truncates toward zero, and every
//! operation's contract states the exact value it computes.
#![allow(non_snake_case)]

pub mod fixed;
pub mod linalg;
pub mod transfer;
pub mod space;

pub use space::Chromaticity;
pub use space::ChromaticAdaptation;
pub use space::Color;
pub use space::ColorSpace;
pub use space::ColorSpaceConverter;
pub use space::ColorSpaceError;
pub use space::TransferFunction;
pub use space::XYZ;
