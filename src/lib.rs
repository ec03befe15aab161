//! Value model and serialization core of a CSS minifier: typed property values,
//! their two-way mapping to tokens and text, shorthand reconstruction from
//! vendor-prefixed longhands, and transform-list printing.
pub mod number;
pub mod token;
pub mod values;
pub mod rect;
pub mod position;
pub mod matrix;
pub mod transform;
pub mod transform_laws;
pub mod prefix;
pub mod property;
pub mod outline;
pub mod border_radius;
pub mod keyframes;
