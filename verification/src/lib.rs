//! Borders drawn around containers: their color, width, corner radii and
//! line style.
//!
//! Every type is generic over the scalar `L` that measures lengths (logical
//! pixels) and, for [`Border`], over the color type `C`. Setters and
//! constructors accept any argument that converts into the field's type
//! (`Into`); the verified code only converts and moves these values, it
//! never computes with them.
mod convert;
pub mod radius;
pub mod style;
pub mod border;

pub use border::Border;
pub use radius::Radius;
pub use style::{Dash, Segments, Style};
