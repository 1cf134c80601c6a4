//! The geometry kernel: boxes, mirroring, convexity and the affine transform.

pub mod bounding_box;
pub mod mirroring;
pub mod shapes;
pub mod transform;

pub use bounding_box::BoundingBox;
pub use mirroring::Mirroring;
pub use shapes::is_convex;
pub use transform::GerberTransform;
