//! A compiler from Gerber instructions to drawable primitives.
//!
//! [`GerberLayer::new`] takes the instructions of one layer — aperture and
//! macro definitions, operations, blocks and repeats — and gives the primitives
//! they draw, in drawing order, with the box that holds them. All numbers are
//! fixed-point [`Scalar`]s; lengths are in the unit of the file and angles in
//! degrees.

pub mod commands;
pub mod expressions;
pub mod fixed;
pub mod geometry;
pub mod layer;
pub mod layers;
pub mod renderer;
pub mod spacial;
pub mod trig;
pub mod types;

pub use expressions::{evaluate_expression, ExpressionEvaluationError, MacroContext};
pub use fixed::Scalar;
pub use geometry::{is_convex, BoundingBox, GerberTransform, Mirroring};
pub use layer::{
    ArcGerberPrimitive, CircleGerberPrimitive, Diagnostic, GerberLayer, GerberPolygon,
    GerberPrimitive, LineGerberPrimitive, PolygonGeometry, PolygonGerberPrimitive,
    RectangleGerberPrimitive, WithBoundingBox,
};
pub use layers::{LayerInfo, LayerType};
pub use renderer::RenderConfiguration;
pub use spacial::deduplicate::DedupEpsilon;
pub use spacial::{FromTuple2, Invert, Position, Size, ToPosition, ToVector, Vector};
pub use types::{Exposure, Winding};
