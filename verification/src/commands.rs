//! The instructions a layer is compiled from.
//!
//! An instruction stream is what a tokenizer hands over: aperture and macro
//! definitions, mode changes, operations and block markers, with every number
//! already a fixed-point [`Scalar`]. Lengths are in the unit of the file, angles
//! in degrees.

use vstd::prelude::*;
use crate::fixed::Scalar;

verus! {

/// A number in a macro body: a literal, the value of a variable, or an expression.
#[derive(Debug, Clone)]
pub enum MacroDecimal {
    Value(Scalar),
    Variable(u32),
    Expression(String),
}

/// Two numbers of a macro body: a point, or a length and a width.
#[derive(Debug, Clone)]
pub struct MacroPair {
    pub x: MacroDecimal,
    pub y: MacroDecimal,
}

/// A truth value in a macro body. A number stands for true when it is not zero.
#[derive(Debug, Clone)]
pub enum MacroBoolean {
    Value(bool),
    Variable(u32),
    Expression(String),
}

/// A count in a macro body.
#[derive(Debug, Clone)]
pub enum MacroInteger {
    Value(u32),
    Variable(u32),
    Expression(String),
}

/// A disc.
#[derive(Debug, Clone)]
pub struct CirclePrimitive {
    pub exposure: MacroBoolean,
    pub diameter: MacroDecimal,
    pub center: MacroPair,
    /// Rotation about the origin of the macro, in degrees.
    pub angle: Option<MacroDecimal>,
}

/// A rectangle given by the two end points of its centre line and its width.
#[derive(Debug, Clone)]
pub struct VectorLinePrimitive {
    pub exposure: MacroBoolean,
    pub width: MacroDecimal,
    pub start: MacroPair,
    pub end: MacroPair,
    pub angle: MacroDecimal,
}

/// A rectangle given by its centre, its length and its width.
#[derive(Debug, Clone)]
pub struct CenterLinePrimitive {
    pub exposure: MacroBoolean,
    /// Length along x, then width along y.
    pub dimensions: MacroPair,
    pub center: MacroPair,
    pub angle: MacroDecimal,
}

/// A closed outline given by its vertices.
#[derive(Debug, Clone)]
pub struct OutlinePrimitive {
    pub exposure: MacroBoolean,
    pub points: Vec<MacroPair>,
    pub angle: MacroDecimal,
}

/// A regular polygon.
#[derive(Debug, Clone)]
pub struct PolygonPrimitive {
    pub exposure: MacroBoolean,
    pub vertices: MacroInteger,
    pub center: MacroPair,
    pub diameter: MacroDecimal,
    pub angle: MacroDecimal,
}

/// An assignment `$number = expression` inside a macro body.
#[derive(Debug, Clone)]
pub struct VariableDefinition {
    pub number: u32,
    pub expression: String,
}

/// One entry of a macro body.
#[derive(Debug, Clone)]
pub enum MacroContent {
    Circle(CirclePrimitive),
    VectorLine(VectorLinePrimitive),
    CenterLine(CenterLinePrimitive),
    Outline(OutlinePrimitive),
    Polygon(PolygonPrimitive),
    /// Not supported; dropped with a diagnostic.
    Moire,
    /// Not supported; dropped with a diagnostic.
    Thermal,
    VariableDefinition(VariableDefinition),
    Comment,
}

/// A named macro.
#[derive(Debug, Clone)]
pub struct ApertureMacro {
    pub name: String,
    pub content: Vec<MacroContent>,
}

/// A circular aperture, with an optional round hole.
#[derive(Debug, Copy, Clone)]
pub struct Circle {
    pub diameter: Scalar,
    pub hole_diameter: Option<Scalar>,
}

/// A rectangular or obround aperture.
#[derive(Debug, Copy, Clone)]
pub struct Rectangular {
    pub x: Scalar,
    pub y: Scalar,
    pub hole_diameter: Option<Scalar>,
}

/// A regular polygon aperture.
#[derive(Debug, Copy, Clone)]
pub struct Polygon {
    pub diameter: Scalar,
    pub vertices: u8,
    /// Rotation in degrees.
    pub rotation: Option<Scalar>,
    pub hole_diameter: Option<Scalar>,
}

/// The shape an aperture definition gives to a code.
#[derive(Debug, Clone)]
pub enum Aperture {
    Circle(Circle),
    Rectangle(Rectangular),
    Obround(Rectangular),
    Polygon(Polygon),
    /// An instantiation of the named macro with the given arguments.
    Macro(String, Option<Vec<MacroDecimal>>),
}

/// The definition of the aperture `code`.
#[derive(Debug, Clone)]
pub struct ApertureDefinition {
    pub code: i32,
    pub aperture: Aperture,
}

/// The target of an operation. A coordinate that is absent keeps its current value.
#[derive(Debug, Copy, Clone)]
pub struct Coordinates {
    pub x: Option<Scalar>,
    pub y: Option<Scalar>,
}

/// The offset from the current point to the centre of an arc. An absent
/// coordinate is zero.
#[derive(Debug, Copy, Clone)]
pub struct CoordinateOffset {
    pub x: Option<Scalar>,
    pub y: Option<Scalar>,
}

/// A drawing operation.
#[derive(Debug, Copy, Clone)]
pub enum Operation {
    /// Draw from the current point to the target.
    Interpolate(Coordinates, Option<CoordinateOffset>),
    /// Go to the target without drawing.
    Move(Coordinates),
    /// Go to the target and stamp the current aperture there.
    Flash(Coordinates),
}

/// How an interpolation runs from the current point to its target.
#[derive(Debug, Copy, Clone, PartialEq, Eq, Structural)]
pub enum InterpolationMode {
    Linear,
    ClockwiseCircular,
    CounterclockwiseCircular,
}

/// Whether an arc is confined to a quarter turn.
#[derive(Debug, Copy, Clone, PartialEq, Eq, Structural)]
pub enum QuadrantMode {
    Single,
    Multi,
}

/// One instruction.
#[derive(Debug, Clone)]
pub enum Command {
    ApertureMacro(ApertureMacro),
    ApertureDefinition(ApertureDefinition),
    ApertureBlockOpen { code: i32 },
    ApertureBlockClose,
    StepAndRepeatOpen { repeat_x: u32, repeat_y: u32, distance_x: Scalar, distance_y: Scalar },
    StepAndRepeatClose,
    InterpolationMode(InterpolationMode),
    QuadrantMode(QuadrantMode),
    /// `true` opens a region, `false` closes it.
    RegionMode(bool),
    SelectAperture(i32),
    Operation(Operation),
    /// Anything the compiler has no use for: units, formats, attributes, comments.
    Other,
}

} // verus!
