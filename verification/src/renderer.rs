//! What a renderer is asked to show besides the shapes themselves.

use vstd::prelude::*;

verus! {

/// Options for drawing a layer.
#[derive(Debug, Clone)]
pub struct RenderConfiguration {
    /// Gives each shape a colour of its own.
    pub use_unique_shape_colors: bool,
    /// Draws the number of each shape at its centre.
    pub use_shape_numbering: bool,
    /// Draws the number of each vertex at the start of its edge.
    pub use_vertex_numbering: bool,
}

impl Default for RenderConfiguration {
    /// Nothing but the shapes.
    fn default() -> (c: RenderConfiguration)
        ensures
            !c.use_unique_shape_colors,
            !c.use_shape_numbering,
            !c.use_vertex_numbering,
    {
        RenderConfiguration {
            use_unique_shape_colors: false,
            use_shape_numbering: false,
            use_vertex_numbering: false,
        }
    }
}

} // verus!
