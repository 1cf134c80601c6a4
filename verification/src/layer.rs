//! Compilation of an instruction stream into the primitives of a layer.

pub mod apertures;
pub mod emit;
pub mod laws;
pub mod machine;
pub mod macros;
pub mod primitives;

pub use apertures::{ApertureKind, BlockAperture, Diagnostic};
pub use primitives::{
    ArcGerberPrimitive, CircleGerberPrimitive, GerberPolygon, GerberPrimitive, LineGerberPrimitive,
    PolygonGeometry, PolygonGerberPrimitive, RectangleGerberPrimitive, WithBoundingBox,
};

use std::sync::Arc;
use vstd::prelude::*;
use crate::commands::Command;
use crate::geometry::bounding_box::BoundingBox;
use crate::layer::apertures::{aperture_table, collect_definitions, definitions};
use crate::layer::machine::{initial_state, run, run_machine, MachineModel};
use crate::layer::primitives::{
    boxes_union, layer_box, lemma_boxes_union_contains, models, primitive_box, share,
    PrimitiveModel,
};

verus! {

/// The number of steps [`GerberLayer::new`] allows an execution.
pub const DEFAULT_STEP_LIMIT: u64 = 1_000_000_000;

/// The state in which the execution of `commands` ends when it is allowed `limit` steps.
pub open spec fn compiled(commands: Seq<Command>, limit: nat) -> MachineModel {
    run(commands, aperture_table(commands), initial_state(), limit)
}

/// The primitives `commands` compile to, in the order in which they are drawn.
pub open spec fn compiled_primitives(commands: Seq<Command>, limit: nat) -> Seq<PrimitiveModel> {
    compiled(commands, limit).primitives
}

/// What the compilation of `commands` reports: first what the scan for
/// definitions met, then what execution met.
pub open spec fn compiled_diagnostics(commands: Seq<Command>, limit: nat) -> Seq<Diagnostic> {
    definitions(commands, commands.len() as int).diagnostics + compiled(commands, limit).diagnostics
}

/// A compiled layer: the instructions it was made from, the primitives they
/// draw, and the box that holds them all.
#[derive(Debug)]
pub struct GerberLayer {
    commands: Arc<Vec<Command>>,
    step_limit: u64,
    gerber_primitives: Arc<Vec<GerberPrimitive>>,
    bounding_box: BoundingBox,
    diagnostics: Arc<Vec<Diagnostic>>,
}

impl GerberLayer {
    #[verifier::type_invariant]
    closed spec fn consistent(self) -> bool {
        &&& models(self.gerber_primitives@) == compiled_primitives(
            self.commands@,
            self.step_limit as nat,
        )
        &&& self.diagnostics@ == compiled_diagnostics(self.commands@, self.step_limit as nat)
        &&& self.bounding_box == layer_box(models(self.gerber_primitives@))
    }

    /// The instructions the layer was compiled from.
    pub closed spec fn source(&self) -> Seq<Command> {
        self.commands@
    }

    /// The number of steps the execution was allowed.
    pub closed spec fn limit(&self) -> nat {
        self.step_limit as nat
    }

    /// The primitives of the layer, as mathematical values.
    pub closed spec fn primitive_models(&self) -> Seq<PrimitiveModel> {
        models(self.gerber_primitives@)
    }

    /// The bounding box of the layer, as a mathematical value.
    pub closed spec fn bounds(&self) -> BoundingBox {
        self.bounding_box
    }

    /// What the compilation reported, as a mathematical value.
    pub closed spec fn reports(&self) -> Seq<Diagnostic> {
        self.diagnostics@
    }

    /// Compiles an instruction stream, allowing the execution `DEFAULT_STEP_LIMIT` steps.
    pub fn new(commands: Vec<Command>) -> (layer: GerberLayer)
        ensures
            layer.source() == commands@,
            layer.limit() == DEFAULT_STEP_LIMIT,
            layer.primitive_models() == compiled_primitives(commands@, DEFAULT_STEP_LIMIT as nat),
            layer.reports() == compiled_diagnostics(commands@, DEFAULT_STEP_LIMIT as nat),
            layer.bounds() == layer_box(layer.primitive_models()),
    {
        GerberLayer::with_step_limit(commands, DEFAULT_STEP_LIMIT)
    }

    /// Compiles an instruction stream, allowing the execution `limit` steps.
    pub fn with_step_limit(commands: Vec<Command>, limit: u64) -> (layer: GerberLayer)
        ensures
            layer.source() == commands@,
            layer.limit() == limit,
            layer.primitive_models() == compiled_primitives(commands@, limit as nat),
            layer.reports() == compiled_diagnostics(commands@, limit as nat),
            layer.bounds() == layer_box(layer.primitive_models()),
    {
        let (gerber_primitives, diagnostics) = GerberLayer::build_primitives(&commands, limit);
        let bounding_box = GerberLayer::calculate_bounding_box(&gerber_primitives);
        GerberLayer {
            commands: Arc::new(commands),
            step_limit: limit,
            gerber_primitives: Arc::new(gerber_primitives),
            bounding_box,
            diagnostics: Arc::new(diagnostics),
        }
    }

    /// Whether the layer has nothing to draw: its box is the empty box.
    pub fn is_empty(&self) -> (b: bool)
        ensures
            b == (self.bounds() == BoundingBox::empty()),
    {
        self.bounding_box.is_empty()
    }

    /// The box that holds every primitive of the layer; the empty box for a
    /// layer without primitives.
    pub fn bounding_box(&self) -> (b: &BoundingBox)
        ensures
            *b == self.bounds(),
            *b == layer_box(self.primitive_models()),
            forall|i: int|
                0 <= i < self.primitive_models().len() ==> b.contains(
                    primitive_box(#[trigger] self.primitive_models()[i]),
                ),
    {
        proof {
            use_type_invariant(self);
            lemma_boxes_union_contains(
                models(self.gerber_primitives@),
                models(self.gerber_primitives@).len() as int,
            );
        }
        &self.bounding_box
    }

    /// The bounding box, unless the layer has nothing to draw.
    pub fn try_bounding_box(&self) -> (b: Option<&BoundingBox>)
        ensures
            self.bounds() == BoundingBox::empty() ==> b is None,
            self.bounds() != BoundingBox::empty() ==> b == Some(&self.bounds()),
    {
        match self.is_empty() {
            true => None,
            false => Some(&self.bounding_box),
        }
    }

    /// The primitives of the layer, in the order in which they are drawn.
    pub fn primitives(&self) -> (p: &[GerberPrimitive])
        ensures
            models(p@) == self.primitive_models(),
            models(p@) == compiled_primitives(self.source(), self.limit()),
    {
        proof {
            use_type_invariant(self);
        }
        self.gerber_primitives.as_slice()
    }

    /// What the compilation met and recovered from, in the order in which it met it.
    pub fn diagnostics(&self) -> (d: &[Diagnostic])
        ensures
            d@ == self.reports(),
            d@ == compiled_diagnostics(self.source(), self.limit()),
    {
        proof {
            use_type_invariant(self);
        }
        self.diagnostics.as_slice()
    }

    /// The box of a list of primitives: the union of their boxes, and the empty
    /// box for an empty list.
    pub fn calculate_bounding_box(primitives: &Vec<GerberPrimitive>) -> (bbox: BoundingBox)
        ensures
            bbox == layer_box(models(primitives@)),
            forall|i: int|
                0 <= i < primitives@.len() ==> bbox.contains(
                    primitive_box(#[trigger] models(primitives@)[i]),
                ),
    {
        let mut bbox = BoundingBox::default();
        let mut i: usize = 0;
        while i < primitives.len()
            invariant
                i <= primitives@.len(),
                bbox == boxes_union(models(primitives@), i as int),
            decreases primitives@.len() - i,
        {
            let primitive_bbox = primitives[i].bounding_box();
            bbox.expand(&primitive_bbox);
            i = i + 1;
        }
        proof {
            lemma_boxes_union_contains(models(primitives@), primitives@.len() as int);
        }
        bbox
    }

    /// The primitives an instruction stream draws and what its compilation
    /// reports. The aperture table is built first; then the stream is executed
    /// for at most `limit` steps.
    pub fn build_primitives(commands: &Vec<Command>, limit: u64) -> (out: (
        Vec<GerberPrimitive>,
        Vec<Diagnostic>,
    ))
        ensures
            models(out.0@) == compiled_primitives(commands@, limit as nat),
            out.1@ == compiled_diagnostics(commands@, limit as nat),
    {
        let mut diagnostics: Vec<Diagnostic> = Vec::new();
        let table = collect_definitions(commands, &mut diagnostics);
        let machine = run_machine(commands, &table, limit);
        let mut reported = machine.diagnostics;
        diagnostics.append(&mut reported);
        (machine.primitives, diagnostics)
    }
}

impl Clone for GerberLayer {
    /// Another handle on the same layer: the instructions, the primitives and
    /// the diagnostics are shared, not copied.
    fn clone(&self) -> (copy: GerberLayer)
        ensures
            copy.source() == self.source(),
            copy.limit() == self.limit(),
            copy.primitive_models() == self.primitive_models(),
            copy.reports() == self.reports(),
            copy.bounds() == self.bounds(),
    {
        proof {
            use_type_invariant(self);
        }
        GerberLayer {
            commands: share(&self.commands),
            step_limit: self.step_limit,
            gerber_primitives: share(&self.gerber_primitives),
            bounding_box: self.bounding_box,
            diagnostics: share(&self.diagnostics),
        }
    }
}

/// Compiling the same instructions with the same limit gives the same
/// primitives, the same diagnostics and the same bounding box.
pub proof fn lemma_compile_deterministic(a: GerberLayer, b: GerberLayer)
    requires
        a.source() == b.source(),
        a.limit() == b.limit(),
        a.primitive_models() == compiled_primitives(a.source(), a.limit()),
        b.primitive_models() == compiled_primitives(b.source(), b.limit()),
        a.bounds() == layer_box(a.primitive_models()),
        b.bounds() == layer_box(b.primitive_models()),
    ensures
        a.primitive_models() == b.primitive_models(),
        a.bounds() == b.bounds(),
{
}

} // verus!
