//! Execution of an instruction stream.
//!
//! The executor is a machine with a program counter. Most instructions change
//! the graphics state or draw, and pass on to the next instruction. A flash of
//! a block aperture calls the block: it saves where it stands and jumps to the
//! first instruction of the block, and the end of the block restores what was
//! saved. The marker that closes a repeat jumps back to the start of the repeat
//! until every cell of the grid has been drawn.

use std::collections::HashMap;
use vstd::prelude::*;
use crate::commands::{
    Command, CoordinateOffset, Coordinates, InterpolationMode, Operation, QuadrantMode,
};
use crate::fixed::Scalar;
use crate::layer::apertures::{
    blocks_within, table_models, ApertureKind, ApertureModel, BlockAperture, Diagnostic,
};
use crate::layer::emit::{
    arc_between, arc_between_exec, arc_stroke, circle_flash, circle_flash_exec, macro_flash,
    obround_flash, polygon_flash, polygon_flash_exec, push_arc_stroke, push_macro_flash,
    push_obround_flash, rectangle_flash, rectangle_flash_exec, region_polygon, region_polygon_exec,
    target_position, update_position,
};
use crate::layer::primitives::{
    lemma_models_push, models, GerberPrimitive, LineGerberPrimitive, PrimitiveModel,
};
use crate::spacial::{Position, Vector};
use crate::types::Exposure;

verus! {

broadcast use {vstd::std_specs::hash::group_hash_axioms, crate::fixed::group_scalar};

/// An open repeat: the grid it draws and the cell it is at.
#[derive(Debug, Copy, Clone, PartialEq, Eq, Structural)]
pub struct StepRepeatState {
    /// The current point when the repeat was opened.
    pub initial_position: Position,
    /// The first instruction of the body.
    pub start_index: usize,
    pub repeat_x: u32,
    pub repeat_y: u32,
    pub distance_x: Scalar,
    pub distance_y: Scalar,
    pub x_index: u32,
    pub y_index: u32,
}

/// What a call of a block saves.
#[derive(Debug, Copy, Clone, PartialEq, Eq, Structural)]
pub struct ReplayFrame {
    pub block: BlockAperture,
    pub initial_position: Position,
    /// The flash that called the block.
    pub initial_index: usize,
    pub initial_offset: Vector,
    pub initial_interpolation_mode: InterpolationMode,
    pub initial_quadrant_mode: QuadrantMode,
}

/// The state of the executor.
#[derive(Debug)]
pub struct Machine {
    /// The instruction to execute next.
    pub index: usize,
    /// The current point.
    pub position: Position,
    /// The code of the selected aperture, if it is defined.
    pub aperture: Option<i32>,
    /// The diameter of the circular aperture selected last.
    pub aperture_width: Scalar,
    pub interpolation: InterpolationMode,
    pub quadrant: QuadrantMode,
    /// The vertices of the region being drawn.
    pub region: Vec<Position>,
    pub in_region: bool,
    pub step_repeat: Option<StepRepeatState>,
    /// The offset of the current cell of the open repeat.
    pub step_repeat_offset: Vector,
    /// The calls of blocks that have not returned, the innermost last.
    pub replay: Vec<ReplayFrame>,
    /// The point at which the innermost block was flashed.
    pub block_offset: Vector,
    pub primitives: Vec<GerberPrimitive>,
    pub diagnostics: Vec<Diagnostic>,
}

/// The state of the executor, as a mathematical value.
pub struct MachineModel {
    pub index: usize,
    pub position: Position,
    pub aperture: Option<i32>,
    pub aperture_width: Scalar,
    pub interpolation: InterpolationMode,
    pub quadrant: QuadrantMode,
    pub region: Seq<Position>,
    pub in_region: bool,
    pub step_repeat: Option<StepRepeatState>,
    pub step_repeat_offset: Vector,
    pub replay: Seq<ReplayFrame>,
    pub block_offset: Vector,
    pub primitives: Seq<PrimitiveModel>,
    pub diagnostics: Seq<Diagnostic>,
}

impl View for Machine {
    type V = MachineModel;

    open spec fn view(&self) -> MachineModel {
        MachineModel {
            index: self.index,
            position: self.position,
            aperture: self.aperture,
            aperture_width: self.aperture_width,
            interpolation: self.interpolation,
            quadrant: self.quadrant,
            region: self.region@,
            in_region: self.in_region,
            step_repeat: self.step_repeat,
            step_repeat_offset: self.step_repeat_offset,
            replay: self.replay@,
            block_offset: self.block_offset,
            primitives: models(self.primitives@),
            diagnostics: self.diagnostics@,
        }
    }
}

/// The state in which execution starts: at the first instruction and at the
/// origin, drawing straight lines in single-quadrant mode, with nothing
/// selected, opened or drawn.
pub open spec fn initial_state() -> MachineModel {
    MachineModel {
        index: 0,
        position: Position { x: Scalar::of(0), y: Scalar::of(0) },
        aperture: None,
        aperture_width: Scalar::of(0),
        interpolation: InterpolationMode::Linear,
        quadrant: QuadrantMode::Single,
        region: Seq::empty(),
        in_region: false,
        step_repeat: None,
        step_repeat_offset: Vector { x: Scalar::of(0), y: Scalar::of(0) },
        replay: Seq::empty(),
        block_offset: Vector { x: Scalar::of(0), y: Scalar::of(0) },
        primitives: Seq::empty(),
        diagnostics: Seq::empty(),
    }
}

/// The state with the program counter on the next instruction.
pub open spec fn advanced(st: MachineModel) -> MachineModel {
    MachineModel { index: (st.index + 1) as usize, ..st }
}

/// The state with one more diagnostic.
pub open spec fn reported(st: MachineModel, d: Diagnostic) -> MachineModel {
    MachineModel { diagnostics: st.diagnostics.push(d), ..st }
}

/// The state with one more primitive.
pub open spec fn drawn(st: MachineModel, p: PrimitiveModel) -> MachineModel {
    MachineModel { primitives: st.primitives.push(p), ..st }
}

/// The offset that operations add to their coordinates: that of the current
/// cell of the repeat plus that of the innermost block.
pub open spec fn running_offset(st: MachineModel) -> Vector {
    st.step_repeat_offset.plus(st.block_offset)
}

/// What the selected aperture stands for.
pub open spec fn selected(st: MachineModel, apertures: Map<i32, ApertureModel>) -> Option<
    ApertureModel,
> {
    match st.aperture {
        Some(code) => if apertures.contains_key(code) {
            Some(apertures[code])
        } else {
            None
        },
        None => None,
    }
}

/// The return from a block whose last instruction has been passed: the point,
/// the modes and the offset are those of the call, the block is the selected
/// aperture again, and execution goes on after the flash that made the call.
pub open spec fn after_return(st: MachineModel, apertures: Map<i32, ApertureModel>)
    -> MachineModel {
    if st.replay.len() > 0 && st.index > st.replay.last().block.end {
        let frame = st.replay.last();
        MachineModel {
            position: frame.initial_position,
            interpolation: frame.initial_interpolation_mode,
            quadrant: frame.initial_quadrant_mode,
            block_offset: frame.initial_offset,
            aperture: if apertures.contains_key(frame.block.code) {
                Some(frame.block.code)
            } else {
                None
            },
            index: (frame.initial_index + 1) as usize,
            replay: st.replay.drop_last(),
            ..st
        }
    } else {
        st
    }
}

/// A marker that opens a block, met in the course of execution: the block is
/// passed over, up to and including the marker that closes it. Blocks are
/// executed only when they are flashed.
pub open spec fn block_open(st: MachineModel, apertures: Map<i32, ApertureModel>, code: i32)
    -> MachineModel {
    if apertures.contains_key(code) && apertures[code] is Block {
        MachineModel { index: (apertures[code]->Block_0.end + 2) as usize, ..st }
    } else {
        advanced(reported(st, Diagnostic::UnresolvedBlock { index: st.index }))
    }
}

/// A marker that opens a repeat. Inside a block it does nothing; elsewhere it
/// records the grid unless a repeat is open already.
pub open spec fn step_repeat_open(
    st: MachineModel,
    repeat_x: u32,
    repeat_y: u32,
    distance_x: Scalar,
    distance_y: Scalar,
) -> MachineModel {
    if st.replay.len() > 0 {
        advanced(st)
    } else if st.step_repeat is Some {
        advanced(reported(st, Diagnostic::StepRepeatMismatch { index: st.index }))
    } else {
        advanced(
            MachineModel {
                step_repeat: Some(
                    StepRepeatState {
                        initial_position: st.position,
                        start_index: (st.index + 1) as usize,
                        repeat_x,
                        repeat_y,
                        distance_x,
                        distance_y,
                        x_index: 0,
                        y_index: 0,
                    },
                ),
                ..st
            },
        )
    }
}

/// A marker that closes a repeat. The cell counter along y advances, and when
/// it runs out the counter along x does. The current point is put back where
/// the repeat was opened. While cells remain, the offset becomes that of the
/// next cell and execution jumps back to the body; after the last cell the
/// repeat is over.
pub open spec fn step_repeat_close(st: MachineModel) -> MachineModel {
    if st.replay.len() > 0 {
        advanced(st)
    } else {
        match st.step_repeat {
            None => advanced(reported(st, Diagnostic::StepRepeatMismatch { index: st.index })),
            Some(s) => {
                let wrapped = s.y_index + 1 >= s.repeat_y;
                let y = if wrapped {
                    0
                } else {
                    s.y_index + 1
                };
                let x = if wrapped {
                    s.x_index + 1
                } else {
                    s.x_index as int
                };
                if wrapped && x >= s.repeat_x {
                    advanced(
                        MachineModel {
                            position: s.initial_position,
                            step_repeat_offset: Vector { x: Scalar::of(0), y: Scalar::of(0) },
                            step_repeat: None,
                            ..st
                        },
                    )
                } else {
                    MachineModel {
                        position: s.initial_position,
                        step_repeat_offset: Vector {
                            x: Scalar::of(s.distance_x@ * x),
                            y: Scalar::of(s.distance_y@ * y),
                        },
                        step_repeat: Some(
                            StepRepeatState { x_index: x as u32, y_index: y as u32, ..s },
                        ),
                        index: s.start_index,
                        ..st
                    }
                }
            },
        }
    }
}

/// A change of region mode. Opening a region empties the vertex list. Closing
/// one draws the polygon of the vertices if there are at least three, and
/// forgets them otherwise.
pub open spec fn region_mode(st: MachineModel, enabled: bool) -> MachineModel {
    if enabled {
        advanced(MachineModel { in_region: true, region: Seq::empty(), ..st })
    } else if st.in_region && st.region.len() >= 3 {
        advanced(drawn(MachineModel { in_region: false, ..st }, region_polygon(st.region)))
    } else {
        advanced(MachineModel { in_region: false, ..st })
    }
}

/// The selection of an aperture. A circular aperture sets the stroke width; a
/// code that is not defined is reported and leaves nothing selected.
pub open spec fn select_aperture(st: MachineModel, apertures: Map<i32, ApertureModel>, code: i32)
    -> MachineModel {
    if apertures.contains_key(code) {
        advanced(
            MachineModel {
                aperture: Some(code),
                aperture_width: match apertures[code] {
                    ApertureModel::Circle(c) => c.diameter,
                    _ => st.aperture_width,
                },
                ..st
            },
        )
    } else {
        advanced(
            reported(
                MachineModel { aperture: None, ..st },
                Diagnostic::UndefinedAperture { index: st.index, code },
            ),
        )
    }
}

/// A move. Inside a region that has vertices it closes the path back to its
/// first vertex.
pub open spec fn move_to(st: MachineModel, coords: Coordinates) -> MachineModel {
    advanced(
        MachineModel {
            region: if st.in_region && st.region.len() > 0 {
                st.region.push(st.region[0])
            } else {
                st.region
            },
            position: target_position(st.position, coords, running_offset(st)),
            ..st
        },
    )
}

/// What an interpolation outside a region draws from the current point to `end`.
pub open spec fn stroke(
    st: MachineModel,
    apertures: Map<i32, ApertureModel>,
    end: Position,
    offset: Option<CoordinateOffset>,
) -> MachineModel {
    match selected(st, apertures) {
        None => st,
        Some(aperture) => match st.interpolation {
            InterpolationMode::Linear => match aperture {
                ApertureModel::Circle(c) => drawn(
                    st,
                    PrimitiveModel::Line(
                        LineGerberPrimitive {
                            start: st.position,
                            end,
                            width: c.diameter,
                            exposure: Exposure::Add,
                        },
                    ),
                ),
                _ => reported(st, Diagnostic::UnsupportedInterpolation { index: st.index }),
            },
            _ => match offset {
                Some(o) => MachineModel {
                    primitives: st.primitives + arc_stroke(
                        arc_between(
                            st.position,
                            end,
                            o,
                            st.interpolation,
                            st.quadrant,
                            st.aperture_width,
                        ),
                    ),
                    ..st
                },
                None => st,
            },
        },
    }
}

/// An interpolation. Inside a region it adds its target to the vertex list;
/// elsewhere it draws a line or an arc with the selected aperture.
pub open spec fn interpolate(
    st: MachineModel,
    apertures: Map<i32, ApertureModel>,
    coords: Coordinates,
    offset: Option<CoordinateOffset>,
) -> MachineModel {
    let end = target_position(st.position, coords, running_offset(st));
    let after = if st.in_region {
        MachineModel { region: st.region.push(end), ..st }
    } else {
        stroke(st, apertures, end, offset)
    };
    advanced(MachineModel { position: end, ..after })
}

/// The call of a block at the current point.
pub open spec fn call_block(st: MachineModel, block: BlockAperture) -> MachineModel {
    MachineModel {
        replay: st.replay.push(
            ReplayFrame {
                block,
                initial_position: st.position,
                initial_index: st.index,
                initial_offset: st.block_offset,
                initial_interpolation_mode: st.interpolation,
                initial_quadrant_mode: st.quadrant,
            },
        ),
        block_offset: Vector { x: st.position.x, y: st.position.y },
        index: block.start,
        ..st
    }
}

/// A flash. Inside a region it is ignored. Elsewhere the current point moves to
/// the target, and the selected aperture is stamped there: a macro gives its
/// templates, a standard shape its primitives, and a block is called.
pub open spec fn flash(st: MachineModel, apertures: Map<i32, ApertureModel>, coords: Coordinates)
    -> MachineModel {
    if st.in_region {
        advanced(reported(st, Diagnostic::FlashInRegion { index: st.index }))
    } else {
        let at = target_position(st.position, coords, running_offset(st));
        let moved = MachineModel { position: at, ..st };
        match selected(moved, apertures) {
            None => advanced(moved),
            Some(ApertureModel::Macro(templates)) => advanced(
                MachineModel { primitives: moved.primitives + macro_flash(templates, at), ..moved },
            ),
            Some(ApertureModel::Circle(c)) => advanced(drawn(moved, circle_flash(c, at))),
            Some(ApertureModel::Rectangle(r)) => advanced(drawn(moved, rectangle_flash(r, at))),
            Some(ApertureModel::Polygon(p)) => advanced(drawn(moved, polygon_flash(p, at))),
            Some(ApertureModel::Obround(r)) => advanced(
                MachineModel { primitives: moved.primitives + obround_flash(r, at), ..moved },
            ),
            Some(ApertureModel::Block(b)) => call_block(moved, b),
        }
    }
}

/// The effect of the instruction under the program counter.
pub open spec fn execute(
    commands: Seq<Command>,
    apertures: Map<i32, ApertureModel>,
    st: MachineModel,
) -> MachineModel {
    match commands[st.index as int] {
        Command::ApertureBlockOpen { code } => block_open(st, apertures, code),
        Command::ApertureBlockClose => advanced(
            reported(st, Diagnostic::UnexpectedBlockClose { index: st.index }),
        ),
        Command::StepAndRepeatOpen {
            repeat_x,
            repeat_y,
            distance_x,
            distance_y,
        } => step_repeat_open(st, repeat_x, repeat_y, distance_x, distance_y),
        Command::StepAndRepeatClose => step_repeat_close(st),
        Command::InterpolationMode(mode) => advanced(MachineModel { interpolation: mode, ..st }),
        Command::QuadrantMode(mode) => advanced(MachineModel { quadrant: mode, ..st }),
        Command::RegionMode(enabled) => region_mode(st, enabled),
        Command::SelectAperture(code) => select_aperture(st, apertures, code),
        Command::Operation(Operation::Move(coords)) => move_to(st, coords),
        Command::Operation(Operation::Interpolate(coords, offset)) => interpolate(
            st,
            apertures,
            coords,
            offset,
        ),
        Command::Operation(Operation::Flash(coords)) => flash(st, apertures, coords),
        Command::ApertureMacro(_) => advanced(st),
        Command::ApertureDefinition(_) => advanced(st),
        Command::Other => advanced(st),
    }
}

/// The state in which execution ends when it is given `fuel` steps. Before
/// each instruction a block that has been passed returns. Execution ends when
/// the program counter leaves the stream, and is broken off with a diagnostic
/// when the steps are used up.
pub open spec fn run(
    commands: Seq<Command>,
    apertures: Map<i32, ApertureModel>,
    st: MachineModel,
    fuel: nat,
) -> MachineModel
    decreases fuel,
{
    let at = after_return(st, apertures);
    if at.index >= commands.len() {
        at
    } else if fuel == 0 {
        reported(at, Diagnostic::StepLimitReached)
    } else {
        run(commands, apertures, execute(commands, apertures, at), (fuel - 1) as nat)
    }
}

/// Whether every call that has not returned was made by one of `len` instructions.
pub open spec fn frames_within(replay: Seq<ReplayFrame>, len: int) -> bool {
    forall|j: int| 0 <= j < replay.len() ==> (#[trigger] replay[j]).initial_index < len
}

impl Machine {
    /// Whether the state can be executed on a stream of `len` instructions.
    pub open spec fn well_formed(&self, len: int) -> bool {
        frames_within(self.replay@, len)
    }

    /// The machine in its initial state.
    pub fn new() -> (m: Machine)
        ensures
            m@ == initial_state(),
            forall|len: int| m.well_formed(len),
    {
        let m = Machine {
            index: 0,
            position: Position::origin(),
            aperture: None,
            aperture_width: Scalar::zero(),
            interpolation: InterpolationMode::Linear,
            quadrant: QuadrantMode::Single,
            region: Vec::new(),
            in_region: false,
            step_repeat: None,
            step_repeat_offset: Vector::zero(),
            replay: Vec::new(),
            block_offset: Vector::zero(),
            primitives: Vec::new(),
            diagnostics: Vec::new(),
        };
        proof {
            assert(m@.primitives =~= Seq::empty());
            assert(m@.region =~= Seq::empty());
            assert(m@.replay =~= Seq::empty());
            assert(m@.diagnostics =~= Seq::empty());
        }
        m
    }

    fn running_offset(&self) -> (v: Vector)
        ensures
            v == running_offset(self@),
    {
        self.step_repeat_offset.add(self.block_offset)
    }

    fn push_vertex(&mut self, p: Position)
        ensures
            final(self)@ == (MachineModel { region: old(self)@.region.push(p), ..old(self)@ }),
            final(self).replay@ == old(self).replay@,
    {
        self.region.push(p);
    }

    fn report(&mut self, d: Diagnostic)
        ensures
            final(self)@ == reported(old(self)@, d),
            final(self).replay@ == old(self).replay@,
            final(self).region@ == old(self).region@,
    {
        self.diagnostics.push(d);
    }

    fn draw(&mut self, p: GerberPrimitive)
        ensures
            final(self)@ == drawn(old(self)@, p@),
            final(self).replay@ == old(self).replay@,
            final(self).region@ == old(self).region@,
    {
        proof {
            lemma_models_push(self.primitives@, p);
        }
        self.primitives.push(p);
    }

    /// Returns from the innermost block if its last instruction has been passed.
    fn return_from_block(&mut self, table: &HashMap<i32, ApertureKind>, len: usize)
        requires
            old(self).well_formed(len as int),
        ensures
            final(self)@ == after_return(old(self)@, table_models(table@)),
            final(self).well_formed(len as int),
    {
        let n: usize = self.replay.len();
        if n > 0 {
            let frame: ReplayFrame = self.replay[n - 1];
            if self.index > frame.block.end {
                self.position = frame.initial_position;
                self.interpolation = frame.initial_interpolation_mode;
                self.quadrant = frame.initial_quadrant_mode;
                self.block_offset = frame.initial_offset;
                self.aperture = if table.contains_key(&frame.block.code) {
                    Some(frame.block.code)
                } else {
                    None
                };
                self.index = frame.initial_index + 1;
                self.replay.pop();
            }
        }
    }

    fn advance(&mut self, len: usize)
        requires
            old(self).index < len,
        ensures
            final(self)@ == advanced(old(self)@),
            final(self).replay@ == old(self).replay@,
            final(self).region@ == old(self).region@,
    {
        self.index = self.index + 1;
    }

    fn block_open(&mut self, table: &HashMap<i32, ApertureKind>, code: i32, len: usize)
        requires
            old(self).index < len,
            old(self).well_formed(len as int),
            blocks_within(table_models(table@), len as int),
        ensures
            final(self)@ == block_open(old(self)@, table_models(table@), code),
            final(self).well_formed(len as int),
    {
        let ghost apertures = table_models(table@);
        match table.get(&code) {
            Some(ApertureKind::Block(block)) => {
                assert(apertures.contains_key(code) && apertures[code] == ApertureModel::Block(
                    *block,
                ));
                self.index = block.end + 2;
            },
            _ => {
                self.report(Diagnostic::UnresolvedBlock { index: self.index });
                self.advance(len);
            },
        }
    }

    fn step_repeat_open(
        &mut self,
        repeat_x: u32,
        repeat_y: u32,
        distance_x: Scalar,
        distance_y: Scalar,
        len: usize,
    )
        requires
            old(self).index < len,
            old(self).well_formed(len as int),
        ensures
            final(self)@ == step_repeat_open(old(self)@, repeat_x, repeat_y, distance_x, distance_y),
            final(self).well_formed(len as int),
    {
        if self.replay.len() > 0 {
        } else if self.step_repeat.is_some() {
            self.report(Diagnostic::StepRepeatMismatch { index: self.index });
        } else {
            self.step_repeat = Some(
                StepRepeatState {
                    initial_position: self.position,
                    start_index: self.index + 1,
                    repeat_x,
                    repeat_y,
                    distance_x,
                    distance_y,
                    x_index: 0,
                    y_index: 0,
                },
            );
        }
        self.advance(len);
    }

    fn step_repeat_close(&mut self, len: usize)
        requires
            old(self).index < len,
            old(self).well_formed(len as int),
        ensures
            final(self)@ == step_repeat_close(old(self)@),
            final(self).well_formed(len as int),
    {
        if self.replay.len() > 0 {
            self.advance(len);
            return ;
        }
        match self.step_repeat {
            None => {
                self.report(Diagnostic::StepRepeatMismatch { index: self.index });
                self.advance(len);
            },
            Some(s) => {
                let next_y: u64 = s.y_index as u64 + 1;
                let wrapped: bool = next_y >= s.repeat_y as u64;
                let y: u64 = if wrapped {
                    0
                } else {
                    next_y
                };
                let x: u64 = if wrapped {
                    s.x_index as u64 + 1
                } else {
                    s.x_index as u64
                };
                self.position = s.initial_position;
                if wrapped && x >= s.repeat_x as u64 {
                    self.step_repeat_offset = Vector::zero();
                    self.step_repeat = None;
                    self.advance(len);
                } else {
                    self.step_repeat_offset = Vector {
                        x: s.distance_x.times(x as u32),
                        y: s.distance_y.times(y as u32),
                    };
                    self.step_repeat = Some(
                        StepRepeatState {
                            initial_position: s.initial_position,
                            start_index: s.start_index,
                            repeat_x: s.repeat_x,
                            repeat_y: s.repeat_y,
                            distance_x: s.distance_x,
                            distance_y: s.distance_y,
                            x_index: x as u32,
                            y_index: y as u32,
                        },
                    );
                    self.index = s.start_index;
                }
            },
        }
    }

    fn region_mode(&mut self, enabled: bool, len: usize)
        requires
            old(self).index < len,
            old(self).well_formed(len as int),
        ensures
            final(self)@ == region_mode(old(self)@, enabled),
            final(self).well_formed(len as int),
    {
        if enabled {
            self.in_region = true;
            self.region.clear();
            proof {
                assert(self.region@ =~= Seq::empty());
            }
        } else {
            if self.in_region && self.region.len() >= 3 {
                let polygon = region_polygon_exec(&self.region);
                self.in_region = false;
                self.draw(polygon);
            } else {
                self.in_region = false;
            }
        }
        self.advance(len);
    }

    fn select_aperture(&mut self, table: &HashMap<i32, ApertureKind>, code: i32, len: usize)
        requires
            old(self).index < len,
            old(self).well_formed(len as int),
        ensures
            final(self)@ == select_aperture(old(self)@, table_models(table@), code),
            final(self).well_formed(len as int),
    {
        let ghost apertures = table_models(table@);
        match table.get(&code) {
            Some(kind) => {
                assert(apertures.contains_key(code) && apertures[code] == kind@);
                self.aperture = Some(code);
                match kind {
                    ApertureKind::Circle(c) => {
                        self.aperture_width = c.diameter;
                    },
                    _ => {},
                }
            },
            None => {
                self.aperture = None;
                self.report(Diagnostic::UndefinedAperture { index: self.index, code });
            },
        }
        self.advance(len);
    }

    fn move_to(&mut self, coords: &Coordinates, len: usize)
        requires
            old(self).index < len,
            old(self).well_formed(len as int),
        ensures
            final(self)@ == move_to(old(self)@, *coords),
            final(self).well_formed(len as int),
    {
        let mut end = self.position;
        let offset = self.running_offset();
        update_position(&mut end, coords, offset);
        if self.in_region && self.region.len() > 0 {
            let first: Position = self.region[0];
            self.push_vertex(first);
        }
        self.position = end;
        self.advance(len);
    }

    fn stroke(
        &mut self,
        table: &HashMap<i32, ApertureKind>,
        end: Position,
        offset: &Option<CoordinateOffset>,
    )
        ensures
            final(self)@ == stroke(old(self)@, table_models(table@), end, *offset),
            final(self).replay@ == old(self).replay@,
            final(self).region@ == old(self).region@,
    {
        let ghost apertures = table_models(table@);
        let code = match self.aperture {
            Some(code) => code,
            None => {
                return ;
            },
        };
        let kind = match table.get(&code) {
            Some(kind) => kind,
            None => {
                return ;
            },
        };
        assert(apertures.contains_key(code) && apertures[code] == kind@);
        match self.interpolation {
            InterpolationMode::Linear => {
                match kind {
                    ApertureKind::Circle(c) => {
                        self.draw(
                            GerberPrimitive::Line(
                                LineGerberPrimitive {
                                    start: self.position,
                                    end,
                                    width: c.diameter,
                                    exposure: Exposure::Add,
                                },
                            ),
                        );
                    },
                    _ => {
                        self.report(Diagnostic::UnsupportedInterpolation { index: self.index });
                    },
                }
            },
            _ => {
                match offset {
                    Some(o) => {
                        let arc = arc_between_exec(
                            self.position,
                            end,
                            o,
                            self.interpolation,
                            self.quadrant,
                            self.aperture_width,
                        );
                        push_arc_stroke(&mut self.primitives, arc);
                    },
                    None => {},
                }
            },
        }
    }

    fn interpolate(
        &mut self,
        table: &HashMap<i32, ApertureKind>,
        coords: &Coordinates,
        offset: &Option<CoordinateOffset>,
        len: usize,
    )
        requires
            old(self).index < len,
            old(self).well_formed(len as int),
        ensures
            final(self)@ == interpolate(old(self)@, table_models(table@), *coords, *offset),
            final(self).well_formed(len as int),
    {
        let mut end = self.position;
        let running = self.running_offset();
        update_position(&mut end, coords, running);
        if self.in_region {
            self.push_vertex(end);
        } else {
            self.stroke(table, end, offset);
        }
        self.position = end;
        self.advance(len);
    }

    fn flash(&mut self, table: &HashMap<i32, ApertureKind>, coords: &Coordinates, len: usize)
        requires
            old(self).index < len,
            old(self).well_formed(len as int),
        ensures
            final(self)@ == flash(old(self)@, table_models(table@), *coords),
            final(self).well_formed(len as int),
    {
        let ghost apertures = table_models(table@);
        if self.in_region {
            self.report(Diagnostic::FlashInRegion { index: self.index });
            self.advance(len);
            return ;
        }
        let running = self.running_offset();
        update_position(&mut self.position, coords, running);
        let at: Position = self.position;
        let code = match self.aperture {
            Some(code) => code,
            None => {
                self.advance(len);
                return ;
            },
        };
        let kind = match table.get(&code) {
            Some(kind) => kind,
            None => {
                self.advance(len);
                return ;
            },
        };
        assert(apertures.contains_key(code) && apertures[code] == kind@);
        match kind {
            ApertureKind::Macro(templates) => {
                push_macro_flash(&mut self.primitives, templates, at);
                self.advance(len);
            },
            ApertureKind::Circle(c) => {
                self.draw(circle_flash_exec(c, at));
                self.advance(len);
            },
            ApertureKind::Rectangle(r) => {
                self.draw(rectangle_flash_exec(r, at));
                self.advance(len);
            },
            ApertureKind::Polygon(p) => {
                self.draw(polygon_flash_exec(p, at));
                self.advance(len);
            },
            ApertureKind::Obround(r) => {
                push_obround_flash(&mut self.primitives, r, at);
                self.advance(len);
            },
            ApertureKind::Block(block) => {
                let ghost before = self.replay@;
                self.replay.push(
                    ReplayFrame {
                        block: *block,
                        initial_position: at,
                        initial_index: self.index,
                        initial_offset: self.block_offset,
                        initial_interpolation_mode: self.interpolation,
                        initial_quadrant_mode: self.quadrant,
                    },
                );
                self.block_offset = Vector { x: at.x, y: at.y };
                self.index = block.start;
                proof {
                    assert forall|j: int| 0 <= j < self.replay@.len() implies (
                    #[trigger] self.replay@[j]).initial_index < len by {
                        if j < before.len() {
                            assert(self.replay@[j] == before[j]);
                        }
                    }
                }
            },
        }
    }

    /// Executes the instruction under the program counter.
    fn execute(&mut self, commands: &Vec<Command>, table: &HashMap<i32, ApertureKind>)
        requires
            old(self).index < commands@.len(),
            old(self).well_formed(commands@.len() as int),
            blocks_within(table_models(table@), commands@.len() as int),
        ensures
            final(self)@ == execute(commands@, table_models(table@), old(self)@),
            final(self).well_formed(commands@.len() as int),
    {
        let len: usize = commands.len();
        match &commands[self.index] {
            Command::ApertureBlockOpen { code } => {
                self.block_open(table, *code, len);
            },
            Command::ApertureBlockClose => {
                self.report(Diagnostic::UnexpectedBlockClose { index: self.index });
                self.advance(len);
            },
            Command::StepAndRepeatOpen { repeat_x, repeat_y, distance_x, distance_y } => {
                self.step_repeat_open(*repeat_x, *repeat_y, *distance_x, *distance_y, len);
            },
            Command::StepAndRepeatClose => {
                self.step_repeat_close(len);
            },
            Command::InterpolationMode(mode) => {
                self.interpolation = *mode;
                self.advance(len);
            },
            Command::QuadrantMode(mode) => {
                self.quadrant = *mode;
                self.advance(len);
            },
            Command::RegionMode(enabled) => {
                self.region_mode(*enabled, len);
            },
            Command::SelectAperture(code) => {
                self.select_aperture(table, *code, len);
            },
            Command::Operation(Operation::Move(coords)) => {
                self.move_to(coords, len);
            },
            Command::Operation(Operation::Interpolate(coords, offset)) => {
                self.interpolate(table, coords, offset, len);
            },
            Command::Operation(Operation::Flash(coords)) => {
                self.flash(table, coords, len);
            },
            Command::ApertureMacro(_) => {
                self.advance(len);
            },
            Command::ApertureDefinition(_) => {
                self.advance(len);
            },
            Command::Other => {
                self.advance(len);
            },
        }
    }
}

/// Executes an instruction stream against its aperture table, for at most
/// `limit` steps.
pub(crate) fn run_machine(commands: &Vec<Command>, table: &HashMap<i32, ApertureKind>, limit: u64) -> (m:
    Machine)
    requires
        blocks_within(table_models(table@), commands@.len() as int),
    ensures
        m@ == run(commands@, table_models(table@), initial_state(), limit as nat),
{
    let mut m = Machine::new();
    let mut fuel: u64 = limit;
    let ghost apertures = table_models(table@);
    loop
        invariant_except_break
            m.well_formed(commands@.len() as int),
            blocks_within(table_models(table@), commands@.len() as int),
            apertures == table_models(table@),
            run(commands@, apertures, m@, fuel as nat) == run(
                commands@,
                apertures,
                initial_state(),
                limit as nat,
            ),
        ensures
            m@ == run(commands@, table_models(table@), initial_state(), limit as nat),
        decreases fuel,
    {
        let ghost before = m@;
        m.return_from_block(table, commands.len());
        if m.index >= commands.len() {
            break ;
        }
        if fuel == 0 {
            m.report(Diagnostic::StepLimitReached);
            break ;
        }
        m.execute(commands, table);
        fuel = fuel - 1;
        proof {
            assert(run(commands@, apertures, before, (fuel + 1) as nat) == run(
                commands@,
                apertures,
                m@,
                fuel as nat,
            ));
        }
    }
    m
}

} // verus!
