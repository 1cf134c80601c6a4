//! What holds of every compiled layer.

use vstd::prelude::*;
use crate::commands::{Command, MacroContent};
use crate::fixed::Scalar;
use crate::layer::apertures::{
    aperture_table, definitions, definitions_step, templates, variables_after, ApertureModel,
};
use crate::layer::emit::{
    arc_stroke, macro_flash, obround_flash, placed, polygon_flash, region_polygon,
};
use crate::layer::machine::{after_return, execute, initial_state, run, MachineModel};
use crate::layer::macros::{
    center_line_content, circle_content, content_outcome, outline_content, polygon_content,
    vector_line_content,
};
use crate::layer::primitives::{lemma_stored_winding, polygon_model, PrimitiveModel};
use crate::layer::compiled_primitives;
use crate::spacial::Position;
use crate::types::{winding_of, Exposure, Winding};

verus! {

/// Whether a primitive, if it is a polygon, stores its vertices counter-clockwise.
pub open spec fn wound(p: PrimitiveModel) -> bool {
    p matches PrimitiveModel::Polygon(m) ==> winding_of(m.vertices) == Winding::CounterClockwise
}

/// Whether every polygon of a list stores its vertices counter-clockwise.
pub open spec fn all_wound(primitives: Seq<PrimitiveModel>) -> bool {
    forall|i: int| 0 <= i < primitives.len() ==> wound(#[trigger] primitives[i])
}

/// Whether every macro of an aperture table has only such polygons among its templates.
pub open spec fn table_wound(apertures: Map<i32, ApertureModel>) -> bool {
    forall|code: i32| #[trigger]
        apertures.contains_key(code) ==> (apertures[code] matches ApertureModel::Macro(t)
            ==> all_wound(t))
}

/// Every polygon made from an outline stores its vertices counter-clockwise.
proof fn lemma_polygon_models_wound()
    ensures
        forall|c: Position, v: Seq<Position>, e: Exposure|
            wound(PrimitiveModel::Polygon(#[trigger] polygon_model(c, v, e))),
{
    assert forall|c: Position, v: Seq<Position>, e: Exposure|
        wound(PrimitiveModel::Polygon(#[trigger] polygon_model(c, v, e))) by {
        lemma_stored_winding(v);
    }
}

proof fn lemma_content_wound(content: MacroContent, variables: Map<u32, Scalar>)
    ensures
        content_outcome(content, variables) matches Ok(Some(p)) ==> wound(p),
{
    reveal(circle_content);
    reveal(vector_line_content);
    reveal(center_line_content);
    reveal(outline_content);
    reveal(polygon_content);
    lemma_polygon_models_wound();
}

proof fn lemma_templates_wound(content: Seq<MacroContent>, start: Map<u32, Scalar>, k: int)
    ensures
        all_wound(templates(content, start, k)),
    decreases k,
{
    if k > 0 {
        lemma_templates_wound(content, start, k - 1);
        lemma_content_wound(content[k - 1], variables_after(content, start, k - 1));
    }
}

proof fn lemma_definitions_wound(commands: Seq<Command>, k: int)
    ensures
        table_wound(definitions(commands, k).apertures),
    decreases k,
{
    if k > 0 {
        lemma_definitions_wound(commands, k - 1);
        let before = definitions(commands, k - 1);
        let after = definitions(commands, k);
        assert(after == definitions_step(commands, before, k - 1));
        assert forall|code: i32| #[trigger] after.apertures.contains_key(code) implies (
        after.apertures[code] matches ApertureModel::Macro(t) ==> all_wound(t)) by {
            if before.apertures.contains_key(code) && after.apertures[code]
                == before.apertures[code] {
            } else {
                match after.apertures[code] {
                    ApertureModel::Macro(t) => {
                        assert forall|content: Seq<MacroContent>, start: Map<u32, Scalar>, n: int|
                            all_wound(#[trigger] templates(content, start, n)) by {
                            lemma_templates_wound(content, start, n);
                        }
                    },
                    _ => {},
                }
            }
        }
    }
}

/// Moving a template to the point of a flash leaves its vertices as they are.
proof fn lemma_macro_flash_wound(t: Seq<PrimitiveModel>, at: Position)
    requires
        all_wound(t),
    ensures
        all_wound(macro_flash(t, at)),
{
    assert forall|i: int| 0 <= i < macro_flash(t, at).len() implies wound(
        #[trigger] macro_flash(t, at)[i],
    ) by {
        assert(wound(t[i]));
        assert(macro_flash(t, at)[i] == placed(t[i], at));
    }
}

/// A list of such primitives followed by another is such a list.
proof fn lemma_all_wound_concat(a: Seq<PrimitiveModel>, b: Seq<PrimitiveModel>)
    requires
        all_wound(a),
        all_wound(b),
    ensures
        all_wound(a + b),
{
    assert forall|i: int| 0 <= i < (a + b).len() implies wound(#[trigger] (a + b)[i]) by {
        if i < a.len() {
            assert((a + b)[i] == a[i]);
        } else {
            assert((a + b)[i] == b[i - a.len()]);
        }
    }
}

/// What an instruction draws follows what was drawn before, and leaves it as it was.
pub proof fn lemma_execute_extends(
    commands: Seq<Command>,
    apertures: Map<i32, ApertureModel>,
    st: MachineModel,
)
    ensures
        st.primitives.is_prefix_of(execute(commands, apertures, st).primitives),
        st.diagnostics.is_prefix_of(execute(commands, apertures, st).diagnostics),
{
    let after = execute(commands, apertures, st);
    assert(st.primitives =~= after.primitives.subrange(0, st.primitives.len() as int));
    assert(st.diagnostics =~= after.diagnostics.subrange(0, st.diagnostics.len() as int));
}

/// The primitives are drawn in a stable order: whatever has been drawn when
/// execution stands in the state `st` is the beginning of what has been drawn
/// when it ends. The same holds of what has been reported.
pub proof fn lemma_run_extends(
    commands: Seq<Command>,
    apertures: Map<i32, ApertureModel>,
    st: MachineModel,
    fuel: nat,
)
    ensures
        st.primitives.is_prefix_of(run(commands, apertures, st, fuel).primitives),
        st.diagnostics.is_prefix_of(run(commands, apertures, st, fuel).diagnostics),
    decreases fuel,
{
    let at = after_return(st, apertures);
    assert(at.primitives == st.primitives);
    assert(at.diagnostics == st.diagnostics);
    let end = run(commands, apertures, st, fuel);
    if at.index >= commands.len() {
        assert(st.primitives =~= end.primitives.subrange(0, st.primitives.len() as int));
        assert(st.diagnostics =~= end.diagnostics.subrange(0, st.diagnostics.len() as int));
    } else if fuel == 0 {
        assert(st.primitives =~= end.primitives.subrange(0, st.primitives.len() as int));
        assert(st.diagnostics =~= end.diagnostics.subrange(0, st.diagnostics.len() as int));
    } else {
        let next = execute(commands, apertures, at);
        lemma_execute_extends(commands, apertures, at);
        lemma_run_extends(commands, apertures, next, (fuel - 1) as nat);
        assert(st.primitives =~= end.primitives.subrange(0, st.primitives.len() as int));
        assert(st.diagnostics =~= end.diagnostics.subrange(0, st.diagnostics.len() as int));
    }
}

proof fn lemma_execute_wound(
    commands: Seq<Command>,
    apertures: Map<i32, ApertureModel>,
    st: MachineModel,
)
    requires
        table_wound(apertures),
        all_wound(st.primitives),
    ensures
        all_wound(execute(commands, apertures, st).primitives),
{
    lemma_polygon_models_wound();
    let after = execute(commands, apertures, st);
    assert forall|t: Seq<PrimitiveModel>, at: Position| all_wound(t) implies all_wound(
        #[trigger] macro_flash(t, at),
    ) by {
        lemma_macro_flash_wound(t, at);
    }
    assert forall|b: Seq<PrimitiveModel>| all_wound(b) implies all_wound(
        #[trigger] (st.primitives + b),
    ) by {
        lemma_all_wound_concat(st.primitives, b);
    }
    assert forall|p: PrimitiveModel| wound(p) implies all_wound(#[trigger] st.primitives.push(p)) by {
        assert forall|i: int| 0 <= i < st.primitives.push(p).len() implies wound(
            #[trigger] st.primitives.push(p)[i],
        ) by {
            if i < st.primitives.len() {
                assert(st.primitives.push(p)[i] == st.primitives[i]);
            }
        }
    }
    assert forall|a: crate::layer::primitives::ArcGerberPrimitive| all_wound(
        #[trigger] arc_stroke(a),
    ) by {
        assert forall|i: int| 0 <= i < arc_stroke(a).len() implies wound(
            #[trigger] arc_stroke(a)[i],
        ) by {}
    }
    assert forall|r: crate::commands::Rectangular, at: Position| all_wound(
        #[trigger] obround_flash(r, at),
    ) by {
        assert forall|i: int| 0 <= i < obround_flash(r, at).len() implies wound(
            #[trigger] obround_flash(r, at)[i],
        ) by {}
    }
    assert forall|v: Seq<Position>| wound(#[trigger] region_polygon(v)) by {}
    assert forall|p: crate::commands::Polygon, at: Position| wound(
        #[trigger] polygon_flash(p, at),
    ) by {}
}

proof fn lemma_run_wound(
    commands: Seq<Command>,
    apertures: Map<i32, ApertureModel>,
    st: MachineModel,
    fuel: nat,
)
    requires
        table_wound(apertures),
        all_wound(st.primitives),
    ensures
        all_wound(run(commands, apertures, st, fuel).primitives),
    decreases fuel,
{
    let at = after_return(st, apertures);
    assert(at.primitives == st.primitives);
    if at.index < commands.len() && fuel > 0 {
        lemma_execute_wound(commands, apertures, at);
        lemma_run_wound(commands, apertures, execute(commands, apertures, at), (fuel - 1) as nat);
    }
}

/// Every polygon of a compiled layer stores its vertices counter-clockwise:
/// the winding of its stored vertices is never clockwise.
pub proof fn lemma_polygons_counter_clockwise(commands: Seq<Command>, limit: nat, i: int)
    requires
        0 <= i < compiled_primitives(commands, limit).len(),
    ensures
        compiled_primitives(commands, limit)[i] matches PrimitiveModel::Polygon(m) ==> winding_of(
            m.vertices,
        ) == Winding::CounterClockwise,
{
    lemma_definitions_wound(commands, commands.len() as int);
    lemma_run_wound(commands, aperture_table(commands), initial_state(), limit);
    assert(wound(compiled_primitives(commands, limit)[i]));
}

} // verus!
