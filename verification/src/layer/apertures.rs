//! The aperture table: what every aperture code stands for.
//!
//! One scan of the instructions fills it. A definition of a standard shape is
//! stored as it is; a definition from a macro stores the primitives the macro
//! expands to; a pair of block markers stores the range of instructions
//! between them under the code of the opening marker.

use std::collections::HashMap;
use vstd::prelude::*;
use crate::commands::{
    Aperture, ApertureMacro, Circle, Command, MacroContent, MacroDecimal, Polygon, Rectangular,
};
use crate::expressions::{
    evaluate_expression, evaluate_spec, text_bytes, variable_or_zero, ExpressionEvaluationError,
    MacroContext,
};
use crate::fixed::Scalar;
use crate::layer::macros::{content_outcome, content_variables, process_content};
use crate::layer::primitives::{lemma_models_push, models, GerberPrimitive, PrimitiveModel};

verus! {

broadcast use vstd::std_specs::hash::group_hash_axioms;

/// Something the compiler met and recovered from. `index` is the position of
/// the instruction concerned.
#[derive(Debug, Copy, Clone, PartialEq, Eq, Structural)]
pub enum Diagnostic {
    /// An aperture definition names a macro that is defined nowhere.
    UnknownMacro { index: usize },
    /// A block is closed where none is open.
    UnmatchedBlockClose { index: usize },
    /// An entry of a macro has no value; it is left out.
    MacroContentFailed { index: usize, entry: usize, error: ExpressionEvaluationError },
    /// An entry of a macro is of a kind that is not supported; it is left out.
    UnsupportedMacroContent { index: usize, entry: usize },
    /// An aperture is selected that is not defined.
    UndefinedAperture { index: usize, code: i32 },
    /// A block is opened whose code does not stand for a block.
    UnresolvedBlock { index: usize },
    /// A block is closed in the course of execution.
    UnexpectedBlockClose { index: usize },
    /// A repeat is opened while one is open, or closed while none is.
    StepRepeatMismatch { index: usize },
    /// A flash inside a region; it is ignored.
    FlashInRegion { index: usize },
    /// An interpolation with an aperture that cannot draw it.
    UnsupportedInterpolation { index: usize },
    /// Execution was stopped after the allowed number of steps.
    StepLimitReached,
}

/// A block: the instructions from `start` to `end`, both included. A block
/// without instructions has `end + 1 == start`.
#[derive(Debug, Copy, Clone, PartialEq, Eq, Structural)]
pub struct BlockAperture {
    pub code: i32,
    pub start: usize,
    pub end: usize,
}

/// What an aperture code stands for.
#[derive(Debug)]
pub enum ApertureKind {
    Circle(Circle),
    Rectangle(Rectangular),
    Obround(Rectangular),
    Polygon(Polygon),
    /// The template primitives of an expanded macro, about the origin.
    Macro(Vec<GerberPrimitive>),
    Block(BlockAperture),
}

/// What an aperture code stands for, as a mathematical value.
pub enum ApertureModel {
    Circle(Circle),
    Rectangle(Rectangular),
    Obround(Rectangular),
    Polygon(Polygon),
    Macro(Seq<PrimitiveModel>),
    Block(BlockAperture),
}

impl View for ApertureKind {
    type V = ApertureModel;

    open spec fn view(&self) -> ApertureModel {
        match self {
            ApertureKind::Circle(c) => ApertureModel::Circle(*c),
            ApertureKind::Rectangle(r) => ApertureModel::Rectangle(*r),
            ApertureKind::Obround(r) => ApertureModel::Obround(*r),
            ApertureKind::Polygon(p) => ApertureModel::Polygon(*p),
            ApertureKind::Macro(primitives) => ApertureModel::Macro(models(primitives@)),
            ApertureKind::Block(b) => ApertureModel::Block(*b),
        }
    }
}

/// The models of the entries of an aperture table.
pub open spec fn table_models(table: Map<i32, ApertureKind>) -> Map<i32, ApertureModel> {
    Map::new(|code: i32| table.contains_key(code), |code: i32| table[code]@)
}

/// The index of the last definition of the macro `name` among the first `k`
/// instructions.
pub open spec fn macro_index(commands: Seq<Command>, name: Seq<char>, k: int) -> Option<int>
    decreases k,
{
    if k <= 0 {
        None
    } else {
        match commands[k - 1] {
            Command::ApertureMacro(m) => if m.name@ == name {
                Some(k - 1)
            } else {
                macro_index(commands, name, k - 1)
            },
            _ => macro_index(commands, name, k - 1),
        }
    }
}

/// The index of the last definition of the macro `name`, wherever it stands.
pub fn find_macro(commands: &Vec<Command>, name: &String) -> (r: Option<usize>)
    ensures
        match r {
            Some(i) => macro_index(commands@, name@, commands@.len() as int) == Some(i as int)
                && i < commands@.len() && commands@[i as int] is ApertureMacro,
            None => macro_index(commands@, name@, commands@.len() as int) is None,
        },
{
    let mut k: usize = commands.len();
    while k > 0
        invariant
            k <= commands@.len(),
            macro_index(commands@, name@, commands@.len() as int) == macro_index(
                commands@,
                name@,
                k as int,
            ),
        decreases k,
    {
        match &commands[k - 1] {
            Command::ApertureMacro(m) => {
                if m.name == *name {
                    return Some(k - 1);
                }
            },
            _ => {},
        }
        k = k - 1;
    }
    None
}

/// The variables after the first `k` arguments of an instantiation: argument
/// `i` (counted from one) gives its value to variable `i`, and may read the
/// variables before it. An argument without a value leaves its variable unset.
pub open spec fn seeded_variables(arguments: Seq<MacroDecimal>, k: int) -> Map<u32, Scalar>
    decreases k,
{
    if k <= 0 {
        Map::empty()
    } else {
        let before = seeded_variables(arguments, k - 1);
        if k > u32::MAX {
            before
        } else {
            match arguments[k - 1] {
                MacroDecimal::Value(v) => before.insert(k as u32, v),
                MacroDecimal::Variable(n) => before.insert(k as u32, variable_or_zero(before, n)),
                MacroDecimal::Expression(e) => match evaluate_spec(text_bytes(e@), before) {
                    Ok(v) => before.insert(k as u32, v),
                    Err(_) => before,
                },
            }
        }
    }
}

/// The variables a macro starts with: those of its arguments, or none.
pub open spec fn initial_variables(arguments: Option<Vec<MacroDecimal>>) -> Map<u32, Scalar> {
    match arguments {
        Some(a) => seeded_variables(a@, a@.len() as int),
        None => Map::empty(),
    }
}

/// The variables after the first `k` entries of a macro body.
pub open spec fn variables_after(content: Seq<MacroContent>, start: Map<u32, Scalar>, k: int)
    -> Map<u32, Scalar>
    decreases k,
{
    if k <= 0 {
        start
    } else {
        content_variables(content[k - 1], variables_after(content, start, k - 1))
    }
}

/// The primitives of the first `k` entries of a macro body, in order. An entry
/// that yields nothing or fails contributes nothing.
pub open spec fn templates(content: Seq<MacroContent>, start: Map<u32, Scalar>, k: int) -> Seq<
    PrimitiveModel,
>
    decreases k,
{
    if k <= 0 {
        Seq::empty()
    } else {
        let before = templates(content, start, k - 1);
        match content_outcome(content[k - 1], variables_after(content, start, k - 1)) {
            Ok(Some(p)) => before.push(p),
            _ => before,
        }
    }
}

/// The diagnostic that entry `entry` of the macro instantiated at `index` gives
/// rise to, if any.
pub open spec fn content_diagnostic(
    content: MacroContent,
    variables: Map<u32, Scalar>,
    index: usize,
    entry: usize,
) -> Option<Diagnostic> {
    match content {
        MacroContent::Moire => Some(Diagnostic::UnsupportedMacroContent { index, entry }),
        MacroContent::Thermal => Some(Diagnostic::UnsupportedMacroContent { index, entry }),
        _ => match content_outcome(content, variables) {
            Err(error) => Some(Diagnostic::MacroContentFailed { index, entry, error }),
            Ok(_) => None,
        },
    }
}

/// The diagnostics of the first `k` entries of a macro body, in order.
pub open spec fn template_diagnostics(
    content: Seq<MacroContent>,
    start: Map<u32, Scalar>,
    index: usize,
    k: int,
) -> Seq<Diagnostic>
    decreases k,
{
    if k <= 0 {
        Seq::empty()
    } else {
        let before = template_diagnostics(content, start, index, k - 1);
        match content_diagnostic(
            content[k - 1],
            variables_after(content, start, k - 1),
            index,
            (k - 1) as usize,
        ) {
            Some(d) => before.push(d),
            None => before,
        }
    }
}

fn seed_context(arguments: &Option<Vec<MacroDecimal>>) -> (context: MacroContext)
    ensures
        context@ == initial_variables(*arguments),
{
    let mut context = MacroContext::new();
    match arguments {
        None => {},
        Some(list) => {
            let mut i: usize = 0;
            while i < list.len()
                invariant
                    i <= list@.len(),
                    context@ == seeded_variables(list@, i as int),
                decreases list@.len() - i,
            {
                if i < 0xffff_ffff {
                    let number: u32 = (i + 1) as u32;
                    match &list[i] {
                        MacroDecimal::Value(v) => {
                            let _ = context.put(number, *v);
                        },
                        MacroDecimal::Variable(n) => {
                            let v = context.get(n);
                            let _ = context.put(number, v);
                        },
                        MacroDecimal::Expression(e) => {
                            match evaluate_expression(e.as_str(), &context) {
                                Ok(v) => {
                                    let _ = context.put(number, v);
                                },
                                Err(_) => {},
                            }
                        },
                    }
                }
                i = i + 1;
            }
        },
    }
    context
}

/// The template primitives of the macro `definition` instantiated with
/// `arguments` by the aperture definition at `index`.
pub fn expand_macro(
    definition: &ApertureMacro,
    arguments: &Option<Vec<MacroDecimal>>,
    index: usize,
    diagnostics: &mut Vec<Diagnostic>,
) -> (primitives: Vec<GerberPrimitive>)
    ensures
        models(primitives@) == templates(
            definition.content@,
            initial_variables(*arguments),
            definition.content@.len() as int,
        ),
        final(diagnostics)@ == old(diagnostics)@ + template_diagnostics(
            definition.content@,
            initial_variables(*arguments),
            index,
            definition.content@.len() as int,
        ),
{
    let mut context = seed_context(arguments);
    let ghost start = context@;
    let ghost earlier = diagnostics@;
    let mut primitives: Vec<GerberPrimitive> = Vec::new();
    let mut k: usize = 0;
    proof {
        assert(models(primitives@) =~= templates(definition.content@, start, 0));
        assert(diagnostics@ =~= earlier + template_diagnostics(definition.content@, start, index, 0));
    }
    while k < definition.content.len()
        invariant
            k <= definition.content@.len(),
            context@ == variables_after(definition.content@, start, k as int),
            models(primitives@) == templates(definition.content@, start, k as int),
            diagnostics@ == earlier + template_diagnostics(
                definition.content@,
                start,
                index,
                k as int,
            ),
        decreases definition.content@.len() - k,
    {
        let content = &definition.content[k];
        let ghost before = primitives@;
        let ghost reported = template_diagnostics(definition.content@, start, index, k as int);
        let unsupported: bool = match content {
            MacroContent::Moire => true,
            MacroContent::Thermal => true,
            _ => false,
        };
        match process_content(content, &mut context) {
            Err(error) => {
                diagnostics.push(Diagnostic::MacroContentFailed { index, entry: k, error });
                proof {
                    assert(diagnostics@ =~= earlier + reported.push(
                        Diagnostic::MacroContentFailed { index, entry: k, error },
                    ));
                }
            },
            Ok(Some(primitive)) => {
                proof {
                    lemma_models_push(before, primitive);
                }
                primitives.push(primitive);
            },
            Ok(None) => {
                if unsupported {
                    diagnostics.push(Diagnostic::UnsupportedMacroContent { index, entry: k });
                    proof {
                        assert(diagnostics@ =~= earlier + reported.push(
                            Diagnostic::UnsupportedMacroContent { index, entry: k },
                        ));
                    }
                }
            },
        }
        k = k + 1;
    }
    primitives
}

/// A block marker that has been opened and not yet closed.
#[derive(Debug, Copy, Clone, PartialEq, Eq, Structural)]
pub struct BlockStart {
    pub code: i32,
    /// The index of the opening marker.
    pub start: usize,
}

/// What the scan for definitions knows after some instructions.
pub struct DefinitionsModel {
    pub apertures: Map<i32, ApertureModel>,
    /// The blocks that are open, the innermost last.
    pub open_blocks: Seq<BlockStart>,
    pub diagnostics: Seq<Diagnostic>,
}

/// What a definition of a standard shape stores; `None` for a definition from a macro.
pub open spec fn standard_model(aperture: Aperture) -> Option<ApertureModel> {
    match aperture {
        Aperture::Circle(c) => Some(ApertureModel::Circle(c)),
        Aperture::Rectangle(r) => Some(ApertureModel::Rectangle(r)),
        Aperture::Obround(r) => Some(ApertureModel::Obround(r)),
        Aperture::Polygon(p) => Some(ApertureModel::Polygon(p)),
        Aperture::Macro(_, _) => None,
    }
}

/// The effect of an aperture definition from the macro `name`: the macro of
/// that name defined last in the whole stream is expanded, and where there is
/// none the definition is reported and dropped.
pub open spec fn define_from_macro(
    commands: Seq<Command>,
    st: DefinitionsModel,
    index: int,
    code: i32,
    name: Seq<char>,
    arguments: Option<Vec<MacroDecimal>>,
) -> DefinitionsModel {
    match macro_index(commands, name, commands.len() as int) {
        Some(m) => match commands[m] {
            Command::ApertureMacro(definition) => DefinitionsModel {
                apertures: st.apertures.insert(
                    code,
                    ApertureModel::Macro(
                        templates(
                            definition.content@,
                            initial_variables(arguments),
                            definition.content@.len() as int,
                        ),
                    ),
                ),
                diagnostics: st.diagnostics + template_diagnostics(
                    definition.content@,
                    initial_variables(arguments),
                    index as usize,
                    definition.content@.len() as int,
                ),
                ..st
            },
            _ => st,
        },
        None => DefinitionsModel {
            diagnostics: st.diagnostics.push(Diagnostic::UnknownMacro { index: index as usize }),
            ..st
        },
    }
}

/// The effect of instruction `index` on the scan for definitions.
pub open spec fn definitions_step(commands: Seq<Command>, st: DefinitionsModel, index: int)
    -> DefinitionsModel {
    match commands[index] {
        Command::ApertureBlockOpen { code } => DefinitionsModel {
            open_blocks: st.open_blocks.push(BlockStart { code, start: index as usize }),
            ..st
        },
        Command::ApertureBlockClose => if st.open_blocks.len() > 0 {
            let opened = st.open_blocks.last();
            DefinitionsModel {
                apertures: st.apertures.insert(
                    opened.code,
                    ApertureModel::Block(
                        BlockAperture {
                            code: opened.code,
                            start: (opened.start + 1) as usize,
                            end: (index - 1) as usize,
                        },
                    ),
                ),
                open_blocks: st.open_blocks.drop_last(),
                ..st
            }
        } else {
            DefinitionsModel {
                diagnostics: st.diagnostics.push(
                    Diagnostic::UnmatchedBlockClose { index: index as usize },
                ),
                ..st
            }
        },
        Command::ApertureDefinition(definition) => match definition.aperture {
            Aperture::Macro(name, arguments) => define_from_macro(
                commands,
                st,
                index,
                definition.code,
                name@,
                arguments,
            ),
            _ => DefinitionsModel {
                apertures: st.apertures.insert(
                    definition.code,
                    standard_model(definition.aperture).unwrap(),
                ),
                ..st
            },
        },
        _ => st,
    }
}

/// What the scan for definitions knows after the first `k` instructions.
pub open spec fn definitions(commands: Seq<Command>, k: int) -> DefinitionsModel
    decreases k,
{
    if k <= 0 {
        DefinitionsModel {
            apertures: Map::empty(),
            open_blocks: Seq::empty(),
            diagnostics: Seq::empty(),
        }
    } else {
        definitions_step(commands, definitions(commands, k - 1), k - 1)
    }
}

/// The aperture table of an instruction stream.
pub open spec fn aperture_table(commands: Seq<Command>) -> Map<i32, ApertureModel> {
    definitions(commands, commands.len() as int).apertures
}

/// Every block that is open after `k` instructions was opened before instruction `k`.
pub proof fn lemma_open_blocks_before(commands: Seq<Command>, k: int)
    requires
        0 <= k <= commands.len(),
        commands.len() <= usize::MAX,
    ensures
        forall|j: int|
            0 <= j < definitions(commands, k).open_blocks.len() ==> (#[trigger] definitions(
                commands,
                k,
            ).open_blocks[j]).start < k,
    decreases k,
{
    if k > 0 {
        lemma_open_blocks_before(commands, k - 1);
        let before = definitions(commands, k - 1);
        let after = definitions(commands, k);
        assert(after == definitions_step(commands, before, k - 1));
        assert forall|j: int| 0 <= j < after.open_blocks.len() implies (
        #[trigger] after.open_blocks[j]).start < k by {
            if j < before.open_blocks.len() {
                assert(before.open_blocks[j].start < k - 1);
                assert(after.open_blocks[j] == before.open_blocks[j]);
            }
        }
    }
}

/// Whether every block of a table ends before the last of `len` instructions:
/// the marker that closes it follows its last instruction.
pub open spec fn blocks_within(apertures: Map<i32, ApertureModel>, len: int) -> bool {
    forall|code: i32| #[trigger]
        apertures.contains_key(code) ==> (apertures[code] matches ApertureModel::Block(b) ==> b.end
            + 1 < len)
}

/// The blocks found among the first `k` instructions end before instruction `k`.
pub proof fn lemma_blocks_within(commands: Seq<Command>, k: int)
    requires
        0 <= k <= commands.len(),
        commands.len() <= usize::MAX,
    ensures
        blocks_within(definitions(commands, k).apertures, k),
    decreases k,
{
    if k > 0 {
        lemma_blocks_within(commands, k - 1);
        lemma_open_blocks_before(commands, k - 1);
        let before = definitions(commands, k - 1);
        let after = definitions(commands, k);
        assert(after == definitions_step(commands, before, k - 1));
        assert forall|code: i32| #[trigger] after.apertures.contains_key(code) implies (
        after.apertures[code] matches ApertureModel::Block(b) ==> b.end + 1 < k) by {
            if before.apertures.contains_key(code) && after.apertures[code]
                == before.apertures[code] {
            } else {
                match commands[k - 1] {
                    Command::ApertureBlockClose => {
                        if before.open_blocks.len() > 0 {
                            assert(before.open_blocks.last().start < k - 1);
                        }
                    },
                    _ => {},
                }
            }
        }
    }
}

/// Storing an entry in a table stores its model in the table of models.
pub proof fn lemma_table_models_insert(table: Map<i32, ApertureKind>, code: i32, kind: ApertureKind)
    ensures
        table_models(table.insert(code, kind)) == table_models(table).insert(code, kind@),
{
    assert(table_models(table.insert(code, kind)) =~= table_models(table).insert(code, kind@));
}

fn standard_kind(aperture: &Aperture) -> (kind: Option<ApertureKind>)
    ensures
        match kind {
            Some(k) => standard_model(*aperture) == Some(k@),
            None => standard_model(*aperture) is None,
        },
{
    match aperture {
        Aperture::Circle(c) => Some(ApertureKind::Circle(*c)),
        Aperture::Rectangle(r) => Some(ApertureKind::Rectangle(*r)),
        Aperture::Obround(r) => Some(ApertureKind::Obround(*r)),
        Aperture::Polygon(p) => Some(ApertureKind::Polygon(*p)),
        Aperture::Macro(_, _) => None,
    }
}

/// The aperture table of an instruction stream, and what was met while building it.
pub fn collect_definitions(commands: &Vec<Command>, diagnostics: &mut Vec<Diagnostic>) -> (table:
    HashMap<i32, ApertureKind>)
    ensures
        table_models(table@) == aperture_table(commands@),
        blocks_within(table_models(table@), commands@.len() as int),
        final(diagnostics)@ == old(diagnostics)@ + definitions(
            commands@,
            commands@.len() as int,
        ).diagnostics,
{
    let ghost earlier = diagnostics@;
    let mut table: HashMap<i32, ApertureKind> = HashMap::new();
    let mut open_blocks: Vec<BlockStart> = Vec::new();
    let mut index: usize = 0;
    proof {
        assert(table_models(table@) =~= definitions(commands@, 0).apertures);
        assert(diagnostics@ =~= earlier + definitions(commands@, 0).diagnostics);
    }
    while index < commands.len()
        invariant
            index <= commands@.len(),
            table_models(table@) == definitions(commands@, index as int).apertures,
            open_blocks@ == definitions(commands@, index as int).open_blocks,
            diagnostics@ == earlier + definitions(commands@, index as int).diagnostics,
        decreases commands@.len() - index,
    {
        let ghost st = definitions(commands@, index as int);
        proof {
            lemma_open_blocks_before(commands@, index as int);
        }
        match &commands[index] {
            Command::ApertureBlockOpen { code } => {
                open_blocks.push(BlockStart { code: *code, start: index });
            },
            Command::ApertureBlockClose => {
                if open_blocks.len() > 0 {
                    let opened: BlockStart = open_blocks[open_blocks.len() - 1];
                    let block = BlockAperture {
                        code: opened.code,
                        start: opened.start + 1,
                        end: index - 1,
                    };
                    proof {
                        lemma_table_models_insert(table@, opened.code, ApertureKind::Block(block));
                    }
                    table.insert(opened.code, ApertureKind::Block(block));
                    open_blocks.pop();
                } else {
                    diagnostics.push(Diagnostic::UnmatchedBlockClose { index });
                    proof {
                        assert(diagnostics@ =~= earlier + st.diagnostics.push(
                            Diagnostic::UnmatchedBlockClose { index },
                        ));
                    }
                }
            },
            Command::ApertureDefinition(definition) => {
                match &definition.aperture {
                    Aperture::Macro(name, arguments) => {
                        match find_macro(commands, name) {
                            Some(m) => {
                                match &commands[m] {
                                    Command::ApertureMacro(macro_definition) => {
                                        let ghost reported = diagnostics@;
                                        let primitives = expand_macro(
                                            macro_definition,
                                            arguments,
                                            index,
                                            diagnostics,
                                        );
                                        proof {
                                            lemma_table_models_insert(
                                                table@,
                                                definition.code,
                                                ApertureKind::Macro(primitives),
                                            );
                                            let added = template_diagnostics(
                                                macro_definition.content@,
                                                initial_variables(*arguments),
                                                index,
                                                macro_definition.content@.len() as int,
                                            );
                                            assert(diagnostics@ =~= earlier + (st.diagnostics
                                                + added));
                                        }
                                        table.insert(definition.code, ApertureKind::Macro(primitives));
                                    },
                                    _ => {},
                                }
                            },
                            None => {
                                diagnostics.push(Diagnostic::UnknownMacro { index });
                                proof {
                                    assert(diagnostics@ =~= earlier + st.diagnostics.push(
                                        Diagnostic::UnknownMacro { index },
                                    ));
                                }
                            },
                        }
                    },
                    _ => {
                        match standard_kind(&definition.aperture) {
                            Some(kind) => {
                                proof {
                                    lemma_table_models_insert(table@, definition.code, kind);
                                }
                                table.insert(definition.code, kind);
                            },
                            None => {},
                        }
                    },
                }
            },
            _ => {},
        }
        index = index + 1;
    }
    proof {
        lemma_blocks_within(commands@, commands@.len() as int);
    }
    table
}

} // verus!
