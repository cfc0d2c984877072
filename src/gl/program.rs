use vstd::prelude::*;

use super::attribute::AttributeLocation;
use super::enums::AttributeType;

verus! {

/// The kind of primitive that a draw call assembles from its vertices.
#[derive(Clone, Copy, Debug, PartialEq, Eq, Structural)]
pub enum Primitive {
    Points,
    Lines,
    LineLoop,
    LineStrip,
    Triangles,
    TriangleStrip,
    TriangleFan,
}

/// Which faces of the geometry are drawn.
#[derive(Clone, Copy, Debug, PartialEq, Eq, Structural)]
pub enum Side {
    Front,
    Back,
    Double,
}

/// The vertex order that makes a triangle front-facing.
#[derive(Clone, Copy, Debug, PartialEq, Eq, Structural)]
pub enum Winding {
    Clockwise,
    CounterClockwise,
}

/// The faces that culling removes.
#[derive(Clone, Copy, Debug, PartialEq, Eq, Structural)]
pub enum Face {
    Front,
    Back,
}

/// How a program's geometry is drawn.
#[derive(Clone, Copy, Debug, PartialEq, Eq, Structural)]
pub struct RenderOptions {
    pub primitive: Primitive,
    pub side: Side,
    /// The number of vertices drawn where the program has no index buffer.
    pub vertex_count: i32,
}

/// One call on the graphics context. Buffers are named by position: the
/// buffer of the attribute at that position, or the program's index buffer.
#[derive(Clone, Copy, Debug, PartialEq, Eq, Structural)]
pub enum GlCommand {
    UseProgram,
    BindArrayBuffer(usize),
    VertexAttribPointer { location: u32, size: i32 },
    EnableVertexAttribArray(u32),
    BindElementArrayBuffer,
    EnableCullFace,
    DisableCullFace,
    FrontFace(Winding),
    CullFace(Face),
    DrawElements { mode: Primitive, count: i32 },
    DrawArrays { mode: Primitive, first: i32, count: i32 },
}

impl GlCommand {
    pub open spec fn is_draw_call(self) -> bool {
        self is DrawElements || self is DrawArrays
    }
}

/// Why a program could not be built, with the log that the context gave.
#[derive(Clone, Debug, PartialEq, Eq)]
pub enum ProgramError {
    ShaderCompileError(String),
    ProgramLinkError(String),
}

impl ProgramError {
    pub open spec fn spec_log(self) -> Seq<char> {
        match self {
            ProgramError::ShaderCompileError(log) => log@,
            ProgramError::ProgramLinkError(log) => log@,
        }
    }
}

/// The stages of building a program, in order.
#[derive(Clone, Copy, Debug, PartialEq, Eq, Structural)]
pub enum BuildStep {
    CompileVertex,
    CompileFragment,
    Link,
    Linked,
}

impl BuildStep {
    pub open spec fn spec_next(self) -> BuildStep {
        match self {
            BuildStep::CompileVertex => BuildStep::CompileFragment,
            BuildStep::CompileFragment => BuildStep::Link,
            BuildStep::Link => BuildStep::Linked,
            BuildStep::Linked => BuildStep::Linked,
        }
    }

    pub open spec fn is_compile(self) -> bool {
        self is CompileVertex || self is CompileFragment
    }
}

/// What the context reported on one stage: whether it could create the
/// shader or program object, whether the stage succeeded, and its log.
#[derive(Clone, Debug)]
pub struct StageReport {
    pub created: bool,
    pub succeeded: bool,
    pub info_log: Option<String>,
}

pub open spec fn spec_create_failure_log() -> Seq<char> {
    "Unable to create shader object"@
}

pub open spec fn spec_compile_failure_log() -> Seq<char> {
    "Unknown error creating shader"@
}

pub open spec fn spec_link_failure_log() -> Seq<char> {
    "Unknown error creating program object"@
}

/// The log that a failed stage is reported with: the context's own log
/// where it gave one, else a fixed text for the stage.
pub open spec fn spec_failure_log(step: BuildStep, report: StageReport) -> Seq<char> {
    if !report.created {
        spec_create_failure_log()
    } else {
        match report.info_log {
            Some(log) => log@,
            None => if step is Link {
                spec_link_failure_log()
            } else {
                spec_compile_failure_log()
            },
        }
    }
}

/// What a report on `step` leads to: the next step, or the error.
pub open spec fn spec_outcome(step: BuildStep, report: StageReport, r: Result<BuildStep, ProgramError>) -> bool {
    if report.created && report.succeeded {
        r == Ok::<BuildStep, ProgramError>(step.spec_next())
    } else {
        &&& r is Err
        &&& (step is Link <==> r->Err_0 is ProgramLinkError)
        &&& r->Err_0.spec_log() == spec_failure_log(step, report)
    }
}

/// A program on its way from sources to a linked program: it knows the
/// shapes of its attributes, its index count and how it is drawn, and
/// which stage the context is to run next.
pub struct ProgramBuilder {
    step: BuildStep,
    attribute_types: Vec<AttributeType>,
    index_count: Option<i32>,
    options: RenderOptions,
}

pub open spec fn spec_indices_count(indices: Option<Vec<u16>>) -> Option<i32> {
    match indices {
        Some(v) => Some(v.len() as i32),
        None => None,
    }
}

impl ProgramBuilder {
    pub closed spec fn spec_step(&self) -> BuildStep {
        self.step
    }

    pub closed spec fn spec_attribute_types(&self) -> Seq<AttributeType> {
        self.attribute_types@
    }

    pub closed spec fn spec_index_count(&self) -> Option<i32> {
        self.index_count
    }

    pub closed spec fn spec_options(&self) -> RenderOptions {
        self.options
    }

    /// Starts a build: the vertex shader is compiled first.
    pub fn new(attribute_types: Vec<AttributeType>, indices: &Option<Vec<u16>>, options: RenderOptions) -> (r: ProgramBuilder)
        requires
            indices matches Some(v) ==> v.len() <= i32::MAX,
        ensures
            r.spec_step() == BuildStep::CompileVertex,
            r.spec_attribute_types() == attribute_types@,
            r.spec_index_count() == spec_indices_count(*indices),
            r.spec_options() == options,
    {
        let index_count = match indices {
            Some(v) => Some(v.len() as i32),
            None => None,
        };
        ProgramBuilder { step: BuildStep::CompileVertex, attribute_types, index_count, options }
    }

    /// The stage that the context is to run next.
    pub fn step(&self) -> (r: BuildStep)
        ensures
            r == self.spec_step(),
    {
        self.step
    }

    /// Takes the context's report on the current stage: a stage that
    /// succeeded moves the build on; one that failed ends it with a
    /// `ShaderCompileError` (compile stages) or a `ProgramLinkError` (link).
    pub fn report(self, report: StageReport) -> (r: Result<ProgramBuilder, ProgramError>)
        requires
            self.spec_step() != BuildStep::Linked,
        ensures
            spec_outcome(
                self.spec_step(),
                report,
                match r {
                    Ok(b) => Ok(b.spec_step()),
                    Err(e) => Err(e),
                },
            ),
            r matches Ok(b) ==> {
                &&& b.spec_attribute_types() == self.spec_attribute_types()
                &&& b.spec_index_count() == self.spec_index_count()
                &&& b.spec_options() == self.spec_options()
            },
    {
        let is_link = match self.step {
            BuildStep::Link => true,
            _ => false,
        };
        if report.created && report.succeeded {
            let next = match self.step {
                BuildStep::CompileVertex => BuildStep::CompileFragment,
                BuildStep::CompileFragment => BuildStep::Link,
                _ => BuildStep::Linked,
            };
            Ok(ProgramBuilder { step: next, ..self })
        } else {
            let log = if !report.created {
                "Unable to create shader object".to_owned()
            } else {
                match report.info_log {
                    Some(log) => log,
                    None => if is_link {
                        "Unknown error creating program object".to_owned()
                    } else {
                        "Unknown error creating shader".to_owned()
                    },
                }
            };
            if is_link {
                Err(ProgramError::ProgramLinkError(log))
            } else {
                Err(ProgramError::ShaderCompileError(log))
            }
        }
    }

    /// Ends a build that linked, with the location that the linked program
    /// gave each attribute (negative where it has none).
    pub fn finish(self, locations: &Vec<i32>) -> (r: Program)
        requires
            self.spec_step() == BuildStep::Linked,
            locations.len() == self.spec_attribute_types().len(),
        ensures
            r.spec_attributes().len() == locations.len(),
            forall|i: int|
                0 <= i < locations.len() ==> r.spec_attributes()[i] == AttributeLocation::spec_resolve(
                    locations[i],
                    self.spec_attribute_types()[i],
                ),
            r.spec_index_count() == self.spec_index_count(),
            r.spec_options() == self.spec_options(),
    {
        let mut attributes: Vec<AttributeLocation> = Vec::new();
        let n = locations.len();
        for i in 0..n
            invariant
                n == locations.len(),
                n == self.attribute_types@.len(),
                attributes@.len() == i,
                forall|j: int|
                    0 <= j < i ==> attributes@[j] == AttributeLocation::spec_resolve(
                        locations[j],
                        self.attribute_types@[j],
                    ),
        {
            attributes.push(AttributeLocation::resolve(locations[i], self.attribute_types[i]));
        }
        Program { attributes, index_count: self.index_count, options: self.options }
    }
}

/// A linked program: its attributes with their locations, the number of
/// indices in its index buffer if it has one, and how it is drawn. Each
/// method returns the calls that the context is to make, in order.
pub struct Program {
    attributes: Vec<AttributeLocation>,
    index_count: Option<i32>,
    options: RenderOptions,
}

/// Binds one attribute's buffer to its location with its stride; an
/// attribute that the program does not have is left alone.
pub open spec fn spec_bind_attribute(a: AttributeLocation, slot: int) -> Seq<GlCommand> {
    match a.location {
        Some(location) => seq![
            GlCommand::BindArrayBuffer(slot as usize),
            GlCommand::VertexAttribPointer {
                location,
                size: a.attribute_type.spec_num_of_components() as i32,
            },
            GlCommand::EnableVertexAttribArray(location),
        ],
        None => seq![],
    }
}

/// The binding calls of the first `n` attributes, in order.
pub open spec fn spec_bind_attributes(attributes: Seq<AttributeLocation>, n: nat) -> Seq<GlCommand>
    decreases n,
{
    if n == 0 {
        seq![]
    } else {
        spec_bind_attributes(attributes, (n - 1) as nat) + spec_bind_attribute(
            attributes[n - 1],
            n - 1,
        )
    }
}

pub open spec fn spec_set_attributes(attributes: Seq<AttributeLocation>, index_count: Option<i32>) -> Seq<GlCommand> {
    spec_bind_attributes(attributes, attributes.len()) + if index_count is Some {
        seq![GlCommand::BindElementArrayBuffer]
    } else {
        seq![]
    }
}

/// Front: counter-clockwise triangles face the viewer and back faces are
/// culled. Back: the winding is reversed, so the other faces show. Double:
/// nothing is culled.
pub open spec fn spec_cull_commands(side: Side) -> Seq<GlCommand> {
    match side {
        Side::Front => seq![
            GlCommand::EnableCullFace,
            GlCommand::FrontFace(Winding::CounterClockwise),
            GlCommand::CullFace(Face::Back),
        ],
        Side::Back => seq![
            GlCommand::EnableCullFace,
            GlCommand::FrontFace(Winding::Clockwise),
            GlCommand::CullFace(Face::Back),
        ],
        Side::Double => seq![GlCommand::DisableCullFace],
    }
}

/// An indexed draw over all indices where there is an index buffer, else a
/// draw over the configured number of vertices.
pub open spec fn spec_draw_call(options: RenderOptions, index_count: Option<i32>) -> GlCommand {
    match index_count {
        Some(count) => GlCommand::DrawElements { mode: options.primitive, count },
        None => GlCommand::DrawArrays {
            mode: options.primitive,
            first: 0,
            count: options.vertex_count,
        },
    }
}

pub open spec fn spec_draw(options: RenderOptions, index_count: Option<i32>) -> Seq<GlCommand> {
    spec_cull_commands(options.side).push(spec_draw_call(options, index_count))
}

impl Program {
    pub closed spec fn spec_attributes(&self) -> Seq<AttributeLocation> {
        self.attributes@
    }

    pub closed spec fn spec_index_count(&self) -> Option<i32> {
        self.index_count
    }

    pub closed spec fn spec_options(&self) -> RenderOptions {
        self.options
    }

    pub fn attributes(&self) -> (r: &Vec<AttributeLocation>)
        ensures
            r@ == self.spec_attributes(),
    {
        &self.attributes
    }

    pub fn index_count(&self) -> (r: Option<i32>)
        ensures
            r == self.spec_index_count(),
    {
        self.index_count
    }

    pub fn options(&self) -> (r: RenderOptions)
        ensures
            r == self.spec_options(),
    {
        self.options
    }

    /// Binds every attribute's buffer to its location with its stride, then
    /// the index buffer if there is one.
    pub fn set_attributes(&self) -> (r: Vec<GlCommand>)
        ensures
            r@ == spec_set_attributes(self.spec_attributes(), self.spec_index_count()),
    {
        let mut commands: Vec<GlCommand> = Vec::new();
        let n = self.attributes.len();
        for i in 0..n
            invariant
                n == self.attributes@.len(),
                commands@ == spec_bind_attributes(self.attributes@, i as nat),
        {
            let a = self.attributes[i];
            match a.location {
                Some(location) => {
                    commands.push(GlCommand::BindArrayBuffer(i));
                    commands.push(
                        GlCommand::VertexAttribPointer { location, size: a.num_of_components() },
                    );
                    commands.push(GlCommand::EnableVertexAttribArray(location));
                },
                None => {},
            }
            assert(commands@ =~= spec_bind_attributes(self.attributes@, (i + 1) as nat));
        }
        if self.index_count.is_some() {
            commands.push(GlCommand::BindElementArrayBuffer);
        }
        assert(commands@ =~= spec_set_attributes(self.attributes@, self.index_count));
        commands
    }

    /// Makes the program the active one and binds its buffers.
    pub fn prepare_frame(&self) -> (r: Vec<GlCommand>)
        ensures
            r@ == seq![GlCommand::UseProgram] + spec_set_attributes(
                self.spec_attributes(),
                self.spec_index_count(),
            ),
    {
        let mut commands: Vec<GlCommand> = vec![GlCommand::UseProgram];
        let mut bindings = self.set_attributes();
        commands.append(&mut bindings);
        assert(commands@ =~= seq![GlCommand::UseProgram] + spec_set_attributes(
            self.attributes@,
            self.index_count,
        ));
        commands
    }

    /// Sets face culling for the configured side, then issues the one draw
    /// call: indexed over all indices, or over the configured vertex count.
    pub fn draw(&self) -> (r: Vec<GlCommand>)
        ensures
            r@ == spec_draw(self.spec_options(), self.spec_index_count()),
    {
        let mut commands: Vec<GlCommand> = match self.options.side {
            Side::Front => vec![
                GlCommand::EnableCullFace,
                GlCommand::FrontFace(Winding::CounterClockwise),
                GlCommand::CullFace(Face::Back),
            ],
            Side::Back => vec![
                GlCommand::EnableCullFace,
                GlCommand::FrontFace(Winding::Clockwise),
                GlCommand::CullFace(Face::Back),
            ],
            Side::Double => vec![GlCommand::DisableCullFace],
        };
        let call = match self.index_count {
            Some(count) => GlCommand::DrawElements { mode: self.options.primitive, count },
            None => GlCommand::DrawArrays {
                mode: self.options.primitive,
                first: 0,
                count: self.options.vertex_count,
            },
        };
        commands.push(call);
        assert(commands@ =~= spec_draw(self.options, self.index_count));
        commands
    }
}

/// A compile stage that fails, as on shader source that does not compile,
/// ends the build with a `ShaderCompileError` that carries the context's
/// log. No builder comes out of it, and only a builder at `Linked` can be
/// finished into a `Program`.
pub proof fn lemma_failed_compile_ends_build(
    step: BuildStep,
    report: StageReport,
    r: Result<BuildStep, ProgramError>,
)
    requires
        step.is_compile(),
        !(report.created && report.succeeded),
        spec_outcome(step, report, r),
    ensures
        r matches Err(ProgramError::ShaderCompileError(log)) && (report.created
            && report.info_log is Some ==> log@ == report.info_log->Some_0@),
{
}

/// Drawing makes exactly one draw call, as its last call. Without an index
/// buffer it draws the configured number of vertices from the first one;
/// with one it draws all of the indices.
pub proof fn lemma_draw_issues_one_call(program: Program)
    ensures
        ({
            let calls = spec_draw(program.spec_options(), program.spec_index_count());
            &&& calls.last() == spec_draw_call(program.spec_options(), program.spec_index_count())
            &&& calls.last().is_draw_call()
            &&& forall|i: int| 0 <= i < calls.len() - 1 ==> !calls[i].is_draw_call()
        }),
        program.spec_index_count() is None ==> spec_draw_call(
            program.spec_options(),
            program.spec_index_count(),
        ) == (GlCommand::DrawArrays {
            mode: program.spec_options().primitive,
            first: 0,
            count: program.spec_options().vertex_count,
        }),
        program.spec_index_count() matches Some(n) ==> spec_draw_call(
            program.spec_options(),
            program.spec_index_count(),
        ) == (GlCommand::DrawElements { mode: program.spec_options().primitive, count: n }),
{
}

} // verus!
