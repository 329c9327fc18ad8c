//! Shader programs. A program is built by [`ShaderBuilder`], a state machine
//! that is told the driver's answer to each step (an object name, whether the
//! stage compiled or the program linked, the driver's log) and says what to
//! do next. Uniform setters take the location the driver reported for a name.
use vstd::prelude::*;
use crate::gl::{GlCommand, FRAGMENT_SHADER, TEXTURE0, TEXTURE_2D, VERTEX_SHADER};

verus! {

/// Why a shader program could not be built or a uniform could not be set.
/// Compile and link errors carry the driver's log verbatim.
#[derive(PartialEq, Eq, Debug, Clone)]
pub enum ShaderError {
    Compile(String),
    Link(String),
    UniformNotFound(String),
}

pub enum ShaderErrorView {
    Compile(Seq<char>),
    Link(Seq<char>),
    UniformNotFound(Seq<char>),
}

impl View for ShaderError {
    type V = ShaderErrorView;

    open spec fn view(&self) -> ShaderErrorView {
        match self {
            ShaderError::Compile(log) => ShaderErrorView::Compile(log@),
            ShaderError::Link(log) => ShaderErrorView::Link(log@),
            ShaderError::UniformNotFound(name) => ShaderErrorView::UniformNotFound(name@),
        }
    }
}

/// A linked shader program, by its driver name.
#[derive(Debug)]
pub struct Shader {
    program: u32,
}

pub open spec fn uniform_not_found<T>(r: Result<T, ShaderError>, name: &str) -> bool {
    r matches Err(e) && e@ == ShaderErrorView::UniformNotFound(name@)
}

impl Shader {
    pub closed spec fn name(&self) -> u32 {
        self.program
    }

    pub fn get_program(&self) -> (r: u32)
        ensures
            r == self.name(),
    {
        self.program
    }

    /// Makes the program current.
    pub fn bind(&self) -> (r: Vec<GlCommand>)
        ensures
            r@ == seq![GlCommand::UseProgram { program: Some(self.name()) }],
    {
        vec![GlCommand::UseProgram { program: Some(self.program) }]
    }

    /// Leaves no program current.
    pub fn unbind(&self) -> (r: Vec<GlCommand>)
        ensures
            r@ == seq![GlCommand::UseProgram { program: None }],
    {
        vec![GlCommand::UseProgram { program: None }]
    }

    /// The command that deletes the program; the shader is gone afterwards.
    pub fn delete(self) -> (r: GlCommand)
        ensures
            r == (GlCommand::DeleteProgram { program: self.name() }),
    {
        GlCommand::DeleteProgram { program: self.program }
    }

    fn not_found(name: &str) -> (r: ShaderError)
        ensures
            r@ == ShaderErrorView::UniformNotFound(name@),
    {
        ShaderError::UniformNotFound(String::from_str(name))
    }

    /// Sets an `int` uniform. `location` is what the driver reported for
    /// `name` in this program; the program must be current when the commands
    /// run.
    pub fn set_uniform_1i(&self, name: &str, location: Option<u32>, value: i32) -> (r: Result<
        Vec<GlCommand>,
        ShaderError,
    >)
        ensures
            location is None ==> uniform_not_found(r, name),
            location matches Some(l) ==> (r matches Ok(c) && c@ == seq![
                GlCommand::Uniform1i { location: l, x: value },
            ]),
    {
        match location {
            Some(l) => {
                let c = vec![GlCommand::Uniform1i { location: l, x: value }];
                assert(c@ =~= seq![GlCommand::Uniform1i { location: l, x: value }]);
                Ok(c)
            },
            None => Err(Shader::not_found(name)),
        }
    }

    /// Sets an `ivec2` uniform.
    pub fn set_uniform_2i(&self, name: &str, location: Option<u32>, x: i32, y: i32) -> (r: Result<
        Vec<GlCommand>,
        ShaderError,
    >)
        ensures
            location is None ==> uniform_not_found(r, name),
            location matches Some(l) ==> (r matches Ok(c) && c@ == seq![GlCommand::Uniform2i { location: l, x, y }]),
    {
        match location {
            Some(l) => {
                let c = vec![GlCommand::Uniform2i { location: l, x, y }];
                assert(c@ =~= seq![GlCommand::Uniform2i { location: l, x, y }]);
                Ok(c)
            },
            None => Err(Shader::not_found(name)),
        }
    }

    /// Sets an `ivec3` uniform.
    pub fn set_uniform_3i(&self, name: &str, location: Option<u32>, x: i32, y: i32, z: i32) -> (r: Result<
        Vec<GlCommand>,
        ShaderError,
    >)
        ensures
            location is None ==> uniform_not_found(r, name),
            location matches Some(l) ==> (r matches Ok(c) && c@ == seq![GlCommand::Uniform3i { location: l, x, y, z }]),
    {
        match location {
            Some(l) => {
                let c = vec![GlCommand::Uniform3i { location: l, x, y, z }];
                assert(c@ =~= seq![GlCommand::Uniform3i { location: l, x, y, z }]);
                Ok(c)
            },
            None => Err(Shader::not_found(name)),
        }
    }

    /// Sets a `float` uniform, given as its IEEE-754 bit pattern.
    pub fn set_uniform_1f(&self, name: &str, location: Option<u32>, value_bits: u32) -> (r: Result<
        Vec<GlCommand>,
        ShaderError,
    >)
        ensures
            location is None ==> uniform_not_found(r, name),
            location matches Some(l) ==> (r matches Ok(c) && c@ == seq![GlCommand::Uniform1f { location: l, x_bits: value_bits }]),
    {
        match location {
            Some(l) => {
                let c = vec![GlCommand::Uniform1f { location: l, x_bits: value_bits }];
                assert(c@ =~= seq![GlCommand::Uniform1f { location: l, x_bits: value_bits }]);
                Ok(c)
            },
            None => Err(Shader::not_found(name)),
        }
    }

    /// Sets a `vec2` uniform, each component given as its IEEE-754 bit
    /// pattern.
    pub fn set_uniform_2f(&self, name: &str, location: Option<u32>, x_bits: u32, y_bits: u32) -> (r: Result<
        Vec<GlCommand>,
        ShaderError,
    >)
        ensures
            location is None ==> uniform_not_found(r, name),
            location matches Some(l) ==> (r matches Ok(c) && c@ == seq![GlCommand::Uniform2f { location: l, x_bits, y_bits }]),
    {
        match location {
            Some(l) => {
                let c = vec![GlCommand::Uniform2f { location: l, x_bits, y_bits }];
                assert(c@ =~= seq![GlCommand::Uniform2f { location: l, x_bits, y_bits }]);
                Ok(c)
            },
            None => Err(Shader::not_found(name)),
        }
    }

    /// Sets a `vec3` uniform, each component given as its IEEE-754 bit
    /// pattern.
    pub fn set_uniform_3f(&self, name: &str, location: Option<u32>, x_bits: u32, y_bits: u32, z_bits: u32) -> (r: Result<
        Vec<GlCommand>,
        ShaderError,
    >)
        ensures
            location is None ==> uniform_not_found(r, name),
            location matches Some(l) ==> (r matches Ok(c) && c@ == seq![GlCommand::Uniform3f { location: l, x_bits, y_bits, z_bits }]),
    {
        match location {
            Some(l) => {
                let c = vec![GlCommand::Uniform3f { location: l, x_bits, y_bits, z_bits }];
                assert(c@ =~= seq![GlCommand::Uniform3f { location: l, x_bits, y_bits, z_bits }]);
                Ok(c)
            },
            None => Err(Shader::not_found(name)),
        }
    }

    /// Sets `mat3` uniforms from column-major values (IEEE-754 bit
    /// patterns), not transposed.
    pub fn set_uniform_matrix3fv(&self, name: &str, location: Option<u32>, matrix: Vec<u32>) -> (r: Result<
        Vec<GlCommand>,
        ShaderError,
    >)
        ensures
            location is None ==> uniform_not_found(r, name),
            location matches Some(l) ==> (r matches Ok(c) && c@ == seq![GlCommand::UniformMatrix3 { location: l, values: matrix }]),
    {
        match location {
            Some(l) => {
                let c = vec![GlCommand::UniformMatrix3 { location: l, values: matrix }];
                assert(c@ =~= seq![GlCommand::UniformMatrix3 { location: l, values: matrix }]);
                Ok(c)
            },
            None => Err(Shader::not_found(name)),
        }
    }

    /// Sets `mat4` uniforms from column-major values (IEEE-754 bit
    /// patterns), not transposed.
    pub fn set_uniform_matrix4fv(&self, name: &str, location: Option<u32>, matrix: Vec<u32>) -> (r: Result<
        Vec<GlCommand>,
        ShaderError,
    >)
        ensures
            location is None ==> uniform_not_found(r, name),
            location matches Some(l) ==> (r matches Ok(c) && c@ == seq![GlCommand::UniformMatrix4 { location: l, values: matrix }]),
    {
        match location {
            Some(l) => {
                let c = vec![GlCommand::UniformMatrix4 { location: l, values: matrix }];
                assert(c@ =~= seq![GlCommand::UniformMatrix4 { location: l, values: matrix }]);
                Ok(c)
            },
            None => Err(Shader::not_found(name)),
        }
    }

    /// Points a sampler uniform at texture unit `unit` and binds `texture` (a
    /// 2D texture's name) there: activate the unit, bind, write the unit
    /// number to the uniform.
    pub fn set_uniform_texture(
        &self,
        name: &str,
        location: Option<u32>,
        unit: u32,
        texture: u32,
    ) -> (r: Result<Vec<GlCommand>, ShaderError>)
        requires
            location is Some ==> unit <= u32::MAX - TEXTURE0,
        ensures
            location is None ==> uniform_not_found(r, name),
            location matches Some(l) ==> (r matches Ok(c) && c@ == seq![
                GlCommand::ActiveTexture { unit: (TEXTURE0 + unit) as u32 },
                GlCommand::BindTexture { target: TEXTURE_2D, texture: Some(texture) },
                GlCommand::Uniform1i { location: l, x: unit as i32 },
            ]),
    {
        match location {
            Some(l) => {
                let c = vec![
                    GlCommand::ActiveTexture { unit: TEXTURE0 + unit },
                    GlCommand::BindTexture { target: TEXTURE_2D, texture: Some(texture) },
                    GlCommand::Uniform1i { location: l, x: unit as i32 },
                ];
                assert(c@ =~= seq![
                    GlCommand::ActiveTexture { unit: (TEXTURE0 + unit) as u32 },
                    GlCommand::BindTexture { target: TEXTURE_2D, texture: Some(texture) },
                    GlCommand::Uniform1i { location: l, x: unit as i32 },
                ]);
                Ok(c)
            },
            None => Err(Shader::not_found(name)),
        }
    }
}

/// Where a build stands.
#[derive(PartialEq, Eq, Structural, Debug, Clone, Copy)]
pub enum BuildStage {
    /// The vertex stage is being compiled.
    Vertex,
    /// The vertex stage compiled into `vertex`; the fragment stage is being
    /// compiled.
    Fragment { vertex: u32 },
    /// Both stages compiled; the program is being linked.
    Link { vertex: u32, fragment: u32 },
    /// The build has ended, built or failed.
    Finished,
}

/// The driver's answer to a compile or link step: the name of the object it
/// made, whether the step succeeded, and its info log.
pub struct StageReport {
    pub object: u32,
    pub success: bool,
    pub log: String,
}

pub struct ReportView {
    pub object: u32,
    pub success: bool,
    pub log: Seq<char>,
}

impl View for StageReport {
    type V = ReportView;

    open spec fn view(&self) -> ReportView {
        ReportView { object: self.object, success: self.success, log: self.log@ }
    }
}

/// What the driver is to do next.
#[derive(Debug)]
pub enum ShaderStep {
    /// Create a shader object of `kind`, give it `source`, compile it, and
    /// report its name, compile status and info log.
    Compile { kind: u32, source: String },
    /// Create a program, attach both stages, link it, and report its name,
    /// link status and info log.
    Link { vertex: u32, fragment: u32 },
    /// Run the `release` commands; the build ends with `result`.
    Finish { release: Vec<GlCommand>, result: Result<Shader, ShaderError> },
}

pub enum StepView {
    Compile { kind: u32, source: Seq<char> },
    Link { vertex: u32, fragment: u32 },
    Finish { release: Seq<GlCommand>, result: Result<u32, ShaderErrorView> },
}

impl View for ShaderStep {
    type V = StepView;

    open spec fn view(&self) -> StepView {
        match self {
            ShaderStep::Compile { kind, source } => StepView::Compile { kind: *kind, source: source@ },
            ShaderStep::Link { vertex, fragment } => StepView::Link {
                vertex: *vertex,
                fragment: *fragment,
            },
            ShaderStep::Finish { release, result } => StepView::Finish {
                release: release@,
                result: match result {
                    Ok(s) => Ok(s.name()),
                    Err(e) => Err(e@),
                },
            },
        }
    }
}

pub struct BuilderView {
    pub vertex_source: Seq<char>,
    pub fragment_source: Seq<char>,
    pub stage: BuildStage,
}

/// Builds a program from a vertex and a fragment source: compile the vertex
/// stage, then the fragment stage, then link. The first failure ends the
/// build with the driver's log; every object made on the way is released,
/// and on success only the linked program remains.
pub struct ShaderBuilder {
    vertex_source: String,
    fragment_source: String,
    stage: BuildStage,
}

impl View for ShaderBuilder {
    type V = BuilderView;

    closed spec fn view(&self) -> BuilderView {
        BuilderView {
            vertex_source: self.vertex_source@,
            fragment_source: self.fragment_source@,
            stage: self.stage,
        }
    }
}

/// Detach both stages from the program and delete them.
pub open spec fn stage_release(program: u32, vertex: u32, fragment: u32) -> Seq<GlCommand> {
    seq![
        GlCommand::DetachShader { program, shader: vertex },
        GlCommand::DetachShader { program, shader: fragment },
        GlCommand::DeleteShader { shader: vertex },
        GlCommand::DeleteShader { shader: fragment },
    ]
}

/// The step that follows a report.
pub open spec fn step_after(b: BuilderView, report: ReportView) -> StepView {
    match b.stage {
        BuildStage::Vertex => if report.success {
            StepView::Compile { kind: FRAGMENT_SHADER, source: b.fragment_source }
        } else {
            StepView::Finish {
                release: seq![GlCommand::DeleteShader { shader: report.object }],
                result: Err(ShaderErrorView::Compile(report.log)),
            }
        },
        BuildStage::Fragment { vertex } => if report.success {
            StepView::Link { vertex, fragment: report.object }
        } else {
            StepView::Finish {
                release: seq![
                    GlCommand::DeleteShader { shader: vertex },
                    GlCommand::DeleteShader { shader: report.object },
                ],
                result: Err(ShaderErrorView::Compile(report.log)),
            }
        },
        BuildStage::Link { vertex, fragment } => if report.success {
            StepView::Finish {
                release: stage_release(report.object, vertex, fragment),
                result: Ok(report.object),
            }
        } else {
            StepView::Finish {
                release: stage_release(report.object, vertex, fragment).push(
                    GlCommand::DeleteProgram { program: report.object },
                ),
                result: Err(ShaderErrorView::Link(report.log)),
            }
        },
        // A finished build takes no further report (`advance` requires as
        // much); this arm only keeps the function total.
        BuildStage::Finished => StepView::Finish {
            release: Seq::empty(),
            result: Err(ShaderErrorView::Link(report.log)),
        },
    }
}

/// The stage a report leads to.
pub open spec fn stage_after(stage: BuildStage, report: ReportView) -> BuildStage {
    match stage {
        BuildStage::Vertex => if report.success {
            BuildStage::Fragment { vertex: report.object }
        } else {
            BuildStage::Finished
        },
        BuildStage::Fragment { vertex } => if report.success {
            BuildStage::Link { vertex, fragment: report.object }
        } else {
            BuildStage::Finished
        },
        _ => BuildStage::Finished,
    }
}

/// The commands that delete the stage objects a build has made so far.
pub open spec fn made_so_far(stage: BuildStage) -> Seq<GlCommand> {
    match stage {
        BuildStage::Fragment { vertex } => seq![GlCommand::DeleteShader { shader: vertex }],
        BuildStage::Link { vertex, fragment } => seq![
            GlCommand::DeleteShader { shader: vertex },
            GlCommand::DeleteShader { shader: fragment },
        ],
        _ => Seq::empty(),
    }
}

impl ShaderBuilder {
    /// Starts a build; the first step compiles the vertex stage.
    pub fn new(vertex_source: String, fragment_source: String) -> (r: (ShaderBuilder, ShaderStep))
        ensures
            r.0@ == (BuilderView {
                vertex_source: vertex_source@,
                fragment_source: fragment_source@,
                stage: BuildStage::Vertex,
            }),
            r.1@ == (StepView::Compile { kind: VERTEX_SHADER, source: vertex_source@ }),
    {
        let source = vertex_source.clone();
        (
            ShaderBuilder { vertex_source, fragment_source, stage: BuildStage::Vertex },
            ShaderStep::Compile { kind: VERTEX_SHADER, source },
        )
    }

    pub fn stage(&self) -> (r: BuildStage)
        ensures
            r == self@.stage,
    {
        self.stage
    }

    pub fn is_finished(&self) -> (r: bool)
        ensures
            r == (self@.stage == BuildStage::Finished),
    {
        self.stage == BuildStage::Finished
    }

    /// Ends the build early, when the driver could not make the object a step
    /// asked for: the commands release every stage object made so far, and
    /// the build is finished.
    pub fn abandon(&mut self) -> (r: Vec<GlCommand>)
        ensures
            r@ == made_so_far(old(self)@.stage),
            final(self)@ == (BuilderView { stage: BuildStage::Finished, ..old(self)@ }),
    {
        let r = match self.stage {
            BuildStage::Fragment { vertex } => vec![GlCommand::DeleteShader { shader: vertex }],
            BuildStage::Link { vertex, fragment } => vec![
                GlCommand::DeleteShader { shader: vertex },
                GlCommand::DeleteShader { shader: fragment },
            ],
            _ => Vec::new(),
        };
        self.stage = BuildStage::Finished;
        assert(r@ =~= made_so_far(old(self)@.stage));
        r
    }

    /// Takes the driver's report on the current step and returns the next
    /// one.
    pub fn advance(&mut self, report: StageReport) -> (r: ShaderStep)
        requires
            old(self)@.stage != BuildStage::Finished,
        ensures
            r@ == step_after(old(self)@, report@),
            final(self)@ == (BuilderView { stage: stage_after(old(self)@.stage, report@), ..old(self)@ }),
    {
        match self.stage {
            BuildStage::Vertex => {
                if report.success {
                    self.stage = BuildStage::Fragment { vertex: report.object };
                    ShaderStep::Compile {
                        kind: FRAGMENT_SHADER,
                        source: self.fragment_source.clone(),
                    }
                } else {
                    self.stage = BuildStage::Finished;
                    let release = vec![GlCommand::DeleteShader { shader: report.object }];
                    assert(release@ =~= seq![GlCommand::DeleteShader { shader: report.object }]);
                    ShaderStep::Finish { release, result: Err(ShaderError::Compile(report.log)) }
                }
            },
            BuildStage::Fragment { vertex } => {
                if report.success {
                    self.stage = BuildStage::Link { vertex, fragment: report.object };
                    ShaderStep::Link { vertex, fragment: report.object }
                } else {
                    self.stage = BuildStage::Finished;
                    let release = vec![
                        GlCommand::DeleteShader { shader: vertex },
                        GlCommand::DeleteShader { shader: report.object },
                    ];
                    assert(release@ =~= seq![
                        GlCommand::DeleteShader { shader: vertex },
                        GlCommand::DeleteShader { shader: report.object },
                    ]);
                    ShaderStep::Finish { release, result: Err(ShaderError::Compile(report.log)) }
                }
            },
            BuildStage::Link { vertex, fragment } => {
                self.stage = BuildStage::Finished;
                let program = report.object;
                let mut release = vec![
                    GlCommand::DetachShader { program, shader: vertex },
                    GlCommand::DetachShader { program, shader: fragment },
                    GlCommand::DeleteShader { shader: vertex },
                    GlCommand::DeleteShader { shader: fragment },
                ];
                assert(release@ =~= stage_release(program, vertex, fragment));
                if report.success {
                    ShaderStep::Finish { release, result: Ok(Shader { program }) }
                } else {
                    release.push(GlCommand::DeleteProgram { program });
                    ShaderStep::Finish { release, result: Err(ShaderError::Link(report.log)) }
                }
            },
            BuildStage::Finished => {
                ShaderStep::Finish { release: Vec::new(), result: Err(ShaderError::Link(report.log)) }
            },
        }
    }
}

/// A vertex stage that fails to compile ends the build at once: the next step
/// is the last one, it fails with a compile error that carries the driver's
/// log, it releases the vertex object, and the build is finished, so no
/// fragment compile or link step can follow.
pub proof fn lemma_vertex_failure_ends_build(
    vertex_source: Seq<char>,
    fragment_source: Seq<char>,
    report: ReportView,
)
    requires
        !report.success,
    ensures
        step_after(
            BuilderView { vertex_source, fragment_source, stage: BuildStage::Vertex },
            report,
        ) == (StepView::Finish {
            release: seq![GlCommand::DeleteShader { shader: report.object }],
            result: Err(ShaderErrorView::Compile(report.log)),
        }),
        stage_after(BuildStage::Vertex, report) == BuildStage::Finished,
{
}

/// When both stages compile and linking fails, the build goes through both
/// compile steps and the link step, and ends with a link error carrying the
/// driver's log, releasing both stages and the program.
pub proof fn lemma_link_failure_after_both_stages(
    vertex_source: Seq<char>,
    fragment_source: Seq<char>,
    vertex: ReportView,
    fragment: ReportView,
    link: ReportView,
)
    requires
        vertex.success,
        fragment.success,
        !link.success,
    ensures
        ({
            let b0 = BuilderView { vertex_source, fragment_source, stage: BuildStage::Vertex };
            let b1 = BuilderView { stage: stage_after(b0.stage, vertex), ..b0 };
            let b2 = BuilderView { stage: stage_after(b1.stage, fragment), ..b1 };
            &&& step_after(b0, vertex) == (StepView::Compile {
                kind: FRAGMENT_SHADER,
                source: fragment_source,
            })
            &&& step_after(b1, fragment) == (StepView::Link {
                vertex: vertex.object,
                fragment: fragment.object,
            })
            &&& step_after(b2, link) == (StepView::Finish {
                release: stage_release(link.object, vertex.object, fragment.object).push(
                    GlCommand::DeleteProgram { program: link.object },
                ),
                result: Err(ShaderErrorView::Link(link.log)),
            })
            &&& stage_after(b2.stage, link) == BuildStage::Finished
        }),
{
}

} // verus!
