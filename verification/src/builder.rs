//! Building a linked program from a vertex and a fragment source.
//!
//! A build alternates native calls and decisions.  The decisions live here:
//! a build is a small state machine that is handed each value the native
//! layer returns and answers with the native calls to make next, in order,
//! until it reports how the build ended.  The last call of each batch is the
//! one whose return value the machine wants to see next.

use vstd::prelude::*;
use vstd::utf8::encode_utf8;
use crate::infolog::{log_text, read_log};
use crate::resource::{
    read_status, source_length, status_is_true, Program, ProgramFromSourceResult, Shader,
    ShaderType,
};

verus! {

/// One call into the native layer, with the arguments that the build decides.
#[derive(Clone, Copy, Debug, PartialEq, Eq)]
pub enum Request {
    /// Create a program object; answered by [`Reply::Handle`].
    CreateProgram,
    /// Create a shader object for a stage; answered by [`Reply::Handle`].
    CreateShader { stage: ShaderType },
    /// Replace the shader's source by the text given for `stage`, passed
    /// with `length` as its length in bytes.
    ShaderSource { shader: u32, stage: ShaderType, length: i32 },
    /// Compile the shader.
    CompileShader { shader: u32 },
    /// Query the shader's compile status; answered by [`Reply::Status`].
    GetCompileStatus { shader: u32 },
    /// Query the length of the shader's log; answered by [`Reply::Length`].
    GetShaderLogLength { shader: u32 },
    /// Fetch the shader's log into a buffer of `capacity` bytes; answered by
    /// [`Reply::Log`].
    GetShaderLog { shader: u32, capacity: i32 },
    /// Attach the shader to the program.
    AttachShader { program: u32, shader: u32 },
    /// Release the shader object.
    DeleteShader { shader: u32 },
    /// Link the program.
    LinkProgram { program: u32 },
    /// Query the program's link status; answered by [`Reply::Status`].
    GetLinkStatus { program: u32 },
    /// Query the length of the program's log; answered by [`Reply::Length`].
    GetProgramLogLength { program: u32 },
    /// Fetch the program's log into a buffer of `capacity` bytes; answered by
    /// [`Reply::Log`].
    GetProgramLog { program: u32, capacity: i32 },
    /// Release the program object.
    DeleteProgram { program: u32 },
}

/// What the native layer returned for the last call of a batch.
#[derive(Debug, PartialEq, Eq)]
pub enum Reply {
    /// The identifier of a newly created object, zero if none was created.
    Handle(u32),
    /// A status word.
    Status(i32),
    /// The length of a log.
    Length(i32),
    /// The buffer that was handed over for a log, and the count of bytes
    /// that the native layer reports as written into it.
    Log { buffer: Vec<u8>, written: i32 },
}

/// Why a build ended without a program.
#[derive(Debug, PartialEq, Eq)]
pub enum BuildError {
    /// The native layer created no program object.
    ProgramCreation,
    /// The native layer created no shader object for the stage.
    ShaderCreation { stage: ShaderType },
    /// The stage's source did not compile; `log` is the compiler's log.
    Compile { stage: ShaderType, log: String },
    /// The program did not link; `log` is the linker's log.
    Link { log: String },
}

/// The mathematical content of a [`BuildError`].
pub enum BuildFailure {
    ProgramCreation,
    ShaderCreation { stage: ShaderType },
    Compile { stage: ShaderType, log: Seq<char> },
    Link { log: Seq<char> },
}

impl View for BuildError {
    type V = BuildFailure;

    open spec fn view(&self) -> BuildFailure {
        match *self {
            BuildError::ProgramCreation => BuildFailure::ProgramCreation,
            BuildError::ShaderCreation { stage } => BuildFailure::ShaderCreation { stage },
            BuildError::Compile { stage, log } => BuildFailure::Compile { stage, log: log@ },
            BuildError::Link { log } => BuildFailure::Link { log: log@ },
        }
    }
}

/// Where the build of one shader stage stands.
#[derive(Clone, Copy, Debug, PartialEq, Eq)]
pub enum ShaderPhase {
    /// The shader object was asked for.
    Creating,
    /// The source was set and compiled; the compile status was asked for.
    Compiling { shader: u32 },
    /// Compilation failed; the length of the log was asked for.
    Measuring { shader: u32 },
    /// The log was asked for.
    Reading { shader: u32 },
    /// The build has reported how it ended.
    Finished,
}

/// The build of one shader stage from its source.
#[derive(Clone, Copy, Debug, PartialEq, Eq)]
pub struct ShaderBuild {
    pub stage: ShaderType,
    /// The length of the source in bytes.
    pub length: i32,
    pub phase: ShaderPhase,
}

/// What a step of a shader build asks for: native calls to make in order,
/// and, once the build has ended, how.
pub struct ShaderStep {
    pub calls: Vec<Request>,
    pub outcome: Option<Result<Shader, BuildError>>,
}

/// A step of a shader build as a mathematical value; a shader is stood for
/// by its identifier.
pub struct ShaderTransition {
    pub next: ShaderPhase,
    pub calls: Seq<Request>,
    pub outcome: Option<Result<u32, BuildFailure>>,
}

impl View for ShaderStep {
    type V = (Seq<Request>, Option<Result<u32, BuildFailure>>);

    open spec fn view(&self) -> (Seq<Request>, Option<Result<u32, BuildFailure>>) {
        (
            self.calls@,
            match self.outcome {
                None => None,
                Some(Ok(shader)) => Some(Ok(shader@)),
                Some(Err(error)) => Some(Err(error@)),
            },
        )
    }
}

impl ShaderBuild {
    /// A build holds no null identifier and no negative length.
    pub open spec fn wf(self) -> bool {
        &&& self.length >= 0
        &&& match self.phase {
            ShaderPhase::Compiling { shader } => shader != 0,
            ShaderPhase::Measuring { shader } => shader != 0,
            ShaderPhase::Reading { shader } => shader != 0,
            _ => true,
        }
    }

    /// Whether `reply` answers what the build last asked for.
    pub open spec fn accepts(self, reply: Reply) -> bool {
        match self.phase {
            ShaderPhase::Creating => reply is Handle,
            ShaderPhase::Compiling { .. } => reply is Status,
            ShaderPhase::Measuring { .. } => reply matches Reply::Length(length) && length >= 0,
            ShaderPhase::Reading { .. } => reply matches Reply::Log { buffer, written } && 0
                <= written <= buffer@.len(),
            ShaderPhase::Finished => false,
        }
    }

    /// The step that the build takes on `reply`.
    pub open spec fn transition(self, reply: Reply) -> ShaderTransition {
        match (self.phase, reply) {
            (ShaderPhase::Creating, Reply::Handle(raw)) => if raw == 0 {
                ShaderTransition {
                    next: ShaderPhase::Finished,
                    calls: seq![],
                    outcome: Some(Err(BuildFailure::ShaderCreation { stage: self.stage })),
                }
            } else {
                ShaderTransition {
                    next: ShaderPhase::Compiling { shader: raw },
                    calls: seq![
                        Request::ShaderSource { shader: raw, stage: self.stage, length: self.length },
                        Request::CompileShader { shader: raw },
                        Request::GetCompileStatus { shader: raw },
                    ],
                    outcome: None,
                }
            },
            (ShaderPhase::Compiling { shader }, Reply::Status(status)) => if status_is_true(
                status,
            ) {
                ShaderTransition {
                    next: ShaderPhase::Finished,
                    calls: seq![],
                    outcome: Some(Ok(shader)),
                }
            } else {
                ShaderTransition {
                    next: ShaderPhase::Measuring { shader },
                    calls: seq![Request::GetShaderLogLength { shader }],
                    outcome: None,
                }
            },
            (ShaderPhase::Measuring { shader }, Reply::Length(length)) => ShaderTransition {
                next: ShaderPhase::Reading { shader },
                calls: seq![Request::GetShaderLog { shader, capacity: length }],
                outcome: None,
            },
            (ShaderPhase::Reading { shader }, Reply::Log { buffer, written }) => ShaderTransition {
                next: ShaderPhase::Finished,
                calls: seq![],
                outcome: Some(
                    Err(
                        BuildFailure::Compile {
                            stage: self.stage,
                            log: log_text(buffer@, written as int),
                        },
                    ),
                ),
            },
            _ => ShaderTransition { next: self.phase, calls: seq![], outcome: None },
        }
    }

    /// The build after the step that it takes on `reply`.
    pub open spec fn after(self, reply: Reply) -> ShaderBuild {
        ShaderBuild { phase: self.transition(reply).next, ..self }
    }

    /// Whether `reply` answers what the build last asked for.
    pub fn can_accept(&self, reply: &Reply) -> (ok: bool)
        ensures
            ok == self.accepts(*reply),
    {
        match (self.phase, reply) {
            (ShaderPhase::Creating, Reply::Handle(_)) => true,
            (ShaderPhase::Compiling { .. }, Reply::Status(_)) => true,
            (ShaderPhase::Measuring { .. }, Reply::Length(length)) => *length >= 0,
            (ShaderPhase::Reading { .. }, Reply::Log { buffer, written }) => 0 <= *written
                && *written as usize <= buffer.len(),
            _ => false,
        }
    }

    /// Whether the build holds no null identifier and no negative length.
    pub fn check_wf(&self) -> (ok: bool)
        ensures
            ok == self.wf(),
    {
        self.length >= 0 && match self.phase {
            ShaderPhase::Compiling { shader } => shader != 0,
            ShaderPhase::Measuring { shader } => shader != 0,
            ShaderPhase::Reading { shader } => shader != 0,
            _ => true,
        }
    }

    /// Takes the step that `reply` calls for, if the build is well formed
    /// and `reply` answers what it last asked for; otherwise leaves the
    /// build as it is and returns nothing.
    pub fn try_step(&mut self, reply: Reply) -> (step: Option<ShaderStep>)
        ensures
            step is Some <==> old(self).wf() && old(self).accepts(reply),
            step matches Some(taken) ==> {
                &&& final(self).wf()
                &&& *final(self) == old(self).after(reply)
                &&& taken@ == (
                    old(self).transition(reply).calls,
                    old(self).transition(reply).outcome,
                )
            },
            step is None ==> *final(self) == *old(self),
    {
        if self.check_wf() && self.can_accept(&reply) {
            Some(self.step(reply))
        } else {
            None
        }
    }

    /// Takes the step that `reply` calls for.
    pub fn step(&mut self, reply: Reply) -> (step: ShaderStep)
        requires
            old(self).wf(),
            old(self).accepts(reply),
        ensures
            final(self).wf(),
            *final(self) == old(self).after(reply),
            step@ == (old(self).transition(reply).calls, old(self).transition(reply).outcome),
    {
        match (self.phase, reply) {
            (ShaderPhase::Creating, Reply::Handle(raw)) => {
                match Shader::new(raw) {
                    None => {
                        self.phase = ShaderPhase::Finished;
                        ShaderStep {
                            calls: Vec::new(),
                            outcome: Some(Err(BuildError::ShaderCreation { stage: self.stage })),
                        }
                    },
                    Some(_) => {
                        self.phase = ShaderPhase::Compiling { shader: raw };
                        let calls = vec![
                            Request::ShaderSource {
                                shader: raw,
                                stage: self.stage,
                                length: self.length,
                            },
                            Request::CompileShader { shader: raw },
                            Request::GetCompileStatus { shader: raw },
                        ];
                        ShaderStep { calls, outcome: None }
                    },
                }
            },
            (ShaderPhase::Compiling { shader }, Reply::Status(status)) => {
                if read_status(status) {
                    self.phase = ShaderPhase::Finished;
                    let made = Shader::new(shader);
                    ShaderStep { calls: Vec::new(), outcome: Some(Ok(made.unwrap())) }
                } else {
                    self.phase = ShaderPhase::Measuring { shader };
                    ShaderStep {
                        calls: vec![Request::GetShaderLogLength { shader }],
                        outcome: None,
                    }
                }
            },
            (ShaderPhase::Measuring { shader }, Reply::Length(length)) => {
                self.phase = ShaderPhase::Reading { shader };
                ShaderStep {
                    calls: vec![Request::GetShaderLog { shader, capacity: length }],
                    outcome: None,
                }
            },
            (ShaderPhase::Reading { shader }, Reply::Log { buffer, written }) => {
                self.phase = ShaderPhase::Finished;
                let log = read_log(buffer.as_slice(), written);
                ShaderStep {
                    calls: Vec::new(),
                    outcome: Some(Err(BuildError::Compile { stage: self.stage, log })),
                }
            },
            _ => {
                ShaderStep { calls: Vec::new(), outcome: None }
            },
        }
    }
}

impl Shader {
    /// Starts the build of a shader of the given stage from its source: the
    /// first call asks for the shader object.
    pub fn from_str(shader_type: ShaderType, source_string: &str) -> (start: (
        ShaderBuild,
        ShaderStep,
    ))
        requires
            encode_utf8(source_string@).len() <= i32::MAX,
        ensures
            start.0 == (ShaderBuild {
                stage: shader_type,
                length: encode_utf8(source_string@).len() as i32,
                phase: ShaderPhase::Creating,
            }),
            start.0.wf(),
            start.1@ == (seq![Request::CreateShader { stage: shader_type }], None::<
                Result<u32, BuildFailure>,
            >),
    {
        let build = ShaderBuild {
            stage: shader_type,
            length: source_length(source_string),
            phase: ShaderPhase::Creating,
        };
        let step = ShaderStep {
            calls: vec![Request::CreateShader { stage: shader_type }],
            outcome: None,
        };
        (build, step)
    }
}

/// Where the build of a program stands.
#[derive(Clone, Copy, Debug, PartialEq, Eq)]
pub enum ProgramPhase {
    /// The program object was asked for.
    Creating,
    /// The vertex shader is being built.
    Vertex { program: u32, build: ShaderPhase },
    /// The vertex shader is built; the fragment shader is being built.
    Fragment { program: u32, vertex: u32, build: ShaderPhase },
    /// Both shaders were attached and released and the program was linked;
    /// the link status was asked for.
    Linking { program: u32, vertex: u32, fragment: u32 },
    /// Linking failed; the length of the log was asked for.
    Measuring { program: u32 },
    /// The log was asked for.
    Reading { program: u32 },
    /// The build has reported how it ended.
    Finished,
}

/// The build of a program from a vertex and a fragment source.
#[derive(Clone, Copy, Debug, PartialEq, Eq)]
pub struct ProgramBuild {
    /// The length of the vertex source in bytes.
    pub vertex_length: i32,
    /// The length of the fragment source in bytes.
    pub fragment_length: i32,
    pub phase: ProgramPhase,
}

/// What a step of a program build asks for: native calls to make in order,
/// and, once the build has ended, how.
pub struct ProgramStep {
    pub calls: Vec<Request>,
    pub outcome: Option<Result<ProgramFromSourceResult, BuildError>>,
}

/// The identifiers of a linked program and of the shaders it was linked from.
pub struct Linked {
    pub program: u32,
    pub vertex: u32,
    pub fragment: u32,
}

impl View for ProgramFromSourceResult {
    type V = Linked;

    open spec fn view(&self) -> Linked {
        Linked {
            program: self.program.0,
            vertex: self.vertex_shader@,
            fragment: self.fragment_shader@,
        }
    }
}

/// A step of a program build as a mathematical value.
pub struct ProgramTransition {
    pub next: ProgramPhase,
    pub calls: Seq<Request>,
    pub outcome: Option<Result<Linked, BuildFailure>>,
}

impl View for ProgramStep {
    type V = (Seq<Request>, Option<Result<Linked, BuildFailure>>);

    open spec fn view(&self) -> (Seq<Request>, Option<Result<Linked, BuildFailure>>) {
        (
            self.calls@,
            match self.outcome {
                None => None,
                Some(Ok(linked)) => Some(Ok(linked@)),
                Some(Err(error)) => Some(Err(error@)),
            },
        )
    }
}

/// The calls that follow the successful build of both shaders: attach both,
/// release both, link, and ask for the link status.
pub open spec fn link_calls(program: u32, vertex: u32, fragment: u32) -> Seq<Request> {
    seq![
        Request::AttachShader { program, shader: vertex },
        Request::AttachShader { program, shader: fragment },
        Request::DeleteShader { shader: vertex },
        Request::DeleteShader { shader: fragment },
        Request::LinkProgram { program },
        Request::GetLinkStatus { program },
    ]
}

impl ProgramBuild {
    /// The build of the vertex shader, standing at `phase`.
    pub open spec fn vertex_build(self, phase: ShaderPhase) -> ShaderBuild {
        ShaderBuild { stage: ShaderType::Vertex, length: self.vertex_length, phase }
    }

    /// The build of the fragment shader, standing at `phase`.
    pub open spec fn fragment_build(self, phase: ShaderPhase) -> ShaderBuild {
        ShaderBuild { stage: ShaderType::Fragment, length: self.fragment_length, phase }
    }

    /// A build holds no null identifier and no negative length, and a shader
    /// build inside it has not ended.
    pub open spec fn wf(self) -> bool {
        &&& self.vertex_length >= 0
        &&& self.fragment_length >= 0
        &&& match self.phase {
            ProgramPhase::Creating => true,
            ProgramPhase::Vertex { program, build } => program != 0 && self.vertex_build(
                build,
            ).wf() && !(build is Finished),
            ProgramPhase::Fragment { program, vertex, build } => program != 0 && vertex != 0
                && self.fragment_build(build).wf() && !(build is Finished),
            ProgramPhase::Linking { program, vertex, fragment } => program != 0 && vertex != 0
                && fragment != 0,
            ProgramPhase::Measuring { program } => program != 0,
            ProgramPhase::Reading { program } => program != 0,
            ProgramPhase::Finished => true,
        }
    }

    /// Whether `reply` answers what the build last asked for.
    pub open spec fn accepts(self, reply: Reply) -> bool {
        match self.phase {
            ProgramPhase::Creating => reply is Handle,
            ProgramPhase::Vertex { build, .. } => self.vertex_build(build).accepts(reply),
            ProgramPhase::Fragment { build, .. } => self.fragment_build(build).accepts(reply),
            ProgramPhase::Linking { .. } => reply is Status,
            ProgramPhase::Measuring { .. } => reply matches Reply::Length(length) && length >= 0,
            ProgramPhase::Reading { .. } => reply matches Reply::Log { buffer, written } && 0
                <= written <= buffer@.len(),
            ProgramPhase::Finished => false,
        }
    }

    /// The step that the build takes on `reply`.
    pub open spec fn transition(self, reply: Reply) -> ProgramTransition {
        match self.phase {
            ProgramPhase::Creating => match reply {
                Reply::Handle(raw) => if raw == 0 {
                    ProgramTransition {
                        next: ProgramPhase::Finished,
                        calls: seq![],
                        outcome: Some(Err(BuildFailure::ProgramCreation)),
                    }
                } else {
                    ProgramTransition {
                        next: ProgramPhase::Vertex { program: raw, build: ShaderPhase::Creating },
                        calls: seq![Request::CreateShader { stage: ShaderType::Vertex }],
                        outcome: None,
                    }
                },
                _ => self.stay(),
            },
            ProgramPhase::Vertex { program, build } => {
                let inner = self.vertex_build(build).transition(reply);
                match inner.outcome {
                    None => ProgramTransition {
                        next: ProgramPhase::Vertex { program, build: inner.next },
                        calls: inner.calls,
                        outcome: None,
                    },
                    Some(Ok(vertex)) => ProgramTransition {
                        next: ProgramPhase::Fragment {
                            program,
                            vertex,
                            build: ShaderPhase::Creating,
                        },
                        calls: inner.calls.push(
                            Request::CreateShader { stage: ShaderType::Fragment },
                        ),
                        outcome: None,
                    },
                    Some(Err(failure)) => ProgramTransition {
                        next: ProgramPhase::Finished,
                        calls: inner.calls,
                        outcome: Some(Err(failure)),
                    },
                }
            },
            ProgramPhase::Fragment { program, vertex, build } => {
                let inner = self.fragment_build(build).transition(reply);
                match inner.outcome {
                    None => ProgramTransition {
                        next: ProgramPhase::Fragment { program, vertex, build: inner.next },
                        calls: inner.calls,
                        outcome: None,
                    },
                    Some(Ok(fragment)) => ProgramTransition {
                        next: ProgramPhase::Linking { program, vertex, fragment },
                        calls: inner.calls + link_calls(program, vertex, fragment),
                        outcome: None,
                    },
                    Some(Err(failure)) => ProgramTransition {
                        next: ProgramPhase::Finished,
                        calls: inner.calls,
                        outcome: Some(Err(failure)),
                    },
                }
            },
            ProgramPhase::Linking { program, vertex, fragment } => match reply {
                Reply::Status(status) => if status_is_true(status) {
                    ProgramTransition {
                        next: ProgramPhase::Finished,
                        calls: seq![],
                        outcome: Some(Ok(Linked { program, vertex, fragment })),
                    }
                } else {
                    ProgramTransition {
                        next: ProgramPhase::Measuring { program },
                        calls: seq![Request::GetProgramLogLength { program }],
                        outcome: None,
                    }
                },
                _ => self.stay(),
            },
            ProgramPhase::Measuring { program } => match reply {
                Reply::Length(length) => ProgramTransition {
                    next: ProgramPhase::Reading { program },
                    calls: seq![Request::GetProgramLog { program, capacity: length }],
                    outcome: None,
                },
                _ => self.stay(),
            },
            ProgramPhase::Reading { program } => match reply {
                Reply::Log { buffer, written } => ProgramTransition {
                    next: ProgramPhase::Finished,
                    calls: seq![Request::DeleteProgram { program }],
                    outcome: Some(
                        Err(BuildFailure::Link { log: log_text(buffer@, written as int) }),
                    ),
                },
                _ => self.stay(),
            },
            ProgramPhase::Finished => self.stay(),
        }
    }

    /// The step that changes nothing and asks for nothing.
    pub open spec fn stay(self) -> ProgramTransition {
        ProgramTransition { next: self.phase, calls: seq![], outcome: None }
    }

    /// The build after the step that it takes on `reply`.
    pub open spec fn after(self, reply: Reply) -> ProgramBuild {
        ProgramBuild { phase: self.transition(reply).next, ..self }
    }

    /// Whether `reply` answers what the build last asked for.
    pub fn can_accept(&self, reply: &Reply) -> (ok: bool)
        ensures
            ok == self.accepts(*reply),
    {
        match self.phase {
            ProgramPhase::Creating => match reply {
                Reply::Handle(_) => true,
                _ => false,
            },
            ProgramPhase::Vertex { build, .. } => {
                let inner = ShaderBuild {
                    stage: ShaderType::Vertex,
                    length: self.vertex_length,
                    phase: build,
                };
                inner.can_accept(reply)
            },
            ProgramPhase::Fragment { build, .. } => {
                let inner = ShaderBuild {
                    stage: ShaderType::Fragment,
                    length: self.fragment_length,
                    phase: build,
                };
                inner.can_accept(reply)
            },
            ProgramPhase::Linking { .. } => match reply {
                Reply::Status(_) => true,
                _ => false,
            },
            ProgramPhase::Measuring { .. } => match reply {
                Reply::Length(length) => *length >= 0,
                _ => false,
            },
            ProgramPhase::Reading { .. } => match reply {
                Reply::Log { buffer, written } => 0 <= *written && *written as usize
                    <= buffer.len(),
                _ => false,
            },
            ProgramPhase::Finished => false,
        }
    }

    /// Whether the build holds no null identifier and no negative length,
    /// and no shader build inside it has ended.
    pub fn check_wf(&self) -> (ok: bool)
        ensures
            ok == self.wf(),
    {
        if self.vertex_length < 0 || self.fragment_length < 0 {
            return false;
        }
        match self.phase {
            ProgramPhase::Creating => true,
            ProgramPhase::Vertex { program, build } => {
                let inner = ShaderBuild {
                    stage: ShaderType::Vertex,
                    length: self.vertex_length,
                    phase: build,
                };
                let running = match build {
                    ShaderPhase::Finished => false,
                    _ => true,
                };
                program != 0 && inner.check_wf() && running
            },
            ProgramPhase::Fragment { program, vertex, build } => {
                let inner = ShaderBuild {
                    stage: ShaderType::Fragment,
                    length: self.fragment_length,
                    phase: build,
                };
                let running = match build {
                    ShaderPhase::Finished => false,
                    _ => true,
                };
                program != 0 && vertex != 0 && inner.check_wf() && running
            },
            ProgramPhase::Linking { program, vertex, fragment } => program != 0 && vertex != 0
                && fragment != 0,
            ProgramPhase::Measuring { program } => program != 0,
            ProgramPhase::Reading { program } => program != 0,
            ProgramPhase::Finished => true,
        }
    }

    /// Takes the step that `reply` calls for, if the build is well formed
    /// and `reply` answers what it last asked for; otherwise leaves the
    /// build as it is and returns nothing.
    pub fn try_step(&mut self, reply: Reply) -> (step: Option<ProgramStep>)
        ensures
            step is Some <==> old(self).wf() && old(self).accepts(reply),
            step matches Some(taken) ==> {
                &&& final(self).wf()
                &&& *final(self) == old(self).after(reply)
                &&& taken@ == (
                    old(self).transition(reply).calls,
                    old(self).transition(reply).outcome,
                )
            },
            step is None ==> *final(self) == *old(self),
    {
        if self.check_wf() && self.can_accept(&reply) {
            Some(self.step(reply))
        } else {
            None
        }
    }

    /// Takes the step that `reply` calls for.
    pub fn step(&mut self, reply: Reply) -> (step: ProgramStep)
        requires
            old(self).wf(),
            old(self).accepts(reply),
        ensures
            final(self).wf(),
            *final(self) == old(self).after(reply),
            step@ == (old(self).transition(reply).calls, old(self).transition(reply).outcome),
    {
        match self.phase {
            ProgramPhase::Creating => match reply {
                Reply::Handle(raw) => match Program::new(raw) {
                    None => {
                        self.phase = ProgramPhase::Finished;
                        ProgramStep {
                            calls: Vec::new(),
                            outcome: Some(Err(BuildError::ProgramCreation)),
                        }
                    },
                    Some(_) => {
                        self.phase = ProgramPhase::Vertex {
                            program: raw,
                            build: ShaderPhase::Creating,
                        };
                        ProgramStep {
                            calls: vec![Request::CreateShader { stage: ShaderType::Vertex }],
                            outcome: None,
                        }
                    },
                },
                _ => ProgramStep { calls: Vec::new(), outcome: None },
            },
            ProgramPhase::Vertex { program, build } => {
                let mut inner = ShaderBuild {
                    stage: ShaderType::Vertex,
                    length: self.vertex_length,
                    phase: build,
                };
                let ShaderStep { calls, outcome } = inner.step(reply);
                match outcome {
                    None => {
                        self.phase = ProgramPhase::Vertex { program, build: inner.phase };
                        ProgramStep { calls, outcome: None }
                    },
                    Some(Ok(shader)) => {
                        self.phase = ProgramPhase::Fragment {
                            program,
                            vertex: shader.id(),
                            build: ShaderPhase::Creating,
                        };
                        let mut calls = calls;
                        calls.push(Request::CreateShader { stage: ShaderType::Fragment });
                        ProgramStep { calls, outcome: None }
                    },
                    Some(Err(error)) => {
                        self.phase = ProgramPhase::Finished;
                        ProgramStep { calls, outcome: Some(Err(error)) }
                    },
                }
            },
            ProgramPhase::Fragment { program, vertex, build } => {
                let mut inner = ShaderBuild {
                    stage: ShaderType::Fragment,
                    length: self.fragment_length,
                    phase: build,
                };
                let ShaderStep { calls, outcome } = inner.step(reply);
                match outcome {
                    None => {
                        self.phase = ProgramPhase::Fragment { program, vertex, build: inner.phase };
                        ProgramStep { calls, outcome: None }
                    },
                    Some(Ok(shader)) => {
                        let fragment = shader.id();
                        self.phase = ProgramPhase::Linking { program, vertex, fragment };
                        let mut calls = calls;
                        let ghost before = calls@;
                        calls.push(Request::AttachShader { program, shader: vertex });
                        calls.push(Request::AttachShader { program, shader: fragment });
                        calls.push(Request::DeleteShader { shader: vertex });
                        calls.push(Request::DeleteShader { shader: fragment });
                        calls.push(Request::LinkProgram { program });
                        calls.push(Request::GetLinkStatus { program });
                        assert(calls@ =~= before + link_calls(program, vertex, fragment));
                        ProgramStep { calls, outcome: None }
                    },
                    Some(Err(error)) => {
                        self.phase = ProgramPhase::Finished;
                        ProgramStep { calls, outcome: Some(Err(error)) }
                    },
                }
            },
            ProgramPhase::Linking { program, vertex, fragment } => match reply {
                Reply::Status(status) => {
                    if read_status(status) {
                        self.phase = ProgramPhase::Finished;
                        let vertex_shader = Shader::new(vertex).unwrap();
                        let fragment_shader = Shader::new(fragment).unwrap();
                        let linked = ProgramFromSourceResult {
                            program: Program(program),
                            vertex_shader,
                            fragment_shader,
                        };
                        ProgramStep { calls: Vec::new(), outcome: Some(Ok(linked)) }
                    } else {
                        self.phase = ProgramPhase::Measuring { program };
                        ProgramStep {
                            calls: vec![Request::GetProgramLogLength { program }],
                            outcome: None,
                        }
                    }
                },
                _ => ProgramStep { calls: Vec::new(), outcome: None },
            },
            ProgramPhase::Measuring { program } => match reply {
                Reply::Length(length) => {
                    self.phase = ProgramPhase::Reading { program };
                    ProgramStep {
                        calls: vec![Request::GetProgramLog { program, capacity: length }],
                        outcome: None,
                    }
                },
                _ => ProgramStep { calls: Vec::new(), outcome: None },
            },
            ProgramPhase::Reading { program } => match reply {
                Reply::Log { buffer, written } => {
                    self.phase = ProgramPhase::Finished;
                    let log = read_log(buffer.as_slice(), written);
                    ProgramStep {
                        calls: vec![Request::DeleteProgram { program }],
                        outcome: Some(Err(BuildError::Link { log })),
                    }
                },
                _ => ProgramStep { calls: Vec::new(), outcome: None },
            },
            ProgramPhase::Finished => ProgramStep { calls: Vec::new(), outcome: None },
        }
    }
}

impl Program {
    /// Starts the build of a program from its two sources: the first call
    /// asks for the program object.
    pub fn from_shader_sources(vertex_source: &str, fragment_source: &str) -> (start: (
        ProgramBuild,
        ProgramStep,
    ))
        requires
            encode_utf8(vertex_source@).len() <= i32::MAX,
            encode_utf8(fragment_source@).len() <= i32::MAX,
        ensures
            start.0 == (ProgramBuild {
                vertex_length: encode_utf8(vertex_source@).len() as i32,
                fragment_length: encode_utf8(fragment_source@).len() as i32,
                phase: ProgramPhase::Creating,
            }),
            start.0.wf(),
            start.1@ == (seq![Request::CreateProgram], None::<Result<Linked, BuildFailure>>),
    {
        let build = ProgramBuild {
            vertex_length: source_length(vertex_source),
            fragment_length: source_length(fragment_source),
            phase: ProgramPhase::Creating,
        };
        let step = ProgramStep { calls: vec![Request::CreateProgram], outcome: None };
        (build, step)
    }
}

/// The shader object that a call works on, if it works on one.
pub open spec fn shader_of(request: Request) -> Option<u32> {
    match request {
        Request::ShaderSource { shader, .. } => Some(shader),
        Request::CompileShader { shader } => Some(shader),
        Request::GetCompileStatus { shader } => Some(shader),
        Request::GetShaderLogLength { shader } => Some(shader),
        Request::GetShaderLog { shader, .. } => Some(shader),
        Request::AttachShader { shader, .. } => Some(shader),
        Request::DeleteShader { shader } => Some(shader),
        _ => None,
    }
}

/// How many replies a shader build can still take, at most.
pub open spec fn shader_rank(phase: ShaderPhase) -> nat {
    match phase {
        ShaderPhase::Creating => 4,
        ShaderPhase::Compiling { .. } => 3,
        ShaderPhase::Measuring { .. } => 2,
        ShaderPhase::Reading { .. } => 1,
        ShaderPhase::Finished => 0,
    }
}

/// How many replies a program build can still take, at most.
pub open spec fn program_rank(phase: ProgramPhase) -> nat {
    match phase {
        ProgramPhase::Creating => 13,
        ProgramPhase::Vertex { build, .. } => 8 + shader_rank(build),
        ProgramPhase::Fragment { build, .. } => 3 + shader_rank(build),
        ProgramPhase::Linking { .. } => 3,
        ProgramPhase::Measuring { .. } => 2,
        ProgramPhase::Reading { .. } => 1,
        ProgramPhase::Finished => 0,
    }
}

/// A shader build reports how it ended exactly when it reaches its last
/// phase, and every step brings that phase nearer.
pub proof fn lemma_shader_build_advances(build: ShaderBuild, reply: Reply)
    requires
        build.wf(),
        build.accepts(reply),
    ensures
        build.transition(reply).outcome is Some <==> build.transition(reply).next is Finished,
        shader_rank(build.transition(reply).next) < shader_rank(build.phase),
{
}

/// A program build reports how it ended exactly when it reaches its last
/// phase, and every step brings that phase nearer: no build takes more than
/// thirteen replies.
pub proof fn lemma_program_build_advances(build: ProgramBuild, reply: Reply)
    requires
        build.wf(),
        build.accepts(reply),
    ensures
        build.transition(reply).outcome is Some <==> build.transition(reply).next is Finished,
        program_rank(build.transition(reply).next) < program_rank(build.phase) <= 13,
{
}

/// A build hands out a program only on a link status that reads as true, and
/// the program and shaders it hands out are the ones that were linked.
pub proof fn lemma_program_only_after_link(build: ProgramBuild, reply: Reply)
    requires
        build.wf(),
        build.accepts(reply),
        build.transition(reply).outcome matches Some(Ok(_)),
    ensures
        build.phase matches ProgramPhase::Linking { program, vertex, fragment }
            && build.transition(reply).outcome == Some(
            Ok::<Linked, BuildFailure>(Linked { program, vertex, fragment }),
        ),
        reply matches Reply::Status(status) && status_is_true(status),
{
}

/// The stage whose shader a program build is working on, if it is working
/// on one.
pub open spec fn stage_in_progress(phase: ProgramPhase) -> Option<ShaderType> {
    match phase {
        ProgramPhase::Vertex { .. } => Some(ShaderType::Vertex),
        ProgramPhase::Fragment { .. } => Some(ShaderType::Fragment),
        _ => None,
    }
}

/// The shader build inside a program build, if one is in progress.
pub open spec fn build_in_progress(phase: ProgramPhase) -> Option<ShaderPhase> {
    match phase {
        ProgramPhase::Vertex { build, .. } => Some(build),
        ProgramPhase::Fragment { build, .. } => Some(build),
        _ => None,
    }
}

/// A compile status that does not read as true ends the program build in
/// failure: the build asks for the length of the shader's log, then for the
/// log itself, and then reports the stage that failed with the log text that
/// the native layer wrote.  It makes no further call, and it hands out no
/// program.
pub proof fn lemma_compile_failure_is_reported(
    build: ProgramBuild,
    status: i32,
    length: i32,
    buffer: Vec<u8>,
    written: i32,
)
    requires
        build.wf(),
        build_in_progress(build.phase) matches Some(ShaderPhase::Compiling { .. }),
        !status_is_true(status),
        length >= 0,
        0 <= written <= buffer@.len(),
    ensures
        ({
            let shader = build_in_progress(build.phase)->Some_0->Compiling_shader;
            let first = build.transition(Reply::Status(status));
            let measuring = build.after(Reply::Status(status));
            let second = measuring.transition(Reply::Length(length));
            let reading = measuring.after(Reply::Length(length));
            let third = reading.transition(Reply::Log { buffer, written });
            &&& build.accepts(Reply::Status(status))
            &&& first.calls == seq![Request::GetShaderLogLength { shader }]
            &&& first.outcome is None
            &&& measuring.wf() && measuring.accepts(Reply::Length(length))
            &&& second.calls == seq![Request::GetShaderLog { shader, capacity: length }]
            &&& second.outcome is None
            &&& reading.wf() && reading.accepts(Reply::Log { buffer, written })
            &&& third.calls == Seq::<Request>::empty()
            &&& third.next is Finished
            &&& third.outcome == Some(
                Err::<Linked, BuildFailure>(
                    BuildFailure::Compile {
                        stage: stage_in_progress(build.phase)->Some_0,
                        log: log_text(buffer@, written as int),
                    },
                ),
            )
        }),
{
    let reading = build.after(Reply::Status(status)).after(Reply::Length(length));
    assert(reading.transition(Reply::Log { buffer, written }).calls =~= Seq::<Request>::empty());
}

/// A build in which every object is created and every status reads as true
/// ends with the linked program after six replies.  Its calls are, in order:
/// create the vertex shader, source, compile and query it, the same for the
/// fragment shader, then attach both, release both, link, and query the
/// link.
pub proof fn lemma_successful_build(
    build: ProgramBuild,
    program: u32,
    vertex: u32,
    fragment: u32,
    vertex_status: i32,
    fragment_status: i32,
    link_status: i32,
)
    requires
        build.wf(),
        build.phase is Creating,
        program != 0 && vertex != 0 && fragment != 0,
        status_is_true(vertex_status),
        status_is_true(fragment_status),
        status_is_true(link_status),
    ensures
        ({
            let created = build.after(Reply::Handle(program));
            let sourced = created.after(Reply::Handle(vertex));
            let compiled = sourced.after(Reply::Status(vertex_status));
            let sourced_again = compiled.after(Reply::Handle(fragment));
            let attached = sourced_again.after(Reply::Status(fragment_status));
            let linked = attached.transition(Reply::Status(link_status));
            &&& build.accepts(Reply::Handle(program))
            &&& build.transition(Reply::Handle(program)).calls == seq![
                Request::CreateShader { stage: ShaderType::Vertex },
            ]
            &&& created.wf() && created.accepts(Reply::Handle(vertex))
            &&& created.transition(Reply::Handle(vertex)).calls == seq![
                Request::ShaderSource {
                    shader: vertex,
                    stage: ShaderType::Vertex,
                    length: build.vertex_length,
                },
                Request::CompileShader { shader: vertex },
                Request::GetCompileStatus { shader: vertex },
            ]
            &&& sourced.wf() && sourced.accepts(Reply::Status(vertex_status))
            &&& sourced.transition(Reply::Status(vertex_status)).calls == seq![
                Request::CreateShader { stage: ShaderType::Fragment },
            ]
            &&& compiled.wf() && compiled.accepts(Reply::Handle(fragment))
            &&& compiled.transition(Reply::Handle(fragment)).calls == seq![
                Request::ShaderSource {
                    shader: fragment,
                    stage: ShaderType::Fragment,
                    length: build.fragment_length,
                },
                Request::CompileShader { shader: fragment },
                Request::GetCompileStatus { shader: fragment },
            ]
            &&& sourced_again.wf() && sourced_again.accepts(Reply::Status(fragment_status))
            &&& sourced_again.transition(Reply::Status(fragment_status)).calls == link_calls(
                program,
                vertex,
                fragment,
            )
            &&& attached.wf() && attached.accepts(Reply::Status(link_status))
            &&& linked.calls == Seq::<Request>::empty()
            &&& linked.next is Finished
            &&& linked.outcome == Some(
                Ok::<Linked, BuildFailure>(Linked { program, vertex, fragment }),
            )
        }),
{
    let created = build.after(Reply::Handle(program));
    let sourced = created.after(Reply::Handle(vertex));
    let compiled = sourced.after(Reply::Status(vertex_status));
    let sourced_again = compiled.after(Reply::Handle(fragment));
    let attached = sourced_again.after(Reply::Status(fragment_status));
    assert(sourced.transition(Reply::Status(vertex_status)).calls =~= seq![
        Request::CreateShader { stage: ShaderType::Fragment },
    ]);
    assert(sourced_again.transition(Reply::Status(fragment_status)).calls =~= link_calls(
        program,
        vertex,
        fragment,
    ));
    assert(attached.transition(Reply::Status(link_status)).calls =~= Seq::<Request>::empty());
}

/// Every shader that a step attaches to the program is released later in the
/// same step, and nothing after the release touches it.
pub proof fn lemma_attached_shader_is_released(build: ProgramBuild, reply: Reply, i: int)
    requires
        build.wf(),
        build.accepts(reply),
        0 <= i < build.transition(reply).calls.len(),
        build.transition(reply).calls[i] is AttachShader,
    ensures
        ({
            let calls = build.transition(reply).calls;
            let shader = calls[i]->AttachShader_shader;
            exists|j: int|
                i < j < calls.len() && #[trigger] calls[j] == (Request::DeleteShader { shader })
                    && forall|k: int|
                    j < k < calls.len() ==> shader_of(#[trigger] calls[k]) != Some(shader)
        }),
{
    let calls = build.transition(reply).calls;
    let shader = calls[i]->AttachShader_shader;
    match build.phase {
        ProgramPhase::Fragment { program, vertex, build: inner } => {
            let step = build.fragment_build(inner).transition(reply);
            assert(step.outcome matches Some(Ok(_)));
            let fragment = step.outcome->Some_0->Ok_0;
            assert(step.calls =~= seq![]);
            assert(calls =~= link_calls(program, vertex, fragment));
            let j = if i == 0 && vertex != fragment { 2int } else { 3int };
            assert(calls[j] == (Request::DeleteShader { shader }));
            assert forall|k: int| j < k < calls.len() implies shader_of(#[trigger] calls[k])
                != Some(shader) by {
                if k == 3 {
                    assert(calls[3] == (Request::DeleteShader { shader: fragment }));
                }
            }
        },
        _ => {
            assert(false);
        },
    }
}

/// Once the shaders are attached and released, no later call of the build
/// touches a shader.
pub proof fn lemma_released_shaders_stay_untouched(build: ProgramBuild, reply: Reply, k: int)
    requires
        build.wf(),
        build.accepts(reply),
        build.phase is Linking || build.phase is Measuring || build.phase is Reading,
        0 <= k < build.transition(reply).calls.len(),
    ensures
        shader_of(build.transition(reply).calls[k]) is None,
{
}

} // verus!
