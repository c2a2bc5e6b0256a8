//! Shader programs: the handle of a linked program, and the state machine
//! that decides, from what the driver reports, how a program is built.
//!
//! Every requested stage is compiled; the program is linked only when all of
//! them compiled; the stage objects are released in any case. The caller
//! asks [`ShaderBuild::next_action`] what to do, does it, and reports the
//! driver's answer.
use vstd::prelude::*;
use crate::command::{Command, GlCommand};
use crate::gl;

verus! {

/// A linked program on the device.
#[derive(Clone, Copy, Debug, PartialEq, Eq, Structural)]
pub struct Shader {
    pub id: u32,
}

impl Shader {
    /// Makes this program the one that later draws and uniform settings use.
    pub fn use_program(&self) -> (r: GlCommand)
        ensures
            r == (Command::<String>::UseProgram { program: self.id }),
    {
        Command::UseProgram { program: self.id }
    }

    /// Sets the integer uniform `name` to `value`; a name that the program
    /// does not declare is ignored by the driver.
    pub fn set_int(&self, name: &str, value: i32) -> (r: GlCommand)
        ensures
            r@ == (Command::<Seq<char>>::SetUniformInt { program: self.id, name: name@, value }),
    {
        Command::SetUniformInt { program: self.id, name: name.to_owned(), value }
    }

    /// Sets the boolean uniform `name`: 1 for true, 0 for false.
    pub fn set_bool(&self, name: &str, value: bool) -> (r: GlCommand)
        ensures
            r@ == (Command::<Seq<char>>::SetUniformInt {
                program: self.id,
                name: name@,
                value: if value {
                    1
                } else {
                    0
                },
            }),
    {
        self.set_int(name, if value { 1 } else { 0 })
    }
}

#[derive(Clone, Copy, Debug, PartialEq, Eq, Structural)]
pub enum ShaderStage {
    Vertex,
    Fragment,
    Geometry,
}

pub open spec fn stage_type(stage: ShaderStage) -> u32 {
    match stage {
        ShaderStage::Vertex => gl::GL_VERTEX_SHADER,
        ShaderStage::Fragment => gl::GL_FRAGMENT_SHADER,
        ShaderStage::Geometry => gl::GL_GEOMETRY_SHADER,
    }
}

pub open spec fn stage_label(stage: ShaderStage) -> Seq<char> {
    match stage {
        ShaderStage::Vertex => "VERTEX"@,
        ShaderStage::Fragment => "FRAGMENT"@,
        ShaderStage::Geometry => "GEOMETRY"@,
    }
}

impl ShaderStage {
    /// The shader object type that the driver creates for this stage.
    pub fn shader_type(&self) -> (r: u32)
        ensures
            r == stage_type(*self),
    {
        match self {
            ShaderStage::Vertex => gl::GL_VERTEX_SHADER,
            ShaderStage::Fragment => gl::GL_FRAGMENT_SHADER,
            ShaderStage::Geometry => gl::GL_GEOMETRY_SHADER,
        }
    }

    /// The stage's name in diagnostics.
    pub fn label(&self) -> (r: &'static str)
        ensures
            r@ == stage_label(*self),
    {
        match self {
            ShaderStage::Vertex => "VERTEX",
            ShaderStage::Fragment => "FRAGMENT",
            ShaderStage::Geometry => "GEOMETRY",
        }
    }
}

/// A failure reported by the driver, with its log.
#[derive(Clone, Debug, PartialEq, Eq)]
pub enum ShaderError {
    Compile { stage: ShaderStage, log: String },
    Link { log: String },
}

pub open spec fn error_message(e: ShaderError) -> Seq<char> {
    match e {
        ShaderError::Compile { stage, log } => "ERROR::SHADER_COMPILATION_ERROR of type: "@ + stage_label(stage)
            + "\n"@ + log@ + "\n "@,
        ShaderError::Link { log } => "ERROR::PROGRAM_LINKING_ERROR of type: PROGRAM"@ + "\n"@ + log@ + "\n "@,
    }
}

impl ShaderError {
    /// The diagnostic text: what failed, then the driver's log.
    pub fn message(&self) -> (r: String)
        ensures
            r@ == error_message(*self),
    {
        match self {
            ShaderError::Compile { stage, log } => {
                let mut r = String::from_str("ERROR::SHADER_COMPILATION_ERROR of type: ");
                r.append(stage.label());
                r.append("\n");
                r.append(log.as_str());
                r.append("\n ");
                r
            },
            ShaderError::Link { log } => {
                let mut r = String::from_str("ERROR::PROGRAM_LINKING_ERROR of type: PROGRAM");
                r.append("\n");
                r.append(log.as_str());
                r.append("\n ");
                r
            },
        }
    }
}

/// What the caller does next for a build.
#[derive(Clone, Debug, PartialEq, Eq)]
pub enum BuildAction {
    /// Create a shader object of the stage's type, give it the stage's
    /// source, compile it, and report with [`ShaderBuild::compiled`].
    Compile(ShaderStage),
    /// Create a program, attach these shader objects, link it, and report
    /// with [`ShaderBuild::linked`].
    Link { shaders: Vec<u32> },
    /// Delete these shader objects and report with [`ShaderBuild::released`].
    Release { shaders: Vec<u32> },
    /// Nothing: [`ShaderBuild::finish`] gives the outcome.
    Done,
}

/// The progress of one program build.
#[derive(Clone, Debug)]
pub struct ShaderBuild {
    pub stages: Vec<ShaderStage>,
    /// The shader objects created so far, one for each stage in order.
    pub shaders: Vec<u32>,
    /// Each failure reported so far, in order.
    pub errors: Vec<ShaderError>,
    /// The program, once one was created and linked.
    pub program: Option<u32>,
    pub released: bool,
}

impl ShaderBuild {
    pub open spec fn awaiting_compile(&self) -> bool {
        self.shaders@.len() < self.stages@.len()
    }

    pub open spec fn awaiting_link(&self) -> bool {
        !self.awaiting_compile() && self.errors@.len() == 0 && self.program is None
    }

    pub open spec fn awaiting_release(&self) -> bool {
        !self.awaiting_compile() && !self.awaiting_link() && !self.released
    }

    pub open spec fn is_done(&self) -> bool {
        !self.awaiting_compile() && !self.awaiting_link() && self.released
    }

    pub open spec fn wf(&self) -> bool {
        &&& self.shaders@.len() <= self.stages@.len()
        &&& self.program is Some ==> !self.awaiting_compile()
        &&& self.released ==> !self.awaiting_compile() && !self.awaiting_link()
    }

    /// A build of a vertex and a fragment stage, and a geometry stage if
    /// `geometry` is set, in that order.
    pub fn new(geometry: bool) -> (r: ShaderBuild)
        ensures
            r.wf(),
            r.stages@ == if geometry {
                seq![ShaderStage::Vertex, ShaderStage::Fragment, ShaderStage::Geometry]
            } else {
                seq![ShaderStage::Vertex, ShaderStage::Fragment]
            },
            r.shaders@.len() == 0,
            r.errors@.len() == 0,
            r.program is None,
            !r.released,
    {
        let mut stages: Vec<ShaderStage> = Vec::new();
        stages.push(ShaderStage::Vertex);
        stages.push(ShaderStage::Fragment);
        if geometry {
            stages.push(ShaderStage::Geometry);
        }
        proof {
            if geometry {
                assert(stages@ =~= seq![ShaderStage::Vertex, ShaderStage::Fragment, ShaderStage::Geometry]);
            } else {
                assert(stages@ =~= seq![ShaderStage::Vertex, ShaderStage::Fragment]);
            }
        }
        ShaderBuild { stages, shaders: Vec::new(), errors: Vec::new(), program: None, released: false }
    }

    /// The next step: compile the stages in order, then link if every stage
    /// compiled, then release the shader objects, then nothing.
    pub fn next_action(&self) -> (r: BuildAction)
        requires
            self.wf(),
        ensures
            self.awaiting_compile() ==> r == BuildAction::Compile(self.stages@[self.shaders@.len() as int]),
            self.awaiting_link() ==> (r matches BuildAction::Link { shaders } && shaders@ == self.shaders@),
            self.awaiting_release() ==> (r matches BuildAction::Release { shaders } && shaders@ == self.shaders@),
            self.is_done() ==> r is Done,
    {
        if self.shaders.len() < self.stages.len() {
            BuildAction::Compile(self.stages[self.shaders.len()])
        } else if self.errors.len() == 0 && self.program.is_none() {
            let shaders = self.shaders.clone();
            assert(shaders@ =~= self.shaders@);
            BuildAction::Link { shaders }
        } else if !self.released {
            let shaders = self.shaders.clone();
            assert(shaders@ =~= self.shaders@);
            BuildAction::Release { shaders }
        } else {
            BuildAction::Done
        }
    }

    /// Reports that the current stage was compiled into `shader`; a failure
    /// is recorded with the stage and the driver's log.
    pub fn compiled(&mut self, shader: u32, success: bool, log: String)
        requires
            old(self).wf(),
            old(self).awaiting_compile(),
        ensures
            final(self).wf(),
            final(self).stages == old(self).stages,
            final(self).shaders@ == old(self).shaders@.push(shader),
            final(self).program == old(self).program,
            final(self).released == old(self).released,
            success ==> final(self).errors@ == old(self).errors@,
            !success ==> {
                &&& final(self).errors@.len() == old(self).errors@.len() + 1
                &&& final(self).errors@.drop_last() == old(self).errors@
                &&& (final(self).errors@.last() matches ShaderError::Compile { stage, log: l } && stage
                    == old(self).stages@[old(self).shaders@.len() as int] && l@ == log@)
            },
    {
        let stage = self.stages[self.shaders.len()];
        self.shaders.push(shader);
        if !success {
            self.errors.push(ShaderError::Compile { stage, log });
            assert(self.errors@.drop_last() =~= old(self).errors@);
        }
    }

    /// Reports that `program` was linked; a failure is recorded with the
    /// driver's log.
    pub fn linked(&mut self, program: u32, success: bool, log: String)
        requires
            old(self).wf(),
            old(self).awaiting_link(),
        ensures
            final(self).wf(),
            final(self).stages == old(self).stages,
            final(self).shaders == old(self).shaders,
            final(self).program == Some(program),
            final(self).released == old(self).released,
            success ==> final(self).errors@.len() == 0,
            !success ==> {
                &&& final(self).errors@.len() == 1
                &&& (final(self).errors@[0] matches ShaderError::Link { log: l } && l@ == log@)
            },
    {
        self.program = Some(program);
        if !success {
            self.errors.push(ShaderError::Link { log });
        }
    }

    /// Reports that the shader objects were deleted.
    pub fn released(&mut self)
        requires
            old(self).wf(),
            old(self).awaiting_release(),
        ensures
            final(self).wf(),
            final(self).is_done(),
            final(self).stages == old(self).stages,
            final(self).shaders == old(self).shaders,
            final(self).errors == old(self).errors,
            final(self).program == old(self).program,
    {
        self.released = true;
    }

    /// The outcome of a finished build: the program, when every stage
    /// compiled and it linked; else every failure, in order.
    pub fn finish(self) -> (r: Result<Shader, Vec<ShaderError>>)
        requires
            self.wf(),
            self.is_done(),
        ensures
            self.errors@.len() == 0 ==> r == Ok::<Shader, Vec<ShaderError>>(Shader { id: self.program.unwrap() }),
            self.errors@.len() > 0 ==> (r matches Err(es) && es@ == self.errors@),
    {
        if self.errors.len() == 0 {
            match self.program {
                Some(id) => Ok(Shader { id }),
                None => {
                    assert(false);
                    Err(self.errors)
                },
            }
        } else {
            Err(self.errors)
        }
    }
}

} // verus!
