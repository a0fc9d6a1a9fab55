//! Shader programs: a vertex and a fragment stage, compiled and linked.
//!
//! A program is built in steps, each of which hands out the GL calls to make
//! next and takes what the calls before it reported: a stage is compiled and,
//! if that went well, attached; when both are attached the program is
//! linked; when that went well the stages are detached and deleted.

use crate::device::Destroy;
use crate::errors::{Error, Result};
use crate::gl::{GlCommand, ShaderStage, FRAGMENT_SHADER, VERTEX_SHADER};
use vstd::prelude::*;

verus! {

/// The GL calls that detach a stage from a linked program and delete it.
pub open spec fn discard_commands(program: u32, shader: u32) -> Seq<GlCommand> {
    seq![GlCommand::DetachShader { program, shader }, GlCommand::DeleteShader { shader }]
}

/// A compiled and linked shader program.
#[derive(Debug, Clone, Copy, PartialEq, Eq)]
pub struct Shader {
    program: u32,
}

impl Shader {
    /// The GL name of the program.
    pub closed spec fn raw(self) -> u32 {
        self.program
    }

    /// The GL shader type of a stage.
    pub fn shader_type(stage: ShaderStage) -> (kind: u32)
        ensures
            kind == match stage {
                ShaderStage::Vertex => VERTEX_SHADER,
                ShaderStage::Fragment => FRAGMENT_SHADER,
            },
    {
        match stage {
            ShaderStage::Vertex => VERTEX_SHADER,
            ShaderStage::Fragment => FRAGMENT_SHADER,
        }
    }

    /// The GL calls that give the freshly created shader `shader` the source
    /// of its stage and compile it.
    pub fn compile(stage: ShaderStage, shader: u32) -> (commands: Vec<GlCommand>)
        ensures
            commands@ == seq![
                GlCommand::ShaderSource { shader, stage },
                GlCommand::CompileShader { shader },
            ],
    {
        let mut commands: Vec<GlCommand> = Vec::new();
        commands.push(GlCommand::ShaderSource { shader, stage });
        commands.push(GlCommand::CompileShader { shader });
        proof {
            assert(commands@ =~= seq![
                GlCommand::ShaderSource { shader, stage },
                GlCommand::CompileShader { shader },
            ]);
        }
        commands
    }

    /// What follows the compilation of a stage: the GL call that attaches
    /// the shader to the program, or `ShaderCompile` with the info log where
    /// the compile status is false.
    pub fn attach(program: u32, shader: u32, compiled: bool, info_log: String) -> (r: Result<
        Vec<GlCommand>,
    >)
        ensures
            compiled ==> r is Ok && r->Ok_0@ == seq![GlCommand::AttachShader { program, shader }],
            !compiled ==> r == Err::<Vec<GlCommand>, Error>(Error::ShaderCompile(info_log)),
    {
        if !compiled {
            return Err(Error::ShaderCompile(info_log));
        }
        let mut commands: Vec<GlCommand> = Vec::new();
        commands.push(GlCommand::AttachShader { program, shader });
        proof {
            assert(commands@ =~= seq![GlCommand::AttachShader { program, shader }]);
        }
        Ok(commands)
    }

    /// The GL call that links the program once both stages are attached.
    pub fn link(program: u32) -> (commands: Vec<GlCommand>)
        ensures
            commands@ == seq![GlCommand::LinkProgram { program }],
    {
        let mut commands: Vec<GlCommand> = Vec::new();
        commands.push(GlCommand::LinkProgram { program });
        proof {
            assert(commands@ =~= seq![GlCommand::LinkProgram { program }]);
        }
        commands
    }

    /// What follows the linking of the program: the shader, with the GL
    /// calls that detach and delete its two stages, vertex stage first; or
    /// `ShaderLink` with the info log where the link status is false.
    pub fn from_source(
        program: u32,
        vertex: u32,
        fragment: u32,
        linked: bool,
        info_log: String,
    ) -> (r: Result<(Shader, Vec<GlCommand>)>)
        ensures
            linked ==> r is Ok && r->Ok_0.0.raw() == program && r->Ok_0.1@ == discard_commands(
                program,
                vertex,
            ) + discard_commands(program, fragment),
            !linked ==> r == Err::<(Shader, Vec<GlCommand>), Error>(Error::ShaderLink(info_log)),
    {
        if !linked {
            return Err(Error::ShaderLink(info_log));
        }
        let mut commands: Vec<GlCommand> = Vec::new();
        commands.push(GlCommand::DetachShader { program, shader: vertex });
        commands.push(GlCommand::DeleteShader { shader: vertex });
        commands.push(GlCommand::DetachShader { program, shader: fragment });
        commands.push(GlCommand::DeleteShader { shader: fragment });
        proof {
            assert(commands@ =~= discard_commands(program, vertex) + discard_commands(
                program,
                fragment,
            ));
        }
        Ok((Shader { program }, commands))
    }

    /// The GL name of the program.
    pub fn program(&self) -> (program: u32)
        ensures
            program == self.raw(),
    {
        self.program
    }

    /// What the device is to delete when the shader is no longer used: its
    /// program.
    pub fn destroy(&self) -> (resource: Destroy)
        ensures
            resource == Destroy::Shader(self.raw()),
    {
        Destroy::Shader(self.program)
    }
}

} // verus!
