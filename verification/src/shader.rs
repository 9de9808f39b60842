//! Shader units, compiled shaders, and the linked program.
//!
//! The driver compiles and links; this module decides. The shell hands over
//! the raw outcome of each driver call — the handle, the status flag, the
//! diagnostic log — and the verified functions here turn it into a
//! `Result`, so that a broken handle is never passed on silently: the
//! caller sees either a valid handle or an error carrying the bounded
//! diagnostic text.

use vstd::prelude::*;
use crate::commands::GlCommand;

verus! {

/// Longest diagnostic log kept, in bytes.
pub const INFO_LOG_CAP: usize = 512;

/// A programmable pipeline stage.
#[derive(PartialEq, Eq, Structural, Clone, Copy, Debug)]
pub enum ShaderStage {
    /// The per-vertex stage.
    Vertex,
    /// The per-fragment stage.
    Fragment,
}

/// Source text for one stage, not yet compiled.
pub struct ShaderUnit {
    /// The shader-language source text.
    pub source: String,
    /// Which stage the text is for.
    pub stage: ShaderStage,
}

/// A shader the driver compiled: its native handle and its stage.
#[derive(PartialEq, Eq, Structural, Clone, Copy, Debug)]
pub struct CompiledShader {
    /// The driver's non-zero name for the shader object.
    pub handle: u32,
    /// Which stage it was compiled for.
    pub stage: ShaderStage,
}

/// A shader failed to compile: the stage and the driver's diagnostic text,
/// kept to at most [`INFO_LOG_CAP`] bytes.
#[derive(Debug)]
pub struct ShaderCompileError {
    /// The stage whose source was rejected.
    pub stage: ShaderStage,
    /// The driver's diagnostic text, bounded.
    pub log: Vec<u8>,
}

/// The program failed to link: the driver's diagnostic text, bounded.
#[derive(Debug)]
pub struct ProgramLinkError {
    /// The driver's diagnostic text, bounded.
    pub log: Vec<u8>,
}

/// A diagnostic log cut to the cap: the whole log if it fits, else its
/// first [`INFO_LOG_CAP`] bytes.
pub open spec fn spec_bounded_log(log: Seq<u8>) -> Seq<u8> {
    if log.len() <= INFO_LOG_CAP {
        log
    } else {
        log.take(INFO_LOG_CAP as int)
    }
}

/// Cut a diagnostic log to the cap.
fn bound_log(log: Vec<u8>) -> (r: Vec<u8>)
    ensures
        r@ == spec_bounded_log(log@),
{
    let mut log = log;
    if log.len() > INFO_LOG_CAP {
        log.truncate(INFO_LOG_CAP);
    }
    log
}

impl ShaderUnit {
    /// Pair source text with its stage.
    pub fn new(source: String, stage: ShaderStage) -> (u: ShaderUnit)
        ensures
            u.source@ == source@,
            u.stage == stage,
    {
        ShaderUnit { source, stage }
    }

    /// Judge the driver's compile outcome for this unit. The driver
    /// reported `status_ok` and `log` for the shader object `handle`;
    /// compilation counts as a success exactly when the status is good and
    /// the handle names a real object (non-zero). On failure the error
    /// carries this unit's stage and the bounded log.
    pub fn interpret_compile(&self, handle: u32, status_ok: bool, log: Vec<u8>) -> (r: Result<
        CompiledShader,
        ShaderCompileError,
    >)
        ensures
            r is Ok <==> (status_ok && handle != 0),
            r is Ok ==> r->Ok_0 == (CompiledShader { handle, stage: self.stage }),
            r is Err ==> r->Err_0.stage == self.stage && r->Err_0.log@ == spec_bounded_log(log@),
    {
        if status_ok && handle != 0 {
            Ok(CompiledShader { handle, stage: self.stage })
        } else {
            Err(ShaderCompileError { stage: self.stage, log: bound_log(log) })
        }
    }
}

/// Judge the driver's link outcome. The driver reported `status_ok` and
/// `log` for the program object `program`; linking counts as a success
/// exactly when the status is good and the handle is non-zero, and the
/// successful value is that handle itself. On failure the error carries the
/// bounded log.
pub fn interpret_link(program: u32, status_ok: bool, log: Vec<u8>) -> (r: Result<
    u32,
    ProgramLinkError,
>)
    ensures
        r is Ok <==> (status_ok && program != 0),
        r is Ok ==> r->Ok_0 == program,
        r is Err ==> r->Err_0.log@ == spec_bounded_log(log@),
{
    if status_ok && program != 0 {
        Ok(program)
    } else {
        Err(ProgramLinkError { log: bound_log(log) })
    }
}

/// The link sequence for a program, as data: attach every compiled shader
/// in order, link, then delete every shader in the same order.
pub open spec fn spec_link_plan(program: u32, shaders: Seq<CompiledShader>) -> Seq<GlCommand> {
    Seq::new(shaders.len(), |i: int| GlCommand::AttachShader {
        program,
        shader: shaders[i].handle,
    }) + seq![GlCommand::LinkProgram { program }] + Seq::new(
        shaders.len(),
        |i: int| GlCommand::DeleteShader { shader: shaders[i].handle },
    )
}

/// Compute the link sequence: attach each shader, link, and delete each
/// shader afterwards, so no shader object outlives the link whatever its
/// outcome.
pub fn link_plan(program: u32, shaders: &Vec<CompiledShader>) -> (plan: Vec<GlCommand>)
    ensures
        plan@ == spec_link_plan(program, shaders@),
{
    let n = shaders.len();
    let mut plan: Vec<GlCommand> = Vec::new();
    let mut i: usize = 0;
    while i < n
        invariant
            0 <= i <= n,
            n == shaders@.len(),
            plan@ =~= Seq::new(i as nat, |j: int| GlCommand::AttachShader {
                program,
                shader: shaders@[j].handle,
            }),
        decreases n - i,
    {
        plan.push(GlCommand::AttachShader { program, shader: shaders[i].handle });
        i = i + 1;
    }
    plan.push(GlCommand::LinkProgram { program });
    let mut k: usize = 0;
    while k < n
        invariant
            0 <= k <= n,
            n == shaders@.len(),
            plan@ =~= Seq::new(n as nat, |j: int| GlCommand::AttachShader {
                program,
                shader: shaders@[j].handle,
            }) + seq![GlCommand::LinkProgram { program }] + Seq::new(
                k as nat,
                |j: int| GlCommand::DeleteShader { shader: shaders@[j].handle },
            ),
        decreases n - k,
    {
        plan.push(GlCommand::DeleteShader { shader: shaders[k].handle });
        k = k + 1;
    }
    proof {
        assert(plan@ =~= spec_link_plan(program, shaders@));
    }
    plan
}

/// Every attached shader is also deleted: for each shader the link sequence
/// holds a delete command with that shader's handle, after the link command.
pub proof fn lemma_link_plan_deletes_all(program: u32, shaders: Seq<CompiledShader>)
    ensures
        forall|i: int|
            0 <= i < shaders.len() ==> spec_link_plan(program, shaders)[
                shaders.len() + 1 + i
            ] == (GlCommand::DeleteShader { shader: shaders[i].handle }),
{
}

} // verus!
