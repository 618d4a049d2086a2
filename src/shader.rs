//! Decisions taken while a two-stage GPU program is built.
//!
//! The graphics calls themselves (create, compile, link, delete) are made by
//! the caller; this module decides, from what those calls reported, which
//! objects are released and what the caller gets back.
use vstd::prelude::*;

verus! {

/// The pipeline stage a shader object was compiled for.
#[derive(Clone, Copy, Debug, PartialEq, Eq, Structural)]
pub enum ShaderStage {
    Vertex,
    Fragment,
}

/// What compiling one stage left behind: the stage object, whether it
/// compiled, and its diagnostic log.
#[derive(Clone, Debug)]
pub struct StageReport {
    pub stage: ShaderStage,
    pub handle: u32,
    pub compiled: bool,
    pub log: String,
}

/// What a stage that failed with an empty log reports instead.
pub open spec fn stage_failure_note(stage: ShaderStage) -> Seq<char> {
    match stage {
        ShaderStage::Vertex => "vertex stage failed to compile\n"@,
        ShaderStage::Fragment => "fragment stage failed to compile\n"@,
    }
}

/// The text a stage contributes to a compilation error: nothing when it
/// compiled; its log when it failed, or a note naming the stage when that
/// log is empty.
pub open spec fn stage_error_text(r: StageReport) -> Seq<char> {
    if r.compiled {
        Seq::empty()
    } else if r.log@.len() == 0 {
        stage_failure_note(r.stage)
    } else {
        r.log@
    }
}

/// The error reported when at least one stage failed: the vertex stage's
/// text followed by the fragment stage's text.
pub open spec fn combined_error_text(vertex: StageReport, fragment: StageReport) -> Seq<char> {
    stage_error_text(vertex) + stage_error_text(fragment)
}

/// What to do once both stages have been compiled.
#[derive(Debug, PartialEq, Eq)]
pub enum CompileDecision {
    /// Both stages compiled: attach them to a new program, link it, then
    /// delete both stage objects, which the linked program no longer needs.
    Link { vertex: u32, fragment: u32 },
    /// At least one stage failed: delete both stage objects and fail.
    Abort { vertex: u32, fragment: u32, error: String },
}

/// What to do once the program has been linked (the stage objects are
/// released by the caller right after linking, whatever the outcome).
#[derive(Debug, PartialEq, Eq)]
pub enum LinkDecision {
    /// The program linked and is ready to use.
    Ready(Shader),
    /// Linking failed: delete the program object and fail.
    Abort { program: u32, error: String },
}

/// A linked GPU program, ready to bind.
#[derive(Debug, PartialEq, Eq)]
pub struct Shader {
    program: u32,
}

impl View for Shader {
    type V = u32;

    /// The handle of the linked program.
    closed spec fn view(&self) -> u32 {
        self.program
    }
}

impl Shader {
    /// The handle of the linked program, for binding it and for looking up
    /// its uniforms.
    pub fn program(&self) -> (r: u32)
        ensures
            r == self@,
    {
        self.program
    }
}

/// Decides what follows the compilation of both stages. Both logs are looked
/// at before anything fails, so that an error names every broken stage.
pub fn after_compile(vertex: StageReport, fragment: StageReport) -> (d: CompileDecision)
    requires
        vertex.stage == ShaderStage::Vertex,
        fragment.stage == ShaderStage::Fragment,
    ensures
        (vertex.compiled && fragment.compiled) <==> d is Link,
        d is Link ==> d->Link_vertex == vertex.handle && d->Link_fragment == fragment.handle,
        d is Abort ==> {
            &&& d->Abort_vertex == vertex.handle
            &&& d->Abort_fragment == fragment.handle
            &&& d->error@ == combined_error_text(vertex, fragment)
            &&& d->error@.len() > 0
        },
{
    let vertex_error = stage_error(&vertex);
    let fragment_error = stage_error(&fragment);
    match (vertex_error, fragment_error) {
        (None, None) => CompileDecision::Link { vertex: vertex.handle, fragment: fragment.handle },
        (vertex_error, fragment_error) => {
            let mut error = String::new();
            if let Some(text) = vertex_error {
                error.append(text.as_str());
            }
            if let Some(text) = fragment_error {
                error.append(text.as_str());
            }
            CompileDecision::Abort { vertex: vertex.handle, fragment: fragment.handle, error }
        },
    }
}

/// What a stage that failed to compile adds to the error; `None` for one
/// that compiled.
fn stage_error(r: &StageReport) -> (e: Option<String>)
    ensures
        r.compiled <==> e is None,
        e matches Some(t) ==> t@ == stage_error_text(*r) && t@.len() > 0,
{
    if r.compiled {
        None
    } else if r.log.as_str().unicode_len() == 0 {
        let mut t = String::new();
        match r.stage {
            ShaderStage::Vertex => {
                proof {
                    reveal_strlit("vertex stage failed to compile\n");
                }
                t.append("vertex stage failed to compile\n");
            },
            ShaderStage::Fragment => {
                proof {
                    reveal_strlit("fragment stage failed to compile\n");
                }
                t.append("fragment stage failed to compile\n");
            },
        }
        Some(t)
    } else {
        Some(r.log.clone())
    }
}

/// Decides what follows the linking of `program`: the program on success,
/// otherwise its release and the link log as the error.
pub fn after_link(program: u32, linked: bool, log: String) -> (d: LinkDecision)
    ensures
        linked <==> d is Ready,
        d matches LinkDecision::Ready(s) ==> s@ == program,
        d is Abort ==> d->program == program && d->error@ == log@,
{
    if linked {
        LinkDecision::Ready(Shader { program })
    } else {
        LinkDecision::Abort { program, error: log }
    }
}

/// When exactly one stage fails, the error is that stage's text and nothing
/// else: the stage that compiled adds no text, not even an empty one.
pub proof fn lemma_one_failed_stage_alone(vertex: StageReport, fragment: StageReport)
    requires
        vertex.compiled != fragment.compiled,
    ensures
        !vertex.compiled ==> combined_error_text(vertex, fragment) == stage_error_text(vertex),
        !fragment.compiled ==> combined_error_text(vertex, fragment) == stage_error_text(
            fragment,
        ),
        !vertex.compiled && vertex.log@.len() > 0 ==> combined_error_text(vertex, fragment)
            == vertex.log@,
        !fragment.compiled && fragment.log@.len() > 0 ==> combined_error_text(vertex, fragment)
            == fragment.log@,
{
    assert(Seq::<char>::empty() + stage_error_text(fragment) =~= stage_error_text(fragment));
    assert(stage_error_text(vertex) + Seq::<char>::empty() =~= stage_error_text(vertex));
}

/// When both stages fail, the error is the vertex stage's text followed by
/// the fragment stage's text, each its log (or a note naming the stage when
/// the log is empty), and it is never empty.
pub proof fn lemma_both_failed_stages_joined(vertex: StageReport, fragment: StageReport)
    requires
        vertex.stage == ShaderStage::Vertex,
        fragment.stage == ShaderStage::Fragment,
        !vertex.compiled,
        !fragment.compiled,
    ensures
        combined_error_text(vertex, fragment) == stage_error_text(vertex) + stage_error_text(
            fragment,
        ),
        vertex.log@.len() > 0 && fragment.log@.len() > 0 ==> combined_error_text(vertex, fragment)
            == vertex.log@ + fragment.log@,
        combined_error_text(vertex, fragment).len() > 0,
{
    reveal_strlit("vertex stage failed to compile\n");
    reveal_strlit("fragment stage failed to compile\n");
}

} // verus!
