//! The linked program, and the order of the steps that build one.
//!
//! Compiling and linking are done by the graphics driver. What is decided
//! here is which step comes next and when to give up: the caller carries
//! out a step, reports how it ended, and is told what to do then.

use vstd::prelude::*;

verus! {

/// A linked GPU program with the locations of its two matrix uniforms.
#[derive(Copy, Clone, Debug, PartialEq, Eq)]
pub struct Shader {
    /// The driver's name for the program; 0 names no program.
    pub gl_handle: u32,
    /// Location of `u_proj`.
    pub proj_loc: i32,
    /// Location of `u_view`.
    pub view_loc: i32,
}

impl Shader {
    /// The value that stands for "no program".
    pub fn invalid() -> (out: Shader)
        ensures
            out == (Shader { gl_handle: 0, proj_loc: 0, view_loc: 0 }),
    {
        Shader { gl_handle: 0, proj_loc: 0, view_loc: 0 }
    }

    /// Whether this program is the one the driver reports as `bound`.
    pub fn is_bound(&self, bound: u32) -> (out: bool)
        ensures
            out == (self.gl_handle == bound),
    {
        self.gl_handle == bound
    }
}

/// One of the two programs that make up a shader.
#[derive(Copy, Clone, Debug, PartialEq, Eq)]
pub enum Stage {
    Vertex,
    Fragment,
}

/// What is to be done next while a program is built.
#[derive(Debug, PartialEq, Eq)]
pub enum BuildStep {
    /// Compile this stage and report the compile status and log.
    Compile(Stage),
    /// Attach this stage, which has compiled, to the program.
    Attach(Stage),
    /// Link the program and report the link status and log.
    Link,
    /// The program is linked; the stage objects can go.
    Finished,
    /// The build has failed with this diagnostic; the stage objects can go.
    Failed(String),
}

/// The step that follows `step` when it succeeded.
pub open spec fn step_after(step: BuildStep) -> BuildStep {
    match step {
        BuildStep::Compile(stage) => BuildStep::Attach(stage),
        BuildStep::Attach(Stage::Vertex) => BuildStep::Compile(Stage::Fragment),
        BuildStep::Attach(Stage::Fragment) => BuildStep::Link,
        BuildStep::Link => BuildStep::Finished,
        BuildStep::Finished => BuildStep::Finished,
        BuildStep::Failed(log) => BuildStep::Failed(log),
    }
}

/// Whether `step` can fail: the driver reports a status for it.
pub open spec fn reports_status(step: BuildStep) -> bool {
    step is Compile || step is Link
}

impl BuildStep {
    /// The step a build starts with: compiling the vertex stage.
    pub fn first() -> (out: BuildStep)
        ensures
            out == BuildStep::Compile(Stage::Vertex),
    {
        BuildStep::Compile(Stage::Vertex)
    }

    /// The step to take after this one, given the `status` that the driver
    /// reported for it and its diagnostic `log`.
    ///
    /// Compiling and linking fail with a status of 0: the build then ends
    /// with the log. Otherwise each stage is compiled and then attached,
    /// the vertex stage first, the program is linked, and the build is
    /// finished. Attaching reports nothing, so `status` and `log` are not
    /// looked at after it, and a build that has ended stays as it is.
    pub fn next(self, status: i32, log: String) -> (out: BuildStep)
        ensures
            reports_status(self) && status == 0 ==> out == BuildStep::Failed(log),
            !(reports_status(self) && status == 0) ==> out == step_after(self),
    {
        match self {
            BuildStep::Compile(stage) => {
                if status == 0 {
                    BuildStep::Failed(log)
                } else {
                    BuildStep::Attach(stage)
                }
            },
            BuildStep::Attach(Stage::Vertex) => BuildStep::Compile(Stage::Fragment),
            BuildStep::Attach(Stage::Fragment) => BuildStep::Link,
            BuildStep::Link => {
                if status == 0 {
                    BuildStep::Failed(log)
                } else {
                    BuildStep::Finished
                }
            },
            BuildStep::Finished => BuildStep::Finished,
            BuildStep::Failed(text) => BuildStep::Failed(text),
        }
    }
}

} // verus!
