//! The decisions around the external build tool: which command to run for a
//! format, and what its termination means for the pipeline. Spawning the
//! process and waiting for it is left to the caller.

use vstd::prelude::*;

use crate::format::Format;

verus! {

/// The program that builds a Cargo project.
pub const CARGO_PROGRAM: &'static str = "cargo";

/// Its arguments for a release build.
pub const BUILD_ARG: &'static str = "build";

pub const RELEASE_ARG: &'static str = "--release";

/// A program and its argument list.
pub struct BuildCommand {
    pub program: String,
    pub args: Vec<String>,
}

/// What was observed of the build tool's termination.
#[derive(PartialEq, Eq, Structural, Clone, Copy, Debug)]
pub struct BuildOutcome {
    pub succeeded: bool,
    pub exit_code: Option<i32>,
}

/// Why the build step stops the pipeline.
#[derive(PartialEq, Eq, Structural, Clone, Copy, Debug)]
pub enum BuildError {
    /// The tool could not be located or spawned.
    ToolNotFound,
    /// The tool ran and did not succeed; its exit code, when it exited with
    /// one.
    BuildFailed { exit_code: Option<i32> },
}

/// The command that builds a project of format `format`.
pub fn build_command(format: &Format) -> (r: BuildCommand)
    requires
        format is Cargo,
    ensures
        r.program@ == CARGO_PROGRAM@,
        r.args@.len() == 2,
        r.args@[0]@ == BUILD_ARG@,
        r.args@[1]@ == RELEASE_ARG@,
{
    let args = vec![String::from_str(BUILD_ARG), String::from_str(RELEASE_ARG)];
    BuildCommand { program: String::from_str(CARGO_PROGRAM), args }
}

impl BuildOutcome {
    /// The outcome of a process that terminated with `exit_code` (`None`
    /// when it was stopped without one): it succeeded iff the code is zero.
    pub fn from_exit_code(exit_code: Option<i32>) -> (r: BuildOutcome)
        ensures
            r.succeeded == (exit_code == Some(0i32)),
            r.exit_code == exit_code,
    {
        let succeeded = match exit_code {
            Some(c) => c == 0,
            None => false,
        };
        BuildOutcome { succeeded, exit_code }
    }
}

/// What the pipeline makes of a build: `spawned` is `None` when the tool
/// could not be started, else its outcome. Only a successful build lets the
/// pipeline go on.
pub fn build_result(spawned: Option<BuildOutcome>) -> (r: Result<BuildOutcome, BuildError>)
    ensures
        spawned is None ==> r == Err::<BuildOutcome, BuildError>(BuildError::ToolNotFound),
        spawned is Some && spawned->Some_0.succeeded ==> r == Ok::<BuildOutcome, BuildError>(
            spawned->Some_0,
        ),
        spawned is Some && !spawned->Some_0.succeeded ==> r == Err::<BuildOutcome, BuildError>(
            BuildError::BuildFailed { exit_code: spawned->Some_0.exit_code },
        ),
        r is Ok ==> r->Ok_0.succeeded,
{
    match spawned {
        None => Err(BuildError::ToolNotFound),
        Some(o) => {
            if o.succeeded {
                Ok(o)
            } else {
                Err(BuildError::BuildFailed { exit_code: o.exit_code })
            }
        },
    }
}

} // verus!
