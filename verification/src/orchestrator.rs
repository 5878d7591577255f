//! The build orchestrator: the sequential, fail-fast stage machine, and the
//! exact command lines and environment the two host build-tool invocations
//! are given. The caller spawns the commands this module plans and feeds
//! each child's outcome back in.

use vstd::prelude::*;
use vstd::string::*;

use crate::error::{BuildError, TripleError};
use crate::layout::{spec_destination_dir, spec_distribution_root, joined_path, ToolchainLayout};
use crate::parse::{outcome_matches, parse_triple};
use crate::triple::{rust_render, zig_render, RustTarget, ZigTriple};

verus! {

/// The `ResolveTarget` stage: an explicit, non-empty CLI-supplied triple
/// is preferred over the host's own; either way the chosen string runs
/// through the whole parsing pipeline.
pub fn resolve_target(cli_target: &str, host_triple: &str) -> (r: Result<
    (ZigTriple, RustTarget),
    TripleError,
>)
    ensures
        cli_target@.len() > 0 ==> outcome_matches(r, parse_triple(cli_target@)),
        cli_target@.len() == 0 ==> outcome_matches(r, parse_triple(host_triple@)),
{
    if !cli_target.is_empty() {
        ZigTriple::new(cli_target)
    } else {
        ZigTriple::native(host_triple)
    }
}

/// One environment assignment a planned command runs under.
pub struct EnvAssignment {
    pub name: String,
    pub value: String,
}

/// A fully planned child-process invocation: the program, the directory it
/// runs in, the environment assignments added for it, and its arguments.
pub struct CommandSpec {
    pub program: String,
    pub current_dir: String,
    pub env: Vec<EnvAssignment>,
    pub args: Vec<String>,
}

/// Which of the two build-tool invocations to plan.
pub enum BuildInvocation {
    /// Stage 1: build the passthrough package for the host, the resolved
    /// portable triple exported through the environment so that each
    /// dispatcher binary embeds it.
    Passthrough { target: ZigTriple },
    /// Stage 2: cross-build the downstream project for the native triple,
    /// pointing the project's own toolchain-configuration step at the
    /// toolchain-description file and the staged artifact directory.
    CrossProject { rust_target: RustTarget, destination_dir: String },
}

/// The sequential stages of one bootstrap run. Each stage is fatal on
/// failure; nothing is retried or resumed.
#[derive(Debug, Clone, Copy, PartialEq, Eq, Structural)]
pub enum BuildStage {
    Start,
    ResolveTarget,
    BuildPassthroughToolchain,
    StageToolchainArtifacts,
    CrossBuildProject,
    Done,
    Failed,
}

/// The stage transition: success advances along the fixed sequence, any
/// failure moves to the terminal failed stage, and the two terminal stages
/// stay where they are.
pub open spec fn spec_next_stage(current: BuildStage, succeeded: bool) -> BuildStage {
    match current {
        BuildStage::Done => BuildStage::Done,
        BuildStage::Failed => BuildStage::Failed,
        _ => if !succeeded {
            BuildStage::Failed
        } else {
            match current {
                BuildStage::Start => BuildStage::ResolveTarget,
                BuildStage::ResolveTarget => BuildStage::BuildPassthroughToolchain,
                BuildStage::BuildPassthroughToolchain => BuildStage::StageToolchainArtifacts,
                BuildStage::StageToolchainArtifacts => BuildStage::CrossBuildProject,
                BuildStage::CrossBuildProject => BuildStage::Done,
                _ => current,
            }
        },
    }
}

/// Advance the stage machine by one completed step.
pub fn next_stage(current: &BuildStage, succeeded: bool) -> (n: BuildStage)
    ensures
        n == spec_next_stage(*current, succeeded),
{
    match current {
        BuildStage::Done => BuildStage::Done,
        BuildStage::Failed => BuildStage::Failed,
        _ => if !succeeded {
            BuildStage::Failed
        } else {
            match current {
                BuildStage::Start => BuildStage::ResolveTarget,
                BuildStage::ResolveTarget => BuildStage::BuildPassthroughToolchain,
                BuildStage::BuildPassthroughToolchain => BuildStage::StageToolchainArtifacts,
                BuildStage::StageToolchainArtifacts => BuildStage::CrossBuildProject,
                BuildStage::CrossBuildProject => BuildStage::Done,
                BuildStage::Done => BuildStage::Done,
                BuildStage::Failed => BuildStage::Failed,
            }
        },
    }
}

/// Whether a stage is terminal: the run is over, successfully or not.
pub fn is_terminal_stage(stage: &BuildStage) -> (b: bool)
    ensures
        b == (*stage == BuildStage::Done || *stage == BuildStage::Failed),
{
    match stage {
        BuildStage::Done => true,
        BuildStage::Failed => true,
        _ => false,
    }
}

/// Interpret one blocking child-process call: a child that could not be
/// spawned at all, one that ran and failed (its code kept, or the generic
/// fallback 1 when none is available), or success.
pub fn interpret_child_result(spawned: bool, success: bool, code: Option<i32>) -> (r: Result<
    (),
    BuildError,
>)
    ensures
        r is Ok <==> spawned && success,
        !spawned ==> r == Err::<(), BuildError>(BuildError::ChildSpawnFailure),
        spawned && !success ==> r == Err::<(), BuildError>(
            BuildError::ChildProcessFailure(
                if code is Some {
                    code->0
                } else {
                    1
                },
            ),
        ),
{
    if !spawned {
        Err(BuildError::ChildSpawnFailure)
    } else if !success {
        match code {
            Some(c) => Err(BuildError::ChildProcessFailure(c)),
            None => Err(BuildError::ChildProcessFailure(1)),
        }
    } else {
        Ok(())
    }
}

/// The host build tool and where its outputs go, held for the run.
pub struct CargoRunner {
    pub cargo_exe_path: String,
    pub toolchain_output_root: String,
}

impl CargoRunner {
    /// Remember the build-tool path and the toolchain output root.
    pub fn new(cargo_exe_path: &str, toolchain_output_root: &str) -> (r: Self)
        ensures
            r.cargo_exe_path@ == cargo_exe_path@,
            r.toolchain_output_root@ == toolchain_output_root@,
    {
        CargoRunner {
            cargo_exe_path: String::from_str(cargo_exe_path),
            toolchain_output_root: String::from_str(toolchain_output_root),
        }
    }

    /// The staging layout for one workspace and rendered triple, and the
    /// directories to create given what already exists on disk: nothing
    /// when the destination exists, otherwise the distribution root first
    /// when it too is missing, then the destination.
    pub fn init_directories(
        &self,
        workspace_root: &str,
        triple_str: &str,
        destination_exists: bool,
        distribution_exists: bool,
    ) -> (r: (ToolchainLayout, Vec<String>))
        ensures
            r.0.destination_dir@ == spec_destination_dir(
                workspace_root@,
                self.toolchain_output_root@,
                triple_str@,
            ),
            destination_exists ==> r.1.deep_view() == Seq::<Seq<char>>::empty(),
            !destination_exists && distribution_exists ==> r.1.deep_view() == seq![
                spec_destination_dir(workspace_root@, self.toolchain_output_root@, triple_str@),
            ],
            !destination_exists && !distribution_exists ==> r.1.deep_view() == seq![
                spec_distribution_root(workspace_root@, self.toolchain_output_root@),
                spec_destination_dir(workspace_root@, self.toolchain_output_root@, triple_str@),
            ],
    {
        let layout = ToolchainLayout::new(
            workspace_root,
            self.toolchain_output_root.as_str(),
            triple_str,
        );
        let plan = layout.creation_plan(destination_exists, distribution_exists);
        (layout, plan)
    }

    /// Plan one build-tool invocation: the exact program, working
    /// directory, environment and argument list for the requested stage.
    pub fn build(&self, workspace_root: &str, stage: &BuildInvocation) -> (c: CommandSpec)
        ensures
            c.program@ == self.cargo_exe_path@,
            c.current_dir@ == workspace_root@,
            match stage {
                BuildInvocation::Passthrough { target } => {
                    &&& c.env@.len() == 1
                    &&& c.env@[0].name@ == "ZIG_TRIPLE"@
                    &&& c.env@[0].value@ == zig_render(*target)
                    &&& c.args.deep_view() == seq![
                        "build"@,
                        "-p"@,
                        "zig_passthrough"@,
                        "--release"@,
                        "--target-dir"@,
                        self.toolchain_output_root@,
                    ]
                },
                BuildInvocation::CrossProject { rust_target, destination_dir } => {
                    &&& c.env@.len() == 2
                    &&& c.env@[0].name@ == "CMAKE_TOOLCHAIN_FILE"@
                    &&& c.env@[0].value@ == joined_path(workspace_root@, "toolchain.cmake"@)
                    &&& c.env@[1].name@ == "TOOLCHAIN_DIR"@
                    &&& c.env@[1].value@ == destination_dir@
                    &&& c.args.deep_view() == seq![
                        "build"@,
                        "-p"@,
                        "simba"@,
                        "--release"@,
                        "--target"@,
                        rust_render(*rust_target),
                    ]
                },
            },
    {
        let mut env: Vec<EnvAssignment> = Vec::new();
        let mut args: Vec<String> = Vec::new();
        args.push(String::from_str("build"));
        args.push(String::from_str("-p"));
        match stage {
            BuildInvocation::Passthrough { target } => {
                env.push(
                    EnvAssignment {
                        name: String::from_str("ZIG_TRIPLE"),
                        value: target.str(),
                    },
                );
                args.push(String::from_str("zig_passthrough"));
                args.push(String::from_str("--release"));
                args.push(String::from_str("--target-dir"));
                args.push(self.toolchain_output_root.clone());
                proof {
                    assert(args.deep_view() =~= seq![
                        "build"@,
                        "-p"@,
                        "zig_passthrough"@,
                        "--release"@,
                        "--target-dir"@,
                        self.toolchain_output_root@,
                    ]);
                }
            },
            BuildInvocation::CrossProject { rust_target, destination_dir } => {
                env.push(
                    EnvAssignment {
                        name: String::from_str("CMAKE_TOOLCHAIN_FILE"),
                        value: crate::layout::join_path(workspace_root, "toolchain.cmake"),
                    },
                );
                env.push(
                    EnvAssignment {
                        name: String::from_str("TOOLCHAIN_DIR"),
                        value: destination_dir.clone(),
                    },
                );
                args.push(String::from_str("simba"));
                args.push(String::from_str("--release"));
                args.push(String::from_str("--target"));
                args.push(rust_target.str());
                proof {
                    assert(args.deep_view() =~= seq![
                        "build"@,
                        "-p"@,
                        "simba"@,
                        "--release"@,
                        "--target"@,
                        rust_render(*rust_target),
                    ]);
                }
            },
        }
        CommandSpec {
            program: self.cargo_exe_path.clone(),
            current_dir: String::from_str(workspace_root),
            env,
            args,
        }
    }
}

} // verus!
