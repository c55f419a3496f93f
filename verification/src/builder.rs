//! The build tool: what each of its operations consists of, and the command
//! lines it runs. The tool itself runs the steps; here they are planned.
use vstd::prelude::*;
use vstd::string::StringExecFns;

use crate::scan::texts;

verus! {

/// How cargo builds the robot code.
#[derive(Clone, Copy, Debug, PartialEq, Eq, Structural)]
pub enum BuildMode {
    Debug,
    Release,
}

impl BuildMode {
    pub open spec fn spec_name(self) -> Seq<char> {
        match self {
            BuildMode::Debug => "debug"@,
            BuildMode::Release => "release"@,
        }
    }

    /// The name of the mode, which is also the name of the directory that
    /// cargo builds into.
    pub fn name(&self) -> (name: &'static str)
        ensures
            name@ == self.spec_name(),
    {
        match self {
            BuildMode::Debug => "debug",
            BuildMode::Release => "release",
        }
    }
}

impl BuildMode {
    /// The name of the mode, as text of its own.
    pub fn to_string(&self) -> (text: String)
        ensures
            text@ == self.spec_name(),
    {
        String::from_str(self.name())
    }
}

/// What the tool is asked to do.
#[derive(Clone, Copy, Debug, PartialEq, Eq, Structural)]
pub enum Operation {
    /// Regenerate the bindings of the host boundary.
    Regenerate,
    /// Build the robot code.
    Build { mode: BuildMode },
    /// Build the robot code and simulate it.
    Simulate { mode: BuildMode },
    /// Build the robot code and deploy it.
    Deploy { mode: BuildMode },
}

/// The tool's command line.
#[derive(Clone, Copy, Debug, PartialEq, Eq, Structural)]
pub struct Arguments {
    pub operation: Operation,
}

/// The machines the robot code is built for.
#[derive(Clone, Copy, Debug, PartialEq, Eq, Structural)]
pub enum Target {
    /// The robot's controller.
    Athena,
    /// The machine the tool runs on.
    Host,
}

impl Target {
    pub open spec fn spec_triple(self) -> Seq<char> {
        match self {
            Target::Athena => "arm-unknown-linux-gnueabi"@,
            Target::Host => "x86_64-unknown-linux-gnu"@,
        }
    }

    /// The target as cargo names it.
    pub fn triple(&self) -> (triple: &'static str)
        ensures
            triple@ == self.spec_triple(),
    {
        match self {
            Target::Athena => "arm-unknown-linux-gnueabi",
            Target::Host => "x86_64-unknown-linux-gnu",
        }
    }

    pub open spec fn spec_library(self) -> Seq<char> {
        match self {
            Target::Athena => "libferrobot_athena.a"@,
            Target::Host => "libferrobot_x64.a"@,
        }
    }

    /// The name under which the target's static library is handed to the
    /// host's build.
    pub fn library(&self) -> (library: &'static str)
        ensures
            library@ == self.spec_library(),
    {
        match self {
            Target::Athena => "libferrobot_athena.a",
            Target::Host => "libferrobot_x64.a",
        }
    }
}

/// The directories the tool works in.
#[derive(Clone, Copy, Debug, PartialEq, Eq, Structural)]
pub enum Directory {
    /// The host's project.
    Cpp,
    /// Where the host's build looks for static libraries.
    Libstatic,
    /// Where the host's build looks for headers.
    Include,
    /// Where the generated bindings go.
    FfiInclude,
}

/// The tasks of the host's build.
#[derive(Clone, Copy, Debug, PartialEq, Eq, Structural)]
pub enum GradleTask {
    Build,
    SimulateNativeRelease,
    Deploy,
}

impl GradleTask {
    pub open spec fn spec_name(self) -> Seq<char> {
        match self {
            GradleTask::Build => "build"@,
            GradleTask::SimulateNativeRelease => "simulateNativeRelease"@,
            GradleTask::Deploy => "deploy"@,
        }
    }

    pub fn name(&self) -> (name: &'static str)
        ensures
            name@ == self.spec_name(),
    {
        match self {
            GradleTask::Build => "build",
            GradleTask::SimulateNativeRelease => "simulateNativeRelease",
            GradleTask::Deploy => "deploy",
        }
    }
}

/// One step of an operation.
#[derive(Clone, Copy, Debug, PartialEq, Eq, Structural)]
pub enum Step {
    /// Remove the directory with all it holds, and create it empty.
    Clear(Directory),
    /// Write the bindings of the host boundary below the headers.
    WriteBindings,
    /// Build the robot code with cargo.
    Cargo { target: Target, mode: BuildMode },
    /// Copy the static library that cargo built.
    CopyLibrary { target: Target, mode: BuildMode },
    /// Make the directory the current one.
    Enter(Directory),
    /// Run a task of the host's build.
    Gradle(GradleTask),
}

/// The steps of regenerating the bindings.
pub open spec fn regenerate_steps() -> Seq<Step> {
    seq![Step::Clear(Directory::FfiInclude), Step::WriteBindings]
}

/// The steps of a build: the bindings first, then the robot code for both
/// targets, then the host's build.
pub open spec fn build_steps(mode: BuildMode) -> Seq<Step> {
    regenerate_steps() + seq![
        Step::Clear(Directory::Libstatic),
        Step::Cargo { target: Target::Athena, mode },
        Step::Cargo { target: Target::Host, mode },
        Step::CopyLibrary { target: Target::Athena, mode },
        Step::CopyLibrary { target: Target::Host, mode },
        Step::Enter(Directory::Cpp),
        Step::Gradle(GradleTask::Build),
    ]
}

/// The steps of an operation, in the order in which they are run. The first
/// step that fails ends the operation.
pub open spec fn steps(operation: Operation) -> Seq<Step> {
    match operation {
        Operation::Regenerate => regenerate_steps(),
        Operation::Build { mode } => build_steps(mode),
        Operation::Simulate { mode } => build_steps(mode).push(
            Step::Gradle(GradleTask::SimulateNativeRelease),
        ),
        Operation::Deploy { mode } => build_steps(mode).push(Step::Gradle(GradleTask::Deploy)),
    }
}

fn regenerate(plan: &mut Vec<Step>)
    ensures
        final(plan)@ == old(plan)@ + regenerate_steps(),
{
    plan.push(Step::Clear(Directory::FfiInclude));
    plan.push(Step::WriteBindings);
}

fn build(plan: &mut Vec<Step>, mode: BuildMode)
    ensures
        final(plan)@ == old(plan)@ + build_steps(mode),
{
    regenerate(plan);
    plan.push(Step::Clear(Directory::Libstatic));
    plan.push(Step::Cargo { target: Target::Athena, mode });
    plan.push(Step::Cargo { target: Target::Host, mode });
    plan.push(Step::CopyLibrary { target: Target::Athena, mode });
    plan.push(Step::CopyLibrary { target: Target::Host, mode });
    plan.push(Step::Enter(Directory::Cpp));
    plan.push(Step::Gradle(GradleTask::Build));
}

/// Plans the operation that the tool was asked for.
pub fn run(args: Arguments) -> (plan: Vec<Step>)
    ensures
        plan@ == steps(args.operation),
{
    let mut plan: Vec<Step> = Vec::new();
    match args.operation {
        Operation::Regenerate => {
            regenerate(&mut plan);
        },
        Operation::Build { mode } => {
            build(&mut plan, mode);
        },
        Operation::Simulate { mode } => {
            build(&mut plan, mode);
            plan.push(Step::Gradle(GradleTask::SimulateNativeRelease));
        },
        Operation::Deploy { mode } => {
            build(&mut plan, mode);
            plan.push(Step::Gradle(GradleTask::Deploy));
        },
    }
    plan
}

/// Every operation but regenerating starts with a whole build, and a build
/// starts with regenerating the bindings.
pub proof fn lemma_operations_build_first(mode: BuildMode)
    ensures
        regenerate_steps().is_prefix_of(steps(Operation::Build { mode })),
        steps(Operation::Build { mode }).is_prefix_of(steps(Operation::Simulate { mode })),
        steps(Operation::Build { mode }).is_prefix_of(steps(Operation::Deploy { mode })),
{
}

/// A command line, and the directory it is run in.
#[derive(Debug)]
pub struct Invocation {
    pub directory: Directory,
    pub program: String,
    pub arguments: Vec<String>,
}

/// Why a step failed.
#[derive(Debug)]
pub enum TaskError {
    /// The command ran and reported failure.
    Command { command: Vec<String> },
}

/// The arguments that cargo is run with: those given, and the release flag
/// where the mode asks for it.
pub open spec fn cargo_arguments(args: Seq<Seq<char>>, with_mode: BuildMode) -> Seq<Seq<char>> {
    if with_mode == BuildMode::Release {
        args.push("--release"@)
    } else {
        args
    }
}

/// The cargo command line for the given arguments and mode.
pub fn cargo(args: Vec<String>, with_mode: BuildMode) -> (invocation: Invocation)
    ensures
        invocation.directory == Directory::Cpp,
        invocation.program@ == "cargo"@,
        texts(invocation.arguments@) == cargo_arguments(texts(args@), with_mode),
{
    let mut arguments = args;
    match with_mode {
        BuildMode::Release => {
            arguments.push(String::from_str("--release"));
        },
        BuildMode::Debug => {},
    }
    Invocation { directory: Directory::Cpp, program: String::from_str("cargo"), arguments }
}

/// The command line of the host's build for the given arguments.
pub fn gradle(args: Vec<String>) -> (invocation: Invocation)
    ensures
        invocation.directory == Directory::Cpp,
        invocation.program@ == "./gradlew"@,
        invocation.arguments@ == args@,
{
    Invocation {
        directory: Directory::Cpp,
        program: String::from_str("./gradlew"),
        arguments: args,
    }
}

/// Judges a command that ran: one that reported failure fails the step, and
/// the error names its arguments.
pub fn exec(invocation: Invocation, success: bool) -> (result: Result<(), TaskError>)
    ensures
        success ==> result is Ok,
        !success ==> {
            &&& result matches Err(TaskError::Command { command })
            &&& command@ == invocation.arguments@
        },
{
    if !success {
        return Err(TaskError::Command { command: invocation.arguments });
    }
    Ok(())
}

} // verus!
