use ferrobot::builder::cargo;
use ferrobot::builder::exec;
use ferrobot::builder::gradle;
use ferrobot::builder::run;
use ferrobot::builder::Arguments;
use ferrobot::builder::BuildMode;
use ferrobot::builder::Directory;
use ferrobot::builder::GradleTask;
use ferrobot::builder::Operation;
use ferrobot::builder::Step;
use ferrobot::builder::Target;
use ferrobot::builder::TaskError;

fn strings(words: &[&str]) -> Vec<String> {
    words.iter().map(|word| word.to_string()).collect()
}

fn build(mode: BuildMode) -> Vec<Step> {
    vec![
        Step::Clear(Directory::FfiInclude),
        Step::WriteBindings,
        Step::Clear(Directory::Libstatic),
        Step::Cargo { target: Target::Athena, mode },
        Step::Cargo { target: Target::Host, mode },
        Step::CopyLibrary { target: Target::Athena, mode },
        Step::CopyLibrary { target: Target::Host, mode },
        Step::Enter(Directory::Cpp),
        Step::Gradle(GradleTask::Build),
    ]
}

#[test]
fn regenerate_clears_and_writes_the_bindings() {
    assert_eq!(
        run(Arguments { operation: Operation::Regenerate }),
        vec![Step::Clear(Directory::FfiInclude), Step::WriteBindings]
    );
}

#[test]
fn build_regenerates_first() {
    let plan = run(Arguments { operation: Operation::Build { mode: BuildMode::Release } });
    assert_eq!(plan, build(BuildMode::Release));
}

#[test]
fn simulate_and_deploy_build_first() {
    let mut simulate = build(BuildMode::Debug);
    simulate.push(Step::Gradle(GradleTask::SimulateNativeRelease));
    let operation = Operation::Simulate { mode: BuildMode::Debug };
    assert_eq!(run(Arguments { operation }), simulate);
    let mut deploy = build(BuildMode::Release);
    deploy.push(Step::Gradle(GradleTask::Deploy));
    let operation = Operation::Deploy { mode: BuildMode::Release };
    assert_eq!(run(Arguments { operation }), deploy);
}

#[test]
fn cargo_adds_the_release_flag() {
    let args = strings(&["build", "--target", Target::Athena.triple()]);
    let debug = cargo(args.clone(), BuildMode::Debug);
    assert_eq!(debug.program, "cargo");
    assert_eq!(debug.directory, Directory::Cpp);
    assert_eq!(debug.arguments, strings(&["build", "--target", "arm-unknown-linux-gnueabi"]));
    let release = cargo(args, BuildMode::Release);
    assert_eq!(
        release.arguments,
        strings(&["build", "--target", "arm-unknown-linux-gnueabi", "--release"])
    );
}

#[test]
fn gradle_runs_the_wrapper_in_the_host_project() {
    let invocation = gradle(strings(&[GradleTask::SimulateNativeRelease.name()]));
    assert_eq!(invocation.program, "./gradlew");
    assert_eq!(invocation.directory, Directory::Cpp);
    assert_eq!(invocation.arguments, strings(&["simulateNativeRelease"]));
}

#[test]
fn exec_fails_a_command_that_reported_failure() {
    assert!(exec(gradle(strings(&["build"])), true).is_ok());
    match exec(gradle(strings(&["deploy"])), false) {
        Err(TaskError::Command { command }) => assert_eq!(command, strings(&["deploy"])),
        other => panic!("expected a failed command, got {:?}", other),
    }
}

#[test]
fn names_are_those_of_the_tools() {
    assert_eq!(BuildMode::Debug.name(), "debug");
    assert_eq!(BuildMode::Release.name(), "release");
    assert_eq!(Target::Host.triple(), "x86_64-unknown-linux-gnu");
    assert_eq!(Target::Athena.library(), "libferrobot_athena.a");
    assert_eq!(Target::Host.library(), "libferrobot_x64.a");
    assert_eq!(GradleTask::Build.name(), "build");
    assert_eq!(GradleTask::Deploy.name(), "deploy");
}
