use graders::builder::{
    autogen, build, check_executable_bits, configure, driver_path, error_output, exec, make,
    run_test, stage_command, test_run, BuildProgress, FileProbe, Opt, RunError, Stage,
};
use graders::process::{Command, RunOutcome};

fn opt(with_llvm: Option<&str>, verbose: bool) -> Opt {
    Opt {
        with_llvm: with_llvm.map(|s| s.to_owned()),
        verbose,
        output_file: None,
        src: "/work/dt".to_owned(),
        top_level_dir: "dt".to_owned(),
        test_command: "/opt/tester".to_owned(),
        test_file: "/opt/tests/lab1.yml".to_owned(),
    }
}

fn ok() -> RunOutcome {
    RunOutcome::Exited { code: Some(0), stdout: vec![], stderr: vec![] }
}

fn fails(stderr: &str) -> RunOutcome {
    RunOutcome::Exited { code: Some(2), stdout: vec![], stderr: stderr.as_bytes().to_vec() }
}

fn fine() -> FileProbe {
    FileProbe { exists: true, executable: true }
}

fn absent() -> FileProbe {
    FileProbe { exists: false, executable: false }
}

fn command(program: &str, args: &[&str]) -> BuildProgress {
    BuildProgress::Run(Command {
        program: program.to_owned(),
        args: args.iter().map(|a| a.to_string()).collect(),
    })
}

#[test]
fn scripts_must_be_executable() {
    let locked = FileProbe { exists: true, executable: false };
    assert_eq!(check_executable_bits(&opt(None, false), fine(), fine()), Ok(()));
    assert_eq!(check_executable_bits(&opt(None, false), absent(), absent()), Ok(()));
    assert_eq!(
        check_executable_bits(&opt(None, false), locked, locked),
        Err(RunError::NotExecutable("/work/dt/configure".to_owned()))
    );
    assert_eq!(
        check_executable_bits(&opt(None, false), fine(), locked),
        Err(RunError::NotExecutable("/work/dt/autogen.sh".to_owned()))
    );
    assert_eq!(
        build(&opt(None, false), absent(), locked, &vec![]),
        BuildProgress::Finished(Err(RunError::NotExecutable("/work/dt/autogen.sh".to_owned())))
    );
}

#[test]
fn a_build_starts_with_make() {
    assert_eq!(build(&opt(None, false), fine(), fine(), &vec![]), command("make", &[]));
    assert_eq!(
        build(&opt(None, false), fine(), fine(), &vec![ok()]),
        BuildProgress::Finished(Ok(()))
    );
}

#[test]
fn a_build_falls_back_to_configure_and_autogen() {
    let o = opt(Some("/usr/lib/llvm"), false);
    let llvm = ["--with-llvm=/usr/lib/llvm"];
    assert_eq!(build(&o, fine(), fine(), &vec![fails("a")]), command("./configure", &llvm));
    assert_eq!(build(&o, fine(), fine(), &vec![fails("a"), ok()]), command("make", &[]));
    assert_eq!(
        build(&o, fine(), fine(), &vec![fails("a"), ok(), ok()]),
        BuildProgress::Finished(Ok(()))
    );
    assert_eq!(
        build(&o, fine(), fine(), &vec![fails("a"), fails("b")]),
        command("./autogen.sh", &[])
    );
    assert_eq!(
        build(&o, fine(), fine(), &vec![fails("a"), ok(), fails("c")]),
        command("./autogen.sh", &[])
    );
    assert_eq!(
        build(&o, fine(), fine(), &vec![fails("a"), fails("b"), ok()]),
        command("./configure", &llvm)
    );
    assert_eq!(
        build(&o, fine(), fine(), &vec![fails("a"), fails("b"), ok(), ok()]),
        command("make", &[])
    );
    assert_eq!(
        build(&o, fine(), fine(), &vec![fails("a"), fails("b"), ok(), ok(), ok()]),
        BuildProgress::Finished(Ok(()))
    );
}

#[test]
fn a_build_fails_with_the_last_error() {
    let o = opt(None, false);
    assert_eq!(
        build(&o, fine(), fine(), &vec![fails("a"), fails("b"), fails("c")]),
        BuildProgress::Finished(Err(RunError::Other("c".to_owned())))
    );
    assert_eq!(
        build(&o, fine(), fine(), &vec![fails("a"), fails("b"), ok(), fails("d")]),
        BuildProgress::Finished(Err(RunError::Other("d".to_owned())))
    );
    assert_eq!(
        build(&o, fine(), fine(), &vec![fails("a"), ok(), fails("c"), ok(), ok(), fails("f")]),
        BuildProgress::Finished(Err(RunError::Other("f".to_owned())))
    );
    let not_started = || RunOutcome::NotStarted { error: "no make".to_owned() };
    assert_eq!(
        build(&o, fine(), fine(), &vec![not_started(), not_started(), not_started()]),
        BuildProgress::Finished(Err(RunError::CannotBuildProgram(
            "no make".to_owned(),
            "/work/dt".to_owned()
        )))
    );
}

#[test]
fn stage_commands() {
    let o = opt(None, false);
    assert_eq!(stage_command(&o, Stage::FirstMake).program, "make");
    assert_eq!(stage_command(&o, Stage::Configure).program, "./configure");
    assert!(stage_command(&o, Stage::Configure).args.is_empty());
    assert_eq!(stage_command(&o, Stage::Autogen).program, "./autogen.sh");
    assert_eq!(stage_command(&o, Stage::LastMake).program, "make");
    assert_eq!(stage_command(&o, Stage::MakeAfterConfigure), make(&o));
    assert_eq!(stage_command(&o, Stage::ConfigureAfterAutogen), configure(&o));
    assert_eq!(autogen(&o).program, "./autogen.sh");
    assert_eq!(configure(&opt(Some("/l"), false)).args, vec!["--with-llvm=/l"]);
}

#[test]
fn build_commands_are_read_by_their_exit_code() {
    let o = opt(None, false);
    assert_eq!(exec(&o, &ok()), Ok(()));
    assert_eq!(exec(&o, &fails("boom")), Err(RunError::Other("boom".to_owned())));
    let killed = RunOutcome::Exited { code: None, stdout: vec![], stderr: b"x".to_vec() };
    assert_eq!(exec(&o, &killed), Err(RunError::Other("x".to_owned())));
}

#[test]
fn tests_are_started_with_the_driver_in_the_environment() {
    assert_eq!(driver_path("/work/dt"), "/work/dt/src/driver/dtiger");
    let run = test_run(&opt(None, true), "/work/dt/src/driver/dtiger");
    assert_eq!(run.command.program, "/opt/tester");
    assert_eq!(run.command.args, vec!["-v", "-y", "/opt/tests/lab1.yml"]);
    assert_eq!(run.env_name, "DTIGER");
    assert_eq!(run.env_value, "/work/dt/src/driver/dtiger");
    let quiet = test_run(&opt(None, false), "d");
    assert_eq!(quiet.command.args, vec!["-y", "/opt/tests/lab1.yml"]);
}

#[test]
fn tests_report_on_standard_output() {
    let o = opt(None, false);
    let done = RunOutcome::Exited { code: Some(0), stdout: b"grade: 3\n".to_vec(), stderr: vec![] };
    assert_eq!(run_test(&o, &done), Ok("grade: 3\n".to_owned()));
    assert_eq!(run_test(&o, &fails("bad")), Err(RunError::Other("bad".to_owned())));
    assert_eq!(
        run_test(&o, &RunOutcome::NotStarted { error: "denied".to_owned() }),
        Err(RunError::CannotRunTests(
            "denied".to_owned(),
            "/opt/tester".to_owned(),
            "/opt/tests/lab1.yml".to_owned()
        ))
    );
}

#[test]
fn run_errors_in_words() {
    assert_eq!(
        RunError::CannotBuildProgram("e".to_owned(), "/work/dt".to_owned()).to_string(),
        "cannot build program in `/work/dt`"
    );
    assert_eq!(
        RunError::CannotRunTests("e".to_owned(), "t".to_owned(), "f.yml".to_owned()).to_string(),
        "cannot run tests t -y f.yml"
    );
    assert_eq!(
        RunError::NotExecutable("/work/dt/configure".to_owned()).to_string(),
        "some files (e.g, `/work/dt/configure`) should be executable, but the executable bit is \
         not set"
    );
    assert_eq!(RunError::Other("boom".to_owned()).to_string(), "boom");
}

#[test]
fn errors_are_written_as_a_report() {
    let yaml = error_output(&RunError::Other("boom".to_owned()).to_string()).unwrap();
    let parsed: serde_yaml::Value = serde_yaml::from_str(&yaml).unwrap();
    assert_eq!(parsed["grade"].as_u64(), Some(0));
    assert_eq!(parsed["max-grade"].as_u64(), Some(1));
    assert_eq!(parsed["explanation"].as_str(), Some("boom"));
}
