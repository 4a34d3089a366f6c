//! The builder that runs inside the container: how the program under test
//! is built, how its tests are started, and what their outcome means.

use vstd::prelude::*;
use vstd::string::*;
use crate::paths::{join_path, joined_path};
use crate::process::{decoded, from_utf8_lossy, succeeded, Command, RunOutcome};
use crate::text::{concat2, opt_text};
use crate::yaml::{error_report, error_report_text};

verus! {

/// What the builder is started with.
#[derive(Debug, PartialEq, Eq)]
pub struct Opt {
    /// Use a non-standard LLVM.
    pub with_llvm: Option<String>,
    /// Run the tests in verbose mode.
    pub verbose: bool,
    /// The file to write the report to, instead of standard output.
    pub output_file: Option<String>,
    /// The source of the program: a directory, an archive, or the address
    /// of an archive.
    pub src: String,
    /// The directory that every entry of the archive must lie in.
    pub top_level_dir: String,
    /// The test driver.
    pub test_command: String,
    /// The configuration of the tests.
    pub test_file: String,
}

/// Why there is no report of the tests.
#[derive(Debug, PartialEq, Eq)]
pub enum RunError {
    /// A build command could not be started: the reason, then the source
    /// directory.
    CannotBuildProgram(String, String),
    /// The test driver could not be started: the reason, the driver and the
    /// test file.
    CannotRunTests(String, String, String),
    /// This file should be executable and is not.
    NotExecutable(String),
    /// A command failed; the text is what it wrote to its standard error.
    Other(String),
}

/// An error in words.
pub open spec fn run_error_text(error: RunError) -> Seq<char> {
    match error {
        RunError::CannotBuildProgram(_, src) => "cannot build program in `"@ + src@ + "`"@,
        RunError::CannotRunTests(_, command, file) => "cannot run tests "@ + command@ + " -y "@
            + file@,
        RunError::NotExecutable(file) => "some files (e.g, `"@ + file@
            + "`) should be executable, but the executable bit is not set"@,
        RunError::Other(text) => text@,
    }
}

impl RunError {
    /// The error in words.
    pub fn to_string(&self) -> (r: String)
        ensures
            r@ == run_error_text(*self),
    {
        match self {
            RunError::CannotBuildProgram(_, src) => {
                let mut r = "cannot build program in `".to_owned();
                r.append(src.as_str());
                r.append("`");
                r
            },
            RunError::CannotRunTests(_, command, file) => {
                let mut r = "cannot run tests ".to_owned();
                r.append(command.as_str());
                r.append(" -y ");
                r.append(file.as_str());
                r
            },
            RunError::NotExecutable(file) => {
                let mut r = "some files (e.g, `".to_owned();
                r.append(file.as_str());
                r.append("`) should be executable, but the executable bit is not set");
                r
            },
            RunError::Other(text) => text.clone(),
        }
    }
}

/// What is known of a file that a build may run.
#[derive(Debug, Clone, Copy, PartialEq, Eq)]
pub struct FileProbe {
    pub exists: bool,
    pub executable: bool,
}

/// A file is in the way of a build when it is there and cannot be run.
pub open spec fn lacks_bit(probe: FileProbe) -> bool {
    probe.exists && !probe.executable
}

/// The script of a source tree that is in the way of a build: `configure`
/// or else `autogen.sh`, where it is there and cannot be run.
pub open spec fn script_in_the_way(
    src: Seq<char>,
    configure: FileProbe,
    autogen: FileProbe,
) -> Option<Seq<char>> {
    if lacks_bit(configure) {
        Some(joined_path(src, "configure"@))
    } else if lacks_bit(autogen) {
        Some(joined_path(src, "autogen.sh"@))
    } else {
        None
    }
}

/// Checks the two scripts of a source tree: each of `configure` and
/// `autogen.sh` that is there has to be executable. The first that is not
/// is the error.
pub fn check_executable_bits(opt: &Opt, configure: FileProbe, autogen: FileProbe) -> (r: Result<
    (),
    RunError,
>)
    ensures
        match script_in_the_way(opt.src@, configure, autogen) {
            Some(file) => r matches Err(RunError::NotExecutable(f)) && f@ == file,
            None => r is Ok,
        },
{
    if configure.exists && !configure.executable {
        Err(RunError::NotExecutable(join_path(opt.src.as_str(), "configure")))
    } else if autogen.exists && !autogen.executable {
        Err(RunError::NotExecutable(join_path(opt.src.as_str(), "autogen.sh")))
    } else {
        Ok(())
    }
}

/// The commands of a build, in the order in which they may come: `make`;
/// if that fails `./configure` and `make`; if one of those fails
/// `./autogen.sh`, `./configure` and `make`.
#[derive(Debug, Clone, Copy, PartialEq, Eq, Structural)]
pub enum Stage {
    FirstMake,
    Configure,
    MakeAfterConfigure,
    Autogen,
    ConfigureAfterAutogen,
    LastMake,
}

/// The stage that follows a stage, given whether its command succeeded;
/// `None` where the build ends with that command.
pub open spec fn stage_after(stage: Stage, ok: bool) -> Option<Stage> {
    match stage {
        Stage::FirstMake => if ok {
            None
        } else {
            Some(Stage::Configure)
        },
        Stage::Configure => if ok {
            Some(Stage::MakeAfterConfigure)
        } else {
            Some(Stage::Autogen)
        },
        Stage::MakeAfterConfigure => if ok {
            None
        } else {
            Some(Stage::Autogen)
        },
        Stage::Autogen => if ok {
            Some(Stage::ConfigureAfterAutogen)
        } else {
            None
        },
        Stage::ConfigureAfterAutogen => if ok {
            Some(Stage::LastMake)
        } else {
            None
        },
        Stage::LastMake => None,
    }
}

/// Where a build stands.
pub enum Standing {
    /// The command of this stage is to be run next.
    Run(Stage),
    /// The build ended with the command whose outcome has this index.
    Ended(int),
}

/// Where a build stands that is at `stage` and has the outcomes from
/// `index` on still to take in.
pub open spec fn standing_from(stage: Stage, outcomes: Seq<RunOutcome>, index: int) -> Standing
    decreases outcomes.len() - index,
{
    if index < 0 || index >= outcomes.len() {
        Standing::Run(stage)
    } else {
        match stage_after(stage, succeeded(outcomes[index])) {
            Some(next) => standing_from(next, outcomes, index + 1),
            None => Standing::Ended(index),
        }
    }
}

/// The program of a stage.
pub open spec fn stage_program(stage: Stage) -> Seq<char> {
    match stage {
        Stage::FirstMake | Stage::MakeAfterConfigure | Stage::LastMake => "make"@,
        Stage::Configure | Stage::ConfigureAfterAutogen => "./configure"@,
        Stage::Autogen => "./autogen.sh"@,
    }
}

/// The arguments of a stage: none, but for `./configure` with a
/// non-standard LLVM.
pub open spec fn stage_args(stage: Stage, with_llvm: Option<Seq<char>>) -> Seq<Seq<char>> {
    match stage {
        Stage::Configure | Stage::ConfigureAfterAutogen => match with_llvm {
            Some(d) => seq!["--with-llvm="@ + d],
            None => Seq::empty(),
        },
        _ => Seq::empty(),
    }
}

/// Whether an error is the one for a command that did not succeed.
pub open spec fn is_failure_of(error: RunError, outcome: RunOutcome, src: Seq<char>) -> bool {
    match outcome {
        RunOutcome::NotStarted { error: reason } => error matches RunError::CannotBuildProgram(
            e,
            s,
        ) && e@ == reason@ && s@ == src,
        RunOutcome::Exited { stderr, .. } => error matches RunError::Other(text) && decoded(
            stderr@,
            text@,
        ),
    }
}

/// Reads the outcome of a build command, run in the source directory.
pub fn exec(opt: &Opt, outcome: &RunOutcome) -> (r: Result<(), RunError>)
    ensures
        succeeded(*outcome) ==> r is Ok,
        !succeeded(*outcome) ==> (r matches Err(e) && is_failure_of(e, *outcome, opt.src@)),
{
    match outcome {
        RunOutcome::NotStarted { error } => Err(
            RunError::CannotBuildProgram(error.clone(), opt.src.clone()),
        ),
        RunOutcome::Exited { code, stdout, stderr } => {
            if outcome.is_success() {
                Ok(())
            } else {
                Err(RunError::Other(from_utf8_lossy(stderr.as_slice())))
            }
        },
    }
}

/// The command that builds the program.
pub fn make(opt: &Opt) -> (r: Command)
    ensures
        r.program@ == "make"@,
        r.args.deep_view() == Seq::<Seq<char>>::empty(),
{
    let args: Vec<String> = Vec::new();
    Command { program: "make".to_owned(), args }
}

/// The command that configures the build, for a non-standard LLVM where one
/// is asked for.
pub fn configure(opt: &Opt) -> (r: Command)
    ensures
        r.program@ == "./configure"@,
        r.args.deep_view() == (match opt.with_llvm {
            Some(d) => seq!["--with-llvm="@ + d@],
            None => Seq::<Seq<char>>::empty(),
        }),
{
    let mut args: Vec<String> = Vec::new();
    match &opt.with_llvm {
        Some(d) => {
            let flag = concat2("--with-llvm=", d.as_str());
            args.push(flag);
        },
        None => {},
    }
    Command { program: "./configure".to_owned(), args }
}

/// The command that generates the configuration script.
pub fn autogen(opt: &Opt) -> (r: Command)
    ensures
        r.program@ == "./autogen.sh"@,
        r.args.deep_view() == Seq::<Seq<char>>::empty(),
{
    let args: Vec<String> = Vec::new();
    Command { program: "./autogen.sh".to_owned(), args }
}

/// The command of a stage, to be run in the source directory.
pub fn stage_command(opt: &Opt, stage: Stage) -> (r: Command)
    ensures
        r.program@ == stage_program(stage),
        r.args.deep_view() == stage_args(stage, opt_text(opt.with_llvm)),
{
    match stage {
        Stage::FirstMake | Stage::MakeAfterConfigure | Stage::LastMake => make(opt),
        Stage::Configure | Stage::ConfigureAfterAutogen => configure(opt),
        Stage::Autogen => autogen(opt),
    }
}

fn next_stage(stage: Stage, ok: bool) -> (r: Option<Stage>)
    ensures
        r == stage_after(stage, ok),
{
    match stage {
        Stage::FirstMake => if ok {
            None
        } else {
            Some(Stage::Configure)
        },
        Stage::Configure => if ok {
            Some(Stage::MakeAfterConfigure)
        } else {
            Some(Stage::Autogen)
        },
        Stage::MakeAfterConfigure => if ok {
            None
        } else {
            Some(Stage::Autogen)
        },
        Stage::Autogen => if ok {
            Some(Stage::ConfigureAfterAutogen)
        } else {
            None
        },
        Stage::ConfigureAfterAutogen => if ok {
            Some(Stage::LastMake)
        } else {
            None
        },
        Stage::LastMake => None,
    }
}

/// What a build does next.
#[derive(Debug, PartialEq, Eq)]
pub enum BuildProgress {
    /// Run this command in the source directory and come back with its
    /// outcome.
    Run(Command),
    /// The build is over.
    Finished(Result<(), RunError>),
}

/// Drives a build. `outcomes` are the outcomes of the commands run so far,
/// in order. A script that lacks its executable bit ends the build before
/// any command. Otherwise the build ends well with the first `make` that
/// succeeds, and badly when the last way of building has failed, with the
/// error of the command that failed last.
pub fn build(opt: &Opt, configure: FileProbe, autogen: FileProbe, outcomes: &Vec<RunOutcome>) -> (r:
    BuildProgress)
    ensures
        script_in_the_way(opt.src@, configure, autogen) matches Some(file) ==> (
        r matches BuildProgress::Finished(Err(RunError::NotExecutable(f))) && f@ == file),
        script_in_the_way(opt.src@, configure, autogen) is None ==> match standing_from(
            Stage::FirstMake,
            outcomes@,
            0,
        ) {
            Standing::Run(stage) => r matches BuildProgress::Run(command) && command.program@
                == stage_program(stage) && command.args.deep_view() == stage_args(
                stage,
                opt_text(opt.with_llvm),
            ),
            Standing::Ended(k) => 0 <= k < outcomes.len() && (if succeeded(outcomes[k]) {
                r matches BuildProgress::Finished(Ok(_))
            } else {
                r matches BuildProgress::Finished(Err(e)) && is_failure_of(
                    e,
                    outcomes[k],
                    opt.src@,
                )
            }),
        },
{
    match check_executable_bits(opt, configure, autogen) {
        Err(e) => {
            return BuildProgress::Finished(Err(e));
        },
        Ok(_) => {},
    }
    let mut stage = Stage::FirstMake;
    let mut i: usize = 0;
    while i < outcomes.len()
        invariant
            i <= outcomes.len(),
            script_in_the_way(opt.src@, configure, autogen) is None,
            standing_from(Stage::FirstMake, outcomes@, 0) == standing_from(
                stage,
                outcomes@,
                i as int,
            ),
        decreases outcomes.len() - i,
    {
        match next_stage(stage, outcomes[i].is_success()) {
            Some(next) => {
                stage = next;
            },
            None => {
                return BuildProgress::Finished(exec(opt, &outcomes[i]));
            },
        }
        i = i + 1;
    }
    BuildProgress::Run(stage_command(opt, stage))
}

/// A build runs at most six commands: whatever the outcomes, it has ended
/// once six of them are in.
pub proof fn build_ends(outcomes: Seq<RunOutcome>)
    requires
        outcomes.len() >= 6,
    ensures
        standing_from(Stage::FirstMake, outcomes, 0) is Ended,
{
    reveal_with_fuel(standing_from, 8);
}

/// Where the compiler driver lies in a source tree.
pub fn driver_path(src: &str) -> (r: String)
    ensures
        r@ == joined_path(src@, "src/driver/dtiger"@),
{
    join_path(src, "src/driver/dtiger")
}

/// How the tests are started: the command, and the variable that tells the
/// test driver where the compiler driver is.
#[derive(Debug, PartialEq, Eq)]
pub struct TestRun {
    pub command: Command,
    pub env_name: String,
    pub env_value: String,
}

/// The arguments of the test driver: `-v` where asked for, then `-y` and the
/// test file.
pub open spec fn test_args(verbose: bool, test_file: Seq<char>) -> Seq<Seq<char>> {
    if verbose {
        seq!["-v"@, "-y"@, test_file]
    } else {
        seq!["-y"@, test_file]
    }
}

/// Composes the start of the tests.
pub fn test_run(opt: &Opt, dtiger: &str) -> (r: TestRun)
    ensures
        r.command.program@ == opt.test_command@,
        r.command.args.deep_view() == test_args(opt.verbose, opt.test_file@),
        r.env_name@ == "DTIGER"@,
        r.env_value@ == dtiger@,
{
    let mut args: Vec<String> = Vec::new();
    if opt.verbose {
        args.push("-v".to_owned());
    }
    args.push("-y".to_owned());
    args.push(opt.test_file.clone());
    TestRun {
        command: Command { program: opt.test_command.clone(), args },
        env_name: "DTIGER".to_owned(),
        env_value: dtiger.to_owned(),
    }
}

/// Reads the outcome of the tests: their report where the driver exited
/// with 0, else an error.
pub fn run_test(opt: &Opt, outcome: &RunOutcome) -> (r: Result<String, RunError>)
    ensures
        match *outcome {
            RunOutcome::NotStarted { error } => r matches Err(RunError::CannotRunTests(e, c, f))
                && e@ == error@ && c@ == opt.test_command@ && f@ == opt.test_file@,
            RunOutcome::Exited { code, stdout, stderr } => if code == Some(0i32) {
                r matches Ok(report) && decoded(stdout@, report@)
            } else {
                r matches Err(RunError::Other(text)) && decoded(stderr@, text@)
            },
        },
{
    match outcome {
        RunOutcome::NotStarted { error } => Err(
            RunError::CannotRunTests(
                error.clone(),
                opt.test_command.clone(),
                opt.test_file.clone(),
            ),
        ),
        RunOutcome::Exited { code, stdout, stderr } => {
            if outcome.is_success() {
                Ok(from_utf8_lossy(stdout.as_slice()))
            } else {
                Err(RunError::Other(from_utf8_lossy(stderr.as_slice())))
            }
        },
    }
}

/// Writes the report that stands in for tests that did not run.
pub fn error_output(explanation: &str) -> (r: Option<String>)
    ensures
        opt_text(r) == error_report_text(explanation@),
{
    error_report(explanation)
}

} // verus!
