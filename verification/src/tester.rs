//! The tester's side of a job: the container command that runs it, what to
//! make of the container's output, and the result that goes back.

use vstd::prelude::*;
use vstd::string::*;
use crate::amqp::{AmqpConfiguration, AmqpRequest, AmqpResponse, RequestView, ResponseView};
use crate::paths::{join_path, joined_path};
use crate::pipeline::Permits;
use crate::process::{decoded, from_utf8_lossy, Command, RunOutcome};
use crate::text::{concat3, opt_text, str_eq};
use crate::yaml::{error_report, error_report_text};

verus! {

/// Why a job produced no report of its own.
#[derive(Debug, PartialEq, Eq)]
pub enum TesterError {
    /// The container runtime could not be started; the text says why.
    CannotRun(String),
    /// No test file is configured for the lab (first) of the job (second).
    ConfigurationNotFound(String, String),
    /// The container ended with a failure; the text is what it wrote to its
    /// standard error.
    ExecutionError(String),
}

/// What the tester is configured with.
#[derive(Debug, PartialEq, Eq)]
pub struct TesterConfiguration {
    pub docker_image: String,
    pub dir_on_host: String,
    pub dir_in_docker: String,
    /// For each lab, the environment of its containers, in the order in
    /// which the variables are passed. Of two entries for one lab the first
    /// counts.
    pub env: Option<Vec<(String, Vec<(String, String)>)>>,
    pub extra_args: Option<Vec<String>>,
    pub parallelism: usize,
    pub program: String,
    /// For each lab, its test file inside the container. Of two entries
    /// for one lab the first counts.
    pub test_files: Vec<(String, String)>,
}

/// Everything the tester is configured with.
#[derive(Debug, PartialEq, Eq)]
pub struct Configuration {
    pub amqp: AmqpConfiguration,
    pub tester: TesterConfiguration,
}

/// The permits of the executor: as many containers run at a time as the
/// configuration allows, and no more.
pub fn executor_permits(config: &TesterConfiguration) -> (r: Permits)
    ensures
        r.capacity() == config.parallelism,
        r.in_flight() == 0,
{
    Permits::new(config.parallelism)
}

/// What is said of an error in the report that stands in for the job's own.
pub open spec fn explanation_of(error: TesterError) -> Seq<char> {
    match error {
        TesterError::CannotRun(_) => "cannot run command"@,
        TesterError::ConfigurationNotFound(lab, job) => "unable to find configuration for lab '"@
            + lab@ + "' for '"@ + job@ + "'"@,
        TesterError::ExecutionError(stderr) => stderr@,
    }
}

impl TesterError {
    /// The error in words.
    pub fn to_string(&self) -> (r: String)
        ensures
            r@ == explanation_of(*self),
    {
        match self {
            TesterError::CannotRun(_) => "cannot run command".to_owned(),
            TesterError::ConfigurationNotFound(lab, job) => {
                let mut r = "unable to find configuration for lab '".to_owned();
                r.append(lab.as_str());
                r.append("' for '");
                r.append(job.as_str());
                r.append("'");
                r
            },
            TesterError::ExecutionError(stderr) => stderr.clone(),
        }
    }
}

/// The value that the first entry for `key` holds.
pub open spec fn lookup<V>(entries: Seq<(String, V)>, key: Seq<char>) -> Option<V>
    decreases entries.len(),
{
    if entries.len() == 0 {
        None
    } else if entries[0].0@ == key {
        Some(entries[0].1)
    } else {
        lookup(entries.skip(1), key)
    }
}

/// Whether no key occurs twice in a list of entries.
pub open spec fn distinct_keys<V>(entries: Seq<(String, V)>) -> bool {
    forall|i: int, j: int|
        0 <= i < j < entries.len() ==> (#[trigger] entries[i]).0@ != (#[trigger] entries[j]).0@
}

/// Where no key occurs twice, every entry is found under its key, wherever
/// it stands in the list.
pub proof fn lookup_finds_each_entry<V>(entries: Seq<(String, V)>, i: int)
    requires
        distinct_keys(entries),
        0 <= i < entries.len(),
    ensures
        lookup(entries, entries[i].0@) == Some(entries[i].1),
    decreases i,
{
    if i > 0 {
        let rest = entries.skip(1);
        assert(entries[0].0@ != entries[i].0@);
        assert forall|a: int, b: int| 0 <= a < b < rest.len() implies (#[trigger] rest[a]).0@
            != (#[trigger] rest[b]).0@ by {
            assert(rest[a] == entries[a + 1]);
            assert(rest[b] == entries[b + 1]);
        }
        assert(rest[i - 1] == entries[i]);
        lookup_finds_each_entry(rest, i - 1);
    }
}

/// A key that no entry has is not found.
pub proof fn lookup_misses_absent_keys<V>(entries: Seq<(String, V)>, key: Seq<char>)
    requires
        forall|i: int| 0 <= i < entries.len() ==> (#[trigger] entries[i]).0@ != key,
    ensures
        lookup(entries, key) is None,
    decreases entries.len(),
{
    if entries.len() > 0 {
        let rest = entries.skip(1);
        assert forall|i: int| 0 <= i < rest.len() implies (#[trigger] rest[i]).0@ != key by {
            assert(rest[i] == entries[i + 1]);
        }
        lookup_misses_absent_keys(rest, key);
    }
}

/// Finds the value that the first entry for `key` holds.
pub fn find<'a, V>(entries: &'a Vec<(String, V)>, key: &str) -> (r: Option<&'a V>)
    ensures
        r is Some <==> lookup(entries@, key@) is Some,
        r is Some ==> *r->0 == lookup(entries@, key@)->0,
{
    let mut i: usize = 0;
    assert(entries@.skip(0) =~= entries@);
    while i < entries.len()
        invariant
            i <= entries.len(),
            lookup(entries@, key@) == lookup(entries@.skip(i as int), key@),
        decreases entries.len() - i,
    {
        assert(entries@.skip(i as int).skip(1) =~= entries@.skip(i + 1));
        if str_eq(entries[i].0.as_str(), key) {
            return Some(&entries[i].1);
        }
        i = i + 1;
    }
    None
}

/// The arguments that pass an environment to the container: `-e` and
/// `NAME=value` for each variable, in order.
pub open spec fn env_args(vars: Seq<(String, String)>) -> Seq<Seq<char>>
    decreases vars.len(),
{
    if vars.len() == 0 {
        Seq::empty()
    } else {
        env_args(vars.drop_last()) + seq!["-e"@, vars.last().0@ + "="@ + vars.last().1@]
    }
}

/// The environment configured for a lab; empty where none is.
pub open spec fn lab_env(
    env: Option<Vec<(String, Vec<(String, String)>)>>,
    lab: Seq<char>,
) -> Seq<(String, String)> {
    match env {
        Some(e) => match lookup(e@, lab) {
            Some(vars) => vars@,
            None => Seq::empty(),
        },
        None => Seq::empty(),
    }
}

/// The texts of a list of strings; none for no list.
pub open spec fn opt_list(list: Option<Vec<String>>) -> Seq<Seq<char>> {
    match list {
        Some(l) => l.deep_view(),
        None => Seq::empty(),
    }
}

/// The arguments of the container runtime for a job whose lab has the given
/// test file: run a fresh container that is removed afterwards, with the
/// host directory mounted, the lab's environment, the image, the extra
/// arguments, and then what the image's entry point takes: where the
/// artifact is, its top-level directory, the test program and the test file.
pub open spec fn docker_args(
    config: TesterConfiguration,
    request: RequestView,
    test_file: Seq<char>,
) -> Seq<Seq<char>> {
    seq!["run"@, "--rm"@, "-v"@, config.dir_on_host@ + ":"@ + config.dir_in_docker@] + env_args(
        lab_env(config.env, request.lab),
    ) + seq![config.docker_image@] + opt_list(config.extra_args) + seq![
        request.zip_url,
        request.dir,
        joined_path(config.dir_in_docker@, config.program@),
        joined_path(config.dir_in_docker@, test_file),
    ]
}

fn push_env(args: &mut Vec<String>, vars: &Vec<(String, String)>)
    ensures
        final(args).deep_view() == old(args).deep_view() + env_args(vars@),
{
    let mut i: usize = 0;
    while i < vars.len()
        invariant
            i <= vars.len(),
            args.deep_view() == old(args).deep_view() + env_args(vars@.take(i as int)),
        decreases vars.len() - i,
    {
        proof {
            assert(vars@.take(i + 1).drop_last() =~= vars@.take(i as int));
        }
        let ghost before = args.deep_view();
        let flag = "-e".to_owned();
        let pair = concat3(vars[i].0.as_str(), "=", vars[i].1.as_str());
        args.push(flag);
        args.push(pair);
        assert(args.deep_view() =~= before + seq!["-e"@, pair@]);
        i = i + 1;
    }
    assert(vars@.take(vars.len() as int) =~= vars@);
}

fn push_all(args: &mut Vec<String>, more: &Vec<String>)
    ensures
        final(args).deep_view() == old(args).deep_view() + more.deep_view(),
{
    let mut i: usize = 0;
    while i < more.len()
        invariant
            i <= more.len(),
            args.deep_view() == old(args).deep_view() + more.deep_view().take(i as int),
        decreases more.len() - i,
    {
        let ghost before = args.deep_view();
        let item = more[i].clone();
        args.push(item);
        assert(args.deep_view() =~= before + seq![more[i as int]@]);
        i = i + 1;
    }
}

/// Composes the container command for a job. There is none for a lab that
/// has no test file configured.
pub fn docker_command(config: &TesterConfiguration, request: &AmqpRequest) -> (r: Result<
    Command,
    TesterError,
>)
    ensures
        lookup(config.test_files@, request.lab@) matches Some(file) ==> {
            &&& r matches Ok(command)
            &&& command.program@ == "docker"@
            &&& command.args.deep_view() == docker_args(*config, request@, file@)
        },
        lookup(config.test_files@, request.lab@) is None ==> {
            &&& r matches Err(TesterError::ConfigurationNotFound(lab, job))
            &&& lab@ == request.lab@
            &&& job@ == request.job_name@
        },
{
    let test_file = match find(&config.test_files, request.lab.as_str()) {
        Some(file) => join_path(config.dir_in_docker.as_str(), file.as_str()),
        None => {
            return Err(
                TesterError::ConfigurationNotFound(request.lab.clone(), request.job_name.clone()),
            );
        },
    };
    let program = join_path(config.dir_in_docker.as_str(), config.program.as_str());
    let mut args: Vec<String> = Vec::new();
    args.push("run".to_owned());
    args.push("--rm".to_owned());
    args.push("-v".to_owned());
    args.push(concat3(config.dir_on_host.as_str(), ":", config.dir_in_docker.as_str()));
    match &config.env {
        Some(env) => match find(env, request.lab.as_str()) {
            Some(vars) => {
                push_env(&mut args, vars);
            },
            None => {},
        },
        None => {},
    }
    let ghost with_env = args.deep_view();
    args.push(config.docker_image.clone());
    assert(args.deep_view() =~= with_env + seq![config.docker_image@]);
    match &config.extra_args {
        Some(extra) => {
            push_all(&mut args, extra);
        },
        None => {},
    }
    let ghost with_extra = args.deep_view();
    args.push(request.zip_url.clone());
    args.push(request.dir.clone());
    args.push(program);
    args.push(test_file);
    assert(args.deep_view() =~= with_extra + seq![
        request.zip_url@,
        request.dir@,
        program@,
        test_file@,
    ]);
    Ok(Command { program: "docker".to_owned(), args })
}

/// Reads the outcome of a run: the report that the container wrote on its
/// standard output where it exited with 0, else an error.
pub fn interpret_output(outcome: &RunOutcome) -> (r: Result<String, TesterError>)
    ensures
        match *outcome {
            RunOutcome::NotStarted { error } => r matches Err(TesterError::CannotRun(e)) && e@
                == error@,
            RunOutcome::Exited { code, stdout, stderr } => if code == Some(0i32) {
                r matches Ok(yaml) && decoded(stdout@, yaml@)
            } else {
                r matches Err(TesterError::ExecutionError(e)) && decoded(stderr@, e@)
            },
        },
{
    match outcome {
        RunOutcome::NotStarted { error } => Err(TesterError::CannotRun(error.clone())),
        RunOutcome::Exited { code, stdout, stderr } => {
            if outcome.is_success() {
                Ok(from_utf8_lossy(stdout.as_slice()))
            } else {
                Err(TesterError::ExecutionError(from_utf8_lossy(stderr.as_slice())))
            }
        },
    }
}

/// Writes the report that stands in for a job that failed to run.
pub fn yaml_error(error: &TesterError) -> (r: Option<String>)
    ensures
        opt_text(r) == error_report_text(explanation_of(*error)),
{
    error_report(error.to_string().as_str())
}

/// The result of a job, given its report: everything that identifies the
/// job is carried over unchanged.
pub open spec fn response_for(request: RequestView, yaml: Seq<char>) -> ResponseView {
    ResponseView {
        job_name: request.job_name,
        lab: request.lab,
        opaque: request.opaque,
        yaml_result: yaml,
        result_queue: request.result_queue,
        delivery_tag: request.delivery_tag->0,
    }
}

/// The report that a run amounts to: the job's own, or the stand-in for the
/// error; `None` where the stand-in cannot be written.
pub open spec fn report_text(result: Result<String, TesterError>) -> Option<Seq<char>> {
    match result {
        Ok(yaml) => Some(yaml@),
        Err(e) => error_report_text(explanation_of(e)),
    }
}

/// Builds the result of a received job from its report.
pub fn respond(request: AmqpRequest, yaml: String) -> (r: AmqpResponse)
    requires
        request.delivery_tag is Some,
    ensures
        r@ == response_for(request@, yaml@),
        r@.opaque == request@.opaque,
{
    let delivery_tag = match request.delivery_tag {
        Some(t) => t,
        None => 0,
    };
    AmqpResponse {
        job_name: request.job_name,
        lab: request.lab,
        opaque: request.opaque,
        yaml_result: yaml,
        result_queue: request.result_queue,
        delivery_tag,
    }
}

/// Builds the result of a received job from what came of running it. A job
/// always gets a result: a run that failed gets the stand-in report. The
/// opaque payload of the job comes back unchanged.
pub fn execute_request(request: AmqpRequest, result: Result<String, TesterError>) -> (r: Option<
    AmqpResponse,
>)
    requires
        request.delivery_tag is Some,
    ensures
        r is Some <==> report_text(result) is Some,
        r is Some ==> r->0@ == response_for(request@, report_text(result)->0),
        r is Some ==> r->0@.opaque == request@.opaque,
{
    let yaml = match result {
        Ok(y) => Some(y),
        Err(e) => yaml_error(&e),
    };
    match yaml {
        Some(y) => Some(respond(request, y)),
        None => None,
    }
}

/// The opaque payload of a job comes back unchanged: whatever the payload
/// and whatever the report, the result of the job carries the same payload,
/// and so does the message that goes over the wire for it.
pub proof fn opaque_is_echoed(request: RequestView, yaml: Seq<char>)
    ensures
        response_for(request, yaml).opaque == request.opaque,
        crate::amqp::wire_response(response_for(request, yaml)).opaque == request.opaque,
{
}

} // verus!
