use graders::amqp::{AmqpRequest, AmqpResponse};
use graders::process::RunOutcome;
use graders::tester::{
    docker_command, execute_request, executor_permits, find, interpret_output, respond,
    yaml_error, TesterConfiguration, TesterError,
};

fn config() -> TesterConfiguration {
    TesterConfiguration {
        docker_image: "img".to_owned(),
        dir_on_host: "/host".to_owned(),
        dir_in_docker: "/work".to_owned(),
        env: Some(vec![
            ("lab0".to_owned(), vec![("Z".to_owned(), "0".to_owned())]),
            (
                "lab1".to_owned(),
                vec![("A".to_owned(), "1".to_owned()), ("B".to_owned(), "x=y".to_owned())],
            ),
        ]),
        extra_args: Some(vec!["--fast".to_owned(), "--quiet".to_owned()]),
        parallelism: 2,
        program: "builder".to_owned(),
        test_files: vec![
            ("lab0".to_owned(), "tests/lab0.yml".to_owned()),
            ("lab1".to_owned(), "tests/lab1.yml".to_owned()),
            ("lab3".to_owned(), "/abs/lab3.yml".to_owned()),
        ],
    }
}

fn request(lab: &str) -> AmqpRequest {
    AmqpRequest {
        job_name: "job".to_owned(),
        lab: lab.to_owned(),
        dir: "dt".to_owned(),
        zip_url: "http://d/zips/x.zip".to_owned(),
        result_queue: "gitlab".to_owned(),
        opaque: "\u{0}opaque \"bytes\" é".to_owned(),
        delivery_tag: Some(17),
    }
}

fn exited(code: Option<i32>, stdout: &[u8], stderr: &[u8]) -> RunOutcome {
    RunOutcome::Exited { code, stdout: stdout.to_vec(), stderr: stderr.to_vec() }
}

fn strings(list: &[&str]) -> Vec<String> {
    list.iter().map(|s| s.to_string()).collect()
}

#[test]
fn lookup_takes_the_first_entry() {
    let entries = vec![
        ("a".to_owned(), 1u32),
        ("b".to_owned(), 2u32),
        ("a".to_owned(), 3u32),
    ];
    assert_eq!(find(&entries, "a"), Some(&1));
    assert_eq!(find(&entries, "b"), Some(&2));
    assert_eq!(find(&entries, "c"), None);
}

#[test]
fn container_command() {
    let command = docker_command(&config(), &request("lab1")).unwrap();
    assert_eq!(command.program, "docker");
    assert_eq!(
        command.args,
        strings(&[
            "run",
            "--rm",
            "-v",
            "/host:/work",
            "-e",
            "A=1",
            "-e",
            "B=x=y",
            "img",
            "--fast",
            "--quiet",
            "http://d/zips/x.zip",
            "dt",
            "/work/builder",
            "/work/tests/lab1.yml",
        ])
    );
}

#[test]
fn container_command_without_env_and_extra_args() {
    let mut config = config();
    config.env = None;
    config.extra_args = None;
    let command = docker_command(&config, &request("lab3")).unwrap();
    assert_eq!(
        command.args,
        strings(&[
            "run",
            "--rm",
            "-v",
            "/host:/work",
            "img",
            "http://d/zips/x.zip",
            "dt",
            "/work/builder",
            "/abs/lab3.yml",
        ])
    );
}

#[test]
fn container_command_for_a_lab_without_env() {
    let command = docker_command(&config(), &request("lab3")).unwrap();
    assert_eq!(command.args[4], "img");
}

#[test]
fn unknown_lab_has_no_command() {
    let error = docker_command(&config(), &request("lab2")).unwrap_err();
    assert_eq!(error, TesterError::ConfigurationNotFound("lab2".to_owned(), "job".to_owned()));
    assert_eq!(error.to_string(), "unable to find configuration for lab 'lab2' for 'job'");
}

#[test]
fn error_texts() {
    assert_eq!(TesterError::CannotRun("no such file".to_owned()).to_string(), "cannot run command");
    assert_eq!(TesterError::ExecutionError("boom".to_owned()).to_string(), "boom");
}

#[test]
fn exit_code_zero_yields_the_report() {
    let result = interpret_output(&exited(Some(0), b"grade: 1\nmax-grade: 1\n", b"noise"));
    assert_eq!(result, Ok("grade: 1\nmax-grade: 1\n".to_owned()));
}

#[test]
fn other_endings_yield_an_error() {
    assert_eq!(
        interpret_output(&exited(Some(2), b"ignored", b"boom")),
        Err(TesterError::ExecutionError("boom".to_owned()))
    );
    assert_eq!(
        interpret_output(&exited(None, b"", b"killed")),
        Err(TesterError::ExecutionError("killed".to_owned()))
    );
    assert_eq!(
        interpret_output(&RunOutcome::NotStarted { error: "not found".to_owned() }),
        Err(TesterError::CannotRun("not found".to_owned()))
    );
}

#[test]
fn output_is_decoded_lossily() {
    assert_eq!(
        interpret_output(&exited(Some(0), b"a\xffb", b"")),
        Ok("a\u{fffd}b".to_owned())
    );
    assert_eq!(
        interpret_output(&exited(Some(0), "é→".as_bytes(), b"")),
        Ok("é→".to_owned())
    );
    assert_eq!(
        interpret_output(&exited(Some(1), b"", b"\xc3")),
        Err(TesterError::ExecutionError("\u{fffd}".to_owned()))
    );
}

#[test]
fn stand_in_report_is_yaml() {
    let yaml = yaml_error(&TesterError::ExecutionError("boom".to_owned())).unwrap();
    assert_eq!(yaml, "grade: 0\nmax-grade: 1\nexplanation: boom\n");
    let parsed: serde_yaml::Value = serde_yaml::from_str(&yaml).unwrap();
    assert_eq!(parsed["grade"].as_u64(), Some(0));
    assert_eq!(parsed["max-grade"].as_u64(), Some(1));
    assert_eq!(parsed["explanation"].as_str(), Some("boom"));
}

#[test]
fn stand_in_report_keeps_any_explanation() {
    let text = "line 1: \"quoted\"\n\tline 2 # not a comment\n- é";
    let yaml = yaml_error(&TesterError::ExecutionError(text.to_owned())).unwrap();
    let parsed: serde_yaml::Value = serde_yaml::from_str(&yaml).unwrap();
    assert_eq!(parsed["explanation"].as_str(), Some(text));
}

#[test]
fn executor_non_zero_exit() {
    let result = interpret_output(&exited(Some(2), b"", b"boom"));
    let response = execute_request(request("lab1"), result).unwrap();
    let parsed: serde_yaml::Value = serde_yaml::from_str(&response.yaml_result).unwrap();
    assert_eq!(parsed.as_mapping().unwrap().len(), 3);
    assert_eq!(parsed["grade"].as_u64(), Some(0));
    assert_eq!(parsed["max-grade"].as_u64(), Some(1));
    assert_eq!(parsed["explanation"].as_str(), Some("boom"));
    assert_eq!(response.result_queue, "gitlab");
    assert_eq!(response.delivery_tag, 17);
    assert_eq!(response.job_name, "job");
    assert_eq!(response.lab, "lab1");
}

#[test]
fn executor_success() {
    let response = execute_request(request("lab1"), Ok("grade: 2\n".to_owned())).unwrap();
    assert_eq!(
        response,
        AmqpResponse {
            job_name: "job".to_owned(),
            lab: "lab1".to_owned(),
            opaque: "\u{0}opaque \"bytes\" é".to_owned(),
            yaml_result: "grade: 2\n".to_owned(),
            result_queue: "gitlab".to_owned(),
            delivery_tag: 17,
        }
    );
}

#[test]
fn executor_without_configuration_reports_it() {
    let result = match docker_command(&config(), &request("lab2")) {
        Ok(_) => panic!("no command was expected"),
        Err(e) => Err(e),
    };
    let response = execute_request(request("lab2"), result).unwrap();
    let parsed: serde_yaml::Value = serde_yaml::from_str(&response.yaml_result).unwrap();
    assert_eq!(
        parsed["explanation"].as_str(),
        Some("unable to find configuration for lab 'lab2' for 'job'")
    );
}

#[test]
fn opaque_round_trip() {
    for opaque in ["", "plain", "\u{0}\u{1}\u{7f}", "{\"a\": [1, 2]}", "é→\u{10ffff}\n\r\t"] {
        let mut job = request("lab1");
        job.opaque = opaque.to_owned();
        assert_eq!(respond(job.duplicate(), "y".to_owned()).opaque, opaque);
        assert_eq!(execute_request(job.duplicate(), Ok("y".to_owned())).unwrap().opaque, opaque);
        let failed = Err(TesterError::ExecutionError("boom".to_owned()));
        assert_eq!(execute_request(job, failed).unwrap().opaque, opaque);
    }
}

#[test]
fn executor_runs_as_many_containers_as_configured() {
    let mut gate = executor_permits(&config());
    assert_eq!(gate.available(), 2);
    assert!(gate.try_acquire());
    assert!(gate.try_acquire());
    assert!(!gate.try_acquire());
    assert_eq!(gate.held(), 2);
}
