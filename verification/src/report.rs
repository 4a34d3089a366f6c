//! From a test report to what the hosting service is told: a commit status,
//! and for a failure a comment that lists what failed.

use vstd::prelude::*;
use vstd::string::*;
use crate::amqp::AmqpResponse;
use crate::api::{
    comment_post, post_comment, post_status, posts_view, status_post, PostRequest, PostView, State,
};
use crate::config::Configuration;
use crate::hook::{branch_of, GitlabHook};
use crate::paths::{join_path, joined_path};
use crate::text::{decimal, format_decimal, join, joined};

verus! {

/// The report of a test run: the grade, and either an explanation of why
/// the run itself failed or the groups of tests that ran.
#[derive(Debug, PartialEq, Eq)]
pub struct Report {
    pub grade: usize,
    pub max_grade: usize,
    pub explanation: Option<String>,
    pub groups: Option<Vec<Group>>,
}

/// A group of tests that are graded together.
#[derive(Debug, PartialEq, Eq)]
pub struct Group {
    pub grade: usize,
    pub max_grade: usize,
    pub description: Option<String>,
    pub tests: Vec<Test>,
}

/// One test: what it checks, its weight, whether it passed, and the signal
/// that killed the program, if one did.
#[derive(Debug, PartialEq, Eq)]
pub struct Test {
    pub coefficient: usize,
    pub description: String,
    pub success: bool,
    pub signal: Option<u32>,
}

/// What the death of a program by a signal most likely means.
pub open spec fn signal_reason(signal: u32) -> Seq<char> {
    if signal == 4 {
        "illegal instruction"@
    } else if signal == 6 {
        "abort, possibly failed assertion"@
    } else if signal == 8 {
        "arithmetic exception"@
    } else if signal == 9 {
        "program killed, possibly infinite loop / OOM"@
    } else if signal == 10 {
        "bus error"@
    } else if signal == 11 {
        "segmentation fault"@
    } else {
        "crash (signal "@ + decimal(signal as nat) + ")"@
    }
}

/// Explains a signal to the reader of a report.
pub fn signal_to_explanation(signal: u32) -> (r: String)
    ensures
        r@ == signal_reason(signal),
{
    if signal == 4 {
        "illegal instruction".to_owned()
    } else if signal == 6 {
        "abort, possibly failed assertion".to_owned()
    } else if signal == 8 {
        "arithmetic exception".to_owned()
    } else if signal == 9 {
        "program killed, possibly infinite loop / OOM".to_owned()
    } else if signal == 10 {
        "bus error".to_owned()
    } else if signal == 11 {
        "segmentation fault".to_owned()
    } else {
        let mut r = "crash (signal ".to_owned();
        r.append(format_decimal(signal as u64).as_str());
        r.append(")");
        r
    }
}

/// How a grade reads next to the highest possible one.
pub open spec fn pass_fail_text(grade: nat, max_grade: nat) -> Seq<char> {
    if grade > max_grade {
        decimal(grade) + " passing out of "@ + decimal(max_grade) + " [!]"@
    } else if grade == max_grade {
        "all "@ + decimal(max_grade) + " passing"@
    } else if grade == 0 {
        "all "@ + decimal(max_grade) + " failing"@
    } else {
        decimal((max_grade - grade) as nat) + " failing out of "@ + decimal(max_grade)
    }
}

/// Words a grade: how much passes or fails out of how much.
pub fn pass_fail(grade: usize, max_grade: usize) -> (r: String)
    ensures
        r@ == pass_fail_text(grade as nat, max_grade as nat),
{
    if grade > max_grade {
        let mut r = format_decimal(grade as u64);
        r.append(" passing out of ");
        r.append(format_decimal(max_grade as u64).as_str());
        r.append(" [!]");
        r
    } else if grade == max_grade {
        let mut r = "all ".to_owned();
        r.append(format_decimal(max_grade as u64).as_str());
        r.append(" passing");
        r
    } else if grade == 0 {
        let mut r = "all ".to_owned();
        r.append(format_decimal(max_grade as u64).as_str());
        r.append(" failing");
        r
    } else {
        let mut r = format_decimal((max_grade - grade) as u64);
        r.append(" failing out of ");
        r.append(format_decimal(max_grade as u64).as_str());
        r
    }
}

/// The list item for a failed test: its description, its coefficient
/// unless that is 1, and the meaning of the signal if one was recorded.
pub open spec fn test_line(test: Test) -> Seq<char> {
    "- "@ + test.description@ + (if test.coefficient == 1 {
        Seq::<char>::empty()
    } else {
        " (coefficient "@ + decimal(test.coefficient as nat) + ")"@
    }) + (match test.signal {
        Some(s) => " ["@ + signal_reason(s) + "]"@,
        None => Seq::<char>::empty(),
    })
}

/// The list items for the tests that failed, in their order.
pub open spec fn failing_lines(tests: Seq<Test>) -> Seq<Seq<char>>
    decreases tests.len(),
{
    if tests.len() == 0 {
        Seq::empty()
    } else if tests.last().success {
        failing_lines(tests.drop_last())
    } else {
        failing_lines(tests.drop_last()).push(test_line(tests.last()))
    }
}

/// What a group's section says below its heading: the list of the tests
/// that failed.
pub open spec fn group_tests_text(group: Group) -> Seq<char> {
    "Failing tests:\n\n"@ + joined(failing_lines(group.tests@), "\n"@)
}

/// The heading of a group: its description, or a placeholder.
pub open spec fn group_title(group: Group) -> Seq<char> {
    match group.description {
        Some(d) => d@,
        None => "*Test group*"@,
    }
}

/// The section of the comment that is about one group.
pub open spec fn group_section(group: Group) -> Seq<char> {
    "### "@ + group_title(group) + " ("@ + pass_fail_text(
        group.grade as nat,
        group.max_grade as nat,
    ) + ")\n\n"@ + group_tests_text(group) + "\n"@
}

/// The sections for the groups that fall short of their highest grade, in
/// their order.
pub open spec fn failed_sections(groups: Seq<Group>) -> Seq<Seq<char>>
    decreases groups.len(),
{
    if groups.len() == 0 {
        Seq::empty()
    } else if groups.last().grade == groups.last().max_grade {
        failed_sections(groups.drop_last())
    } else {
        failed_sections(groups.drop_last()).push(group_section(groups.last()))
    }
}

/// The groups of a report; none where the report lists none.
pub open spec fn report_groups(report: Report) -> Seq<Group> {
    match report.groups {
        Some(g) => g@,
        None => Seq::empty(),
    }
}

/// The comment for a report. A report with an explanation is a run that
/// failed as a whole, and the comment quotes the explanation. Otherwise the
/// comment has a section for every group that lost points.
pub open spec fn report_markdown(lab: Seq<char>, report: Report) -> Seq<char> {
    match report.explanation {
        Some(e) => "## Error\n\nThere has been an error during the test for "@ + lab
            + ":\n\n```\n"@ + e@ + "\n```"@,
        None => "## Failed tests report for "@ + lab + " ("@ + pass_fail_text(
            report.grade as nat,
            report.max_grade as nat,
        ) + ")\n\n"@ + joined(failed_sections(report_groups(report)), "\n"@),
    }
}

fn render_test(test: &Test) -> (r: String)
    ensures
        r@ == test_line(*test),
{
    let mut r = "- ".to_owned();
    r.append(test.description.as_str());
    if test.coefficient != 1 {
        let mut c = " (coefficient ".to_owned();
        c.append(format_decimal(test.coefficient as u64).as_str());
        c.append(")");
        r.append(c.as_str());
    }
    match test.signal {
        Some(s) => {
            let mut t = " [".to_owned();
            t.append(signal_to_explanation(s).as_str());
            t.append("]");
            r.append(t.as_str());
        },
        None => {},
    }
    r
}

fn render_failing(tests: &Vec<Test>) -> (r: Vec<String>)
    ensures
        r.deep_view() == failing_lines(tests@),
{
    let mut r: Vec<String> = Vec::new();
    let mut i: usize = 0;
    while i < tests.len()
        invariant
            i <= tests.len(),
            r.deep_view() == failing_lines(tests@.take(i as int)),
        decreases tests.len() - i,
    {
        proof {
            assert(tests@.take(i + 1).drop_last() =~= tests@.take(i as int));
        }
        if !tests[i].success {
            let line = render_test(&tests[i]);
            r.push(line);
        }
        i = i + 1;
    }
    assert(tests@.take(tests.len() as int) =~= tests@);
    r
}

fn render_group(group: &Group) -> (r: String)
    ensures
        r@ == group_section(*group),
{
    let mut r = "### ".to_owned();
    match &group.description {
        Some(d) => {
            r.append(d.as_str());
        },
        None => {
            r.append("*Test group*");
        },
    }
    r.append(" (");
    r.append(pass_fail(group.grade, group.max_grade).as_str());
    r.append(")\n\n");
    let mut t = "Failing tests:\n\n".to_owned();
    let lines = render_failing(&group.tests);
    t.append(join(&lines, "\n").as_str());
    r.append(t.as_str());
    r.append("\n");
    r
}

fn render_sections(groups: &Vec<Group>) -> (r: Vec<String>)
    ensures
        r.deep_view() == failed_sections(groups@),
{
    let mut r: Vec<String> = Vec::new();
    let mut i: usize = 0;
    while i < groups.len()
        invariant
            i <= groups.len(),
            r.deep_view() == failed_sections(groups@.take(i as int)),
        decreases groups.len() - i,
    {
        proof {
            assert(groups@.take(i + 1).drop_last() =~= groups@.take(i as int));
        }
        if groups[i].grade != groups[i].max_grade {
            let section = render_group(&groups[i]);
            r.push(section);
        }
        i = i + 1;
    }
    assert(groups@.take(groups.len() as int) =~= groups@);
    r
}

/// Renders the comment for a report, and hands back the two grades.
pub fn report_to_markdown(lab: &str, report: &Report) -> (r: (String, usize, usize))
    ensures
        r.0@ == report_markdown(lab@, *report),
        r.1 == report.grade,
        r.2 == report.max_grade,
{
    match &report.explanation {
        Some(e) => {
            let mut r = "## Error\n\nThere has been an error during the test for ".to_owned();
            r.append(lab);
            r.append(":\n\n```\n");
            r.append(e.as_str());
            r.append("\n```");
            (r, report.grade, report.max_grade)
        },
        None => {
            let mut r = "## Failed tests report for ".to_owned();
            r.append(lab);
            r.append(" (");
            r.append(pass_fail(report.grade, report.max_grade).as_str());
            r.append(")\n\n");
            let sections = match &report.groups {
                Some(g) => render_sections(g),
                None => {
                    let v: Vec<String> = Vec::new();
                    v
                },
            };
            r.append(join(&sections, "\n").as_str());
            (r, report.grade, report.max_grade)
        },
    }
}

/// The state that a grade earns: success only for the highest grade.
pub open spec fn grade_state(grade: usize, max_grade: usize) -> State {
    if grade == max_grade {
        State::Success
    } else {
        State::Failed
    }
}

/// The description of the status for a grade.
pub open spec fn grade_description(grade: usize, max_grade: usize) -> Seq<char> {
    "grade: "@ + decimal(grade as nat) + "/"@ + decimal(max_grade as nat)
}

/// The posts that a report leads to: always the status, and for a failure
/// the comment after it. There are none where an address does not resolve.
pub open spec fn report_posts(
    config: &Configuration,
    lab: Seq<char>,
    report: Report,
    hook: &GitlabHook,
) -> Option<Seq<PostView>> {
    let state = grade_state(report.grade, report.max_grade);
    let status = status_post(
        &config.gitlab,
        hook,
        state,
        branch_of(hook.ref_@),
        lab,
        Some(grade_description(report.grade, report.max_grade)),
    );
    if state == State::Success {
        match status {
            Some(s) => Some(seq![s]),
            None => None,
        }
    } else {
        match (status, comment_post(&config.gitlab, hook, report_markdown(lab, report))) {
            (Some(s), Some(c)) => Some(seq![s, c]),
            _ => None,
        }
    }
}

/// What the reporter does for one result: the artifact to delete, and the
/// posts to send.
#[derive(Debug, PartialEq, Eq)]
pub struct Reporting {
    pub remove_file: String,
    pub posts: Option<Vec<PostRequest>>,
}

/// The views of an optional list of posts.
pub open spec fn opt_posts_view(o: Option<Vec<PostRequest>>) -> Option<Seq<PostView>> {
    match o {
        Some(v) => Some(posts_view(v@)),
        None => None,
    }
}

/// Turns the result of a job into what the hosting service is told. `report`
/// is the decoded report of the result, `hook` and `zip` what its opaque
/// payload decodes to.
pub fn response_to_post(
    config: &Configuration,
    response: &AmqpResponse,
    report: &Report,
    hook: &GitlabHook,
    zip: &str,
) -> (r: Reporting)
    requires
        hook.checkout_sha is Some,
    ensures
        r.remove_file@ == joined_path(config.package.zip_dir@, zip@),
        opt_posts_view(r.posts) == report_posts(config, response.lab@, *report, hook),
{
    let (markdown, grade, max_grade) = report_to_markdown(response.lab.as_str(), report);
    let remove_file = join_path(config.package.zip_dir.as_str(), zip);
    let state = if grade == max_grade {
        State::Success
    } else {
        State::Failed
    };
    let mut description = "grade: ".to_owned();
    description.append(format_decimal(grade as u64).as_str());
    description.append("/");
    description.append(format_decimal(max_grade as u64).as_str());
    let status = post_status(
        &config.gitlab,
        hook,
        &state,
        hook.branch_name(),
        response.lab.as_str(),
        Some(description.as_str()),
    );
    let posts = match status {
        None => None,
        Some(s) => {
            if state == State::Success {
                let mut v: Vec<PostRequest> = Vec::new();
                v.push(s);
                Some(v)
            } else {
                match post_comment(&config.gitlab, hook, markdown.as_str()) {
                    Some(c) => {
                        let mut v: Vec<PostRequest> = Vec::new();
                        v.push(s);
                        v.push(c);
                        Some(v)
                    },
                    None => None,
                }
            }
        },
    };
    Reporting { remove_file, posts }
}

/// What the opaque payload of a job decodes to: the push that the job was
/// made for, and the name of its artifact.
#[derive(Debug, PartialEq, Eq)]
pub struct Opaque {
    pub hook: GitlabHook,
    pub zip: String,
}

/// Whether a result can be reported: its report and its opaque payload
/// decode, and the push it was made for names a commit.
pub open spec fn reportable(report: Option<Report>, opaque: Option<Opaque>) -> bool {
    report is Some && opaque is Some && opaque->0.hook.checkout_sha is Some
}

/// Handles one result on the dispatcher. `report` is what the report of the
/// result decodes to and `opaque` what its opaque payload decodes to, `None`
/// where one does not decode. A result that cannot be reported is dropped:
/// nothing is deleted and nothing is posted.
pub fn report_delivery(
    config: &Configuration,
    response: &AmqpResponse,
    report: &Option<Report>,
    opaque: &Option<Opaque>,
) -> (r: Option<Reporting>)
    ensures
        r is Some <==> reportable(*report, *opaque),
        r is Some ==> {
            &&& r->0.remove_file@ == joined_path(config.package.zip_dir@, opaque->0.zip@)
            &&& opt_posts_view(r->0.posts) == report_posts(
                config,
                response.lab@,
                report->0,
                &opaque->0.hook,
            )
        },
{
    match (report, opaque) {
        (Some(decoded), Some(payload)) => {
            if payload.hook.is_delete() {
                None
            } else {
                Some(
                    response_to_post(config, response, decoded, &payload.hook, payload.zip.as_str()),
                )
            }
        },
        _ => None,
    }
}

} // verus!
