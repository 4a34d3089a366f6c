//! From a push to grading jobs: what to clone, which labs to package, how
//! artifacts are named, and the job that goes out for each packaged lab.

use vstd::prelude::*;
use vstd::string::*;
use crate::amqp::{AmqpRequest, RequestView};
use crate::api::{opt_post_view, post_status, status_post, url_join, url_joined, PostRequest, State};
use crate::config::{enabled_or_default, Configuration, LabConfiguration};
use crate::hook::{branch_of, GitlabHook};
use crate::paths::{acceptable_path, dotdot_at, has_dotdot, join_path, joined_path, zips_prefix};
use crate::pipeline::Permits;
use crate::text::{concat2, opt_text};

verus! {

/// The name under which the dispatcher clones.
pub open spec fn clone_username() -> Seq<char> {
    "grader"@
}

/// The queue on which the dispatcher waits for results.
pub open spec fn result_queue_name() -> Seq<char> {
    "gitlab"@
}

/// The queue on which the dispatcher waits for results.
pub fn result_queue() -> (r: &'static str)
    ensures
        r@ == result_queue_name(),
{
    "gitlab"
}

/// The permits of the packager: as many pushes are cloned and packaged at a
/// time as the configuration allows, and no more.
pub fn packaging_permits(config: &Configuration) -> (r: Permits)
    ensures
        r.capacity() == config.package.threads,
        r.in_flight() == 0,
{
    Permits::new(config.package.threads)
}

/// How to fetch the pushed commit: where from, as whom, which revision, and
/// how to check it out.
#[derive(Debug, PartialEq, Eq)]
pub struct ClonePlan {
    pub url: String,
    pub username: String,
    pub password: String,
    pub revision: String,
    /// Overwrite what is in the way.
    pub force: bool,
    pub remove_untracked: bool,
    pub remove_ignored: bool,
    /// Leave the head detached at the revision.
    pub detach_head: bool,
}

/// Plans the clone for a push: the repository's HTTP address with the
/// configured token as password, and a forced, clean, detached checkout of
/// exactly the pushed commit.
pub fn clone_plan(token: &str, hook: &GitlabHook) -> (r: ClonePlan)
    requires
        hook.checkout_sha is Some,
    ensures
        r.url@ == hook.repository.git_http_url@,
        r.username@ == clone_username(),
        r.password@ == token@,
        r.revision@ == hook.checkout_sha->0@,
        r.force && r.remove_untracked && r.remove_ignored && r.detach_head,
{
    ClonePlan {
        url: hook.url().to_owned(),
        username: "grader".to_owned(),
        password: token.to_owned(),
        revision: hook.pushed_sha().to_owned(),
        force: true,
        remove_untracked: true,
        remove_ignored: true,
        detach_head: true,
    }
}

/// Where a lab lies in a clone at `root`.
pub open spec fn lab_path(root: Seq<char>, lab: LabConfiguration) -> Seq<char> {
    joined_path(joined_path(root, lab.base@), lab.dir@)
}

/// Where the witness of a lab lies in a clone at `root`, if the lab has one.
pub open spec fn witness_path(root: Seq<char>, lab: LabConfiguration) -> Option<Seq<char>> {
    match lab.witness {
        Some(w) => Some(joined_path(lab_path(root, lab), w@)),
        None => None,
    }
}

/// What to look for in a clone to tell whether a lab is there.
#[derive(Debug, PartialEq, Eq)]
pub struct LabProbe {
    /// The index of the lab in the configuration.
    pub index: usize,
    /// Must be a directory.
    pub path: String,
    /// Must be a file, where there is one.
    pub witness: Option<String>,
}

/// Whether a probe is the one for the lab at its index.
pub open spec fn probes(probe: LabProbe, root: Seq<char>, labs: Seq<LabConfiguration>) -> bool {
    &&& probe.index < labs.len()
    &&& enabled_or_default(labs[probe.index as int].enabled)
    &&& probe.path@ == lab_path(root, labs[probe.index as int])
    &&& opt_text(probe.witness) == witness_path(root, labs[probe.index as int])
}

/// The indices of the enabled labs, in order.
pub open spec fn enabled_indices(labs: Seq<LabConfiguration>) -> Seq<usize>
    decreases labs.len(),
{
    if labs.len() == 0 {
        Seq::empty()
    } else if enabled_or_default(labs.last().enabled) {
        enabled_indices(labs.drop_last()).push((labs.len() - 1) as usize)
    } else {
        enabled_indices(labs.drop_last())
    }
}

/// The probe for one lab.
pub fn lab_probe(root: &str, labs: &Vec<LabConfiguration>, index: usize) -> (r: LabProbe)
    requires
        index < labs.len(),
        enabled_or_default(labs[index as int].enabled),
    ensures
        r.index == index,
        probes(r, root@, labs@),
{
    let lab = &labs[index];
    let path = join_path(join_path(root, lab.base.as_str()).as_str(), lab.dir.as_str());
    let witness = match &lab.witness {
        Some(w) => Some(join_path(path.as_str(), w.as_str())),
        None => None,
    };
    LabProbe { index, path, witness }
}

/// The probes for a clone at `root`: one for each enabled lab, in the order
/// of the configuration.
pub fn select_labs(root: &str, labs: &Vec<LabConfiguration>) -> (r: Vec<LabProbe>)
    ensures
        r.len() == enabled_indices(labs@).len(),
        forall|k: int|
            0 <= k < r.len() ==> (#[trigger] r[k]).index == enabled_indices(labs@)[k] && probes(
                r[k],
                root@,
                labs@,
            ),
{
    let mut r: Vec<LabProbe> = Vec::new();
    let mut i: usize = 0;
    while i < labs.len()
        invariant
            i <= labs.len(),
            r.len() == enabled_indices(labs@.take(i as int)).len(),
            forall|k: int|
                0 <= k < r.len() ==> (#[trigger] r[k]).index == enabled_indices(
                    labs@.take(i as int),
                )[k] && probes(r[k], root@, labs@),
        decreases labs.len() - i,
    {
        proof {
            assert(labs@.take(i + 1).drop_last() =~= labs@.take(i as int));
        }
        if labs[i].is_enabled() {
            let probe = lab_probe(root, labs, i);
            r.push(probe);
        }
        i = i + 1;
    }
    assert(labs@.take(labs.len() as int) =~= labs@);
    r
}

/// A lab is packaged when its directory is there and, where it has a
/// witness, the witness is a file.
pub open spec fn qualifies(lab: LabConfiguration, is_dir: bool, witness_is_file: bool) -> bool {
    is_dir && (lab.witness is None || witness_is_file)
}

/// Decides from what was found in the clone whether a lab is packaged.
/// `witness_is_file` counts only for a lab that has a witness.
pub fn lab_qualifies(lab: &LabConfiguration, is_dir: bool, witness_is_file: bool) -> (r: bool)
    ensures
        r == qualifies(*lab, is_dir, witness_is_file),
{
    is_dir && (lab.witness.is_none() || witness_is_file)
}

/// Whether a character can occur in the usual writing of a UUID: a digit, a
/// letter from `a` to `f`, or a hyphen.
pub open spec fn is_uuid_char(c: char) -> bool {
    ||| 0x30 <= c as u32 <= 0x39
    ||| 0x61 <= c as u32 <= 0x66
    ||| c == '-'
}

/// Whether a text has the shape of a random UUID in its usual writing: five
/// groups of lower-case hexadecimal digits with hyphens between them, the
/// third group beginning with the version, 4, and the fourth with one of
/// `8`, `9`, `a` and `b`.
pub open spec fn is_uuid_text(s: Seq<char>) -> bool {
    &&& s.len() == 36
    &&& forall|i: int| 0 <= i < 36 ==> is_uuid_char(#[trigger] s[i])
    &&& forall|i: int| 0 <= i < 36 ==> ((#[trigger] s[i]) == '-' <==> (i == 8 || i == 13 || i == 18 || i == 23))
    &&& s[14] == '4'
    &&& (s[19] == '8' || s[19] == '9' || s[19] == 'a' || s[19] == 'b')
}

/// Whether a text is the name of an artifact: a UUID and `.zip`.
pub open spec fn is_zip_name(s: Seq<char>) -> bool {
    s.len() == 40 && is_uuid_text(s.take(36)) && s.skip(36) == ".zip"@
}

/// A fresh random UUID from `uuid::Uuid::new_v4`, written by its `Display`
/// impl. Which one comes back is left open; the contract states what holds
/// of every one: the hyphenated lower-case writing of 36 characters, with
/// the version and variant digits that `new_v4` sets.
#[verifier::external_body]
fn new_uuid() -> (r: String)
    ensures
        is_uuid_text(r@),
{
    uuid::Uuid::new_v4().to_string()
}

/// A fresh name for an artifact.
pub fn fresh_zip_name() -> (r: String)
    ensures
        is_zip_name(r@),
{
    let id = new_uuid();
    let r = concat2(id.as_str(), ".zip");
    proof {
        reveal_strlit(".zip");
    }
    assert(r@.skip(36) =~= ".zip"@);
    r
}

/// The request path under which an artifact is served.
pub open spec fn served_at(zip: Seq<char>) -> Seq<char> {
    zips_prefix() + zip
}

/// Every artifact name is served: the path made of `/zips/` and the name is
/// acceptable, and the name served for it is the artifact's.
pub proof fn zip_names_are_served(zip: Seq<char>)
    requires
        is_zip_name(zip),
    ensures
        acceptable_path(served_at(zip)),
        crate::paths::served_name(served_at(zip)) == zip,
{
    reveal_strlit(".zip");
    let path = served_at(zip);
    assert(is_uuid_char(zip.take(36)[0]));
    assert forall|i: int| !dotdot_at(path, i) by {
        if 6 <= i < 42 {
            assert(is_uuid_char(zip.take(36)[i - 6]));
        } else if i == 42 {
            assert(path[i + 1] == zip.skip(36)[1]);
        } else if 42 < i && i + 2 <= path.len() {
            assert(path[i] == zip.skip(36)[i - 42]);
        }
    }
}

/// An artifact is served from where it was written: a request for `/zips/`
/// and the artifact's name is routed to the artifact, and the file looked up
/// for it in the artifact directory is the file that the packager wrote.
pub proof fn artifacts_are_served_from_where_they_are_written(
    zip_dir: Seq<char>,
    zip: Seq<char>,
)
    requires
        is_zip_name(zip),
    ensures
        crate::web::route_of(crate::web::Method::Get, served_at(zip)) == crate::web::RouteView::Zip(
            zip,
        ),
        joined_path(zip_dir, crate::paths::served_name(served_at(zip))) == joined_path(
            zip_dir,
            zip,
        ),
{
    zip_names_are_served(zip);
}

/// What to do for a lab that is packaged: the status to post first, and
/// what to zip into which file.
#[derive(Debug, PartialEq, Eq)]
pub struct Packaging {
    /// The status that says the lab is being packaged and tested.
    pub status: Option<PostRequest>,
    /// The name of the artifact.
    pub zip_basename: String,
    /// The file to write the artifact to.
    pub zip_file: String,
    /// The directory to zip.
    pub source: String,
    /// The name of the top-level directory inside the artifact.
    pub top_level: String,
}

/// Whether a packaging is the one for the lab, its directory in the clone
/// and the artifact name.
pub open spec fn packaging_for(
    p: Packaging,
    config: &Configuration,
    hook: &GitlabHook,
    lab: LabConfiguration,
    path: Seq<char>,
    zip_basename: Seq<char>,
) -> bool {
    &&& opt_post_view(p.status) == status_post(
        &config.gitlab,
        hook,
        State::Running,
        branch_of(hook.ref_@),
        lab.name@,
        Some("packaging and testing"@),
    )
    &&& p.zip_basename@ == zip_basename
    &&& p.zip_file@ == joined_path(config.package.zip_dir@, zip_basename)
    &&& p.source@ == path
    &&& p.top_level@ == lab.dir@
}

/// Starts the packaging of a lab under a given artifact name.
pub fn start_packaging_as(
    config: &Configuration,
    hook: &GitlabHook,
    lab: &LabConfiguration,
    path: &str,
    zip_basename: String,
) -> (r: Packaging)
    requires
        hook.checkout_sha is Some,
    ensures
        packaging_for(r, config, hook, *lab, path@, zip_basename@),
{
    let status = post_status(
        &config.gitlab,
        hook,
        &State::Running,
        hook.branch_name(),
        lab.name.as_str(),
        Some("packaging and testing"),
    );
    let zip_file = join_path(config.package.zip_dir.as_str(), zip_basename.as_str());
    Packaging {
        status,
        zip_basename,
        zip_file,
        source: path.to_owned(),
        top_level: lab.dir.clone(),
    }
}

/// Starts the packaging of a lab under a fresh artifact name.
pub fn start_packaging(
    config: &Configuration,
    hook: &GitlabHook,
    lab: &LabConfiguration,
    path: &str,
) -> (r: Packaging)
    requires
        hook.checkout_sha is Some,
    ensures
        is_zip_name(r.zip_basename@),
        packaging_for(r, config, hook, *lab, path@, r.zip_basename@),
{
    start_packaging_as(config, hook, lab, path, fresh_zip_name())
}

/// A lab that was packaged: its name, the top-level directory of its
/// artifact, the artifact's name, and the opaque payload of its job.
#[derive(Debug, PartialEq, Eq)]
pub struct PackagedLab {
    pub lab: String,
    pub dir: String,
    pub zip: String,
    pub opaque: String,
}

/// What came of packaging a lab.
#[derive(Debug, PartialEq, Eq)]
pub enum Packaged {
    /// The artifact is written.
    Done(PackagedLab),
    /// The artifact could not be written; the status says so.
    Failed { status: Option<PostRequest> },
}

/// Ends the packaging of a lab. `zipped` says whether the artifact was
/// written; `opaque` is the payload for the job, made of the push and the
/// artifact's name.
pub fn finish_packaging(
    config: &Configuration,
    hook: &GitlabHook,
    lab: &LabConfiguration,
    zip_basename: String,
    opaque: String,
    zipped: bool,
) -> (r: Packaged)
    requires
        hook.checkout_sha is Some,
    ensures
        zipped ==> (r matches Packaged::Done(p) && p.lab@ == lab.name@ && p.dir@ == lab.dir@
            && p.zip@ == zip_basename@ && p.opaque@ == opaque@),
        !zipped ==> (r matches Packaged::Failed { status } && opt_post_view(status) == status_post(
            &config.gitlab,
            hook,
            State::Failed,
            branch_of(hook.ref_@),
            lab.name@,
            Some("unable to package compiler"@),
        )),
{
    if zipped {
        Packaged::Done(
            PackagedLab { lab: lab.name.clone(), dir: lab.dir.clone(), zip: zip_basename, opaque },
        )
    } else {
        Packaged::Failed {
            status: post_status(
                &config.gitlab,
                hook,
                &State::Failed,
                hook.branch_name(),
                lab.name.as_str(),
                Some("unable to package compiler"),
            ),
        }
    }
}

/// The name of the job for a lab of a push.
pub open spec fn job_name_of(hook: &GitlabHook, lab: Seq<char>) -> Seq<char> {
    "[gitlab:"@ + hook.repository.name@ + ":"@ + hook.repository.homepage@ + ":"@ + hook.ref_@
        + ":"@ + hook.checkout_sha->0@ + ":"@ + lab + "]"@
}

/// The address of an artifact: its name resolved against `zips/` below the
/// dispatcher's base address.
pub open spec fn zip_url_of(base_url: Seq<char>, zip: Seq<char>) -> Option<Seq<char>> {
    match url_joined(base_url, "zips/"@) {
        Some(zips) => url_joined(zips, zip),
        None => None,
    }
}

/// The job for a packaged lab whose artifact is found at `zip_url`: named
/// after the push and the lab, answered on the dispatcher's result queue,
/// and not yet delivered.
pub open spec fn job_at(zip_url: Seq<char>, hook: &GitlabHook, lab: PackagedLab) -> RequestView {
    RequestView {
        job_name: job_name_of(hook, lab.lab@),
        lab: lab.lab@,
        dir: lab.dir@,
        zip_url,
        result_queue: result_queue_name(),
        opaque: lab.opaque@,
        delivery_tag: None,
    }
}

/// The job for a packaged lab, if the address of its artifact resolves.
pub open spec fn job_request_of(
    base_url: Seq<char>,
    hook: &GitlabHook,
    lab: PackagedLab,
) -> Option<RequestView> {
    match zip_url_of(base_url, lab.zip@) {
        Some(zip_url) => Some(job_at(zip_url, hook, lab)),
        None => None,
    }
}

/// The jobs for the packaged labs, in order; none at all if the address of
/// one artifact does not resolve.
pub open spec fn job_requests_of(
    base_url: Seq<char>,
    hook: &GitlabHook,
    labs: Seq<PackagedLab>,
) -> Option<Seq<RequestView>>
    decreases labs.len(),
{
    if labs.len() == 0 {
        Some(Seq::empty())
    } else {
        match (
            job_requests_of(base_url, hook, labs.drop_last()),
            job_request_of(base_url, hook, labs.last()),
        ) {
            (Some(before), Some(last)) => Some(before.push(last)),
            _ => None,
        }
    }
}

/// The view of an optional job.
pub open spec fn opt_request_view(o: Option<AmqpRequest>) -> Option<RequestView> {
    match o {
        Some(r) => Some(r@),
        None => None,
    }
}

/// The views of an optional list of jobs.
pub open spec fn opt_requests_view(o: Option<Vec<AmqpRequest>>) -> Option<Seq<RequestView>> {
    match o {
        Some(v) => Some(Seq::new(v@.len(), |i: int| v@[i]@)),
        None => None,
    }
}

/// Builds the job for a packaged lab whose artifact is found at `zip_url`.
pub fn job_for(zip_url: String, hook: &GitlabHook, lab: &PackagedLab) -> (r: AmqpRequest)
    requires
        hook.checkout_sha is Some,
    ensures
        r@ == job_at(zip_url@, hook, *lab),
{
    let mut job_name = "[gitlab:".to_owned();
    job_name.append(hook.repository.name.as_str());
    job_name.append(":");
    job_name.append(hook.repository.homepage.as_str());
    job_name.append(":");
    job_name.append(hook.ref_.as_str());
    job_name.append(":");
    job_name.append(hook.pushed_sha());
    job_name.append(":");
    job_name.append(lab.lab.as_str());
    job_name.append("]");
    AmqpRequest {
        job_name,
        lab: lab.lab.clone(),
        dir: lab.dir.clone(),
        zip_url,
        result_queue: result_queue().to_owned(),
        opaque: lab.opaque.clone(),
        delivery_tag: None,
    }
}

/// Builds the job for one packaged lab: resolves the address of its
/// artifact, and builds the job for that address.
pub fn job_request(base_url: &str, hook: &GitlabHook, lab: &PackagedLab) -> (r: Option<AmqpRequest>)
    requires
        hook.checkout_sha is Some,
    ensures
        opt_request_view(r) == job_request_of(base_url@, hook, *lab),
{
    let zips = match url_join(base_url, "zips/") {
        Some(z) => z,
        None => {
            return None;
        },
    };
    match url_join(zips.as_str(), lab.zip.as_str()) {
        Some(zip_url) => Some(job_for(zip_url, hook, lab)),
        None => None,
    }
}

/// Builds the jobs for the labs of a push that were packaged, in order.
pub fn labs_result_to_stream(base_url: &str, hook: &GitlabHook, labs: &Vec<PackagedLab>) -> (r:
    Option<Vec<AmqpRequest>>)
    requires
        hook.checkout_sha is Some,
    ensures
        opt_requests_view(r) == job_requests_of(base_url@, hook, labs@),
{
    let mut r: Vec<AmqpRequest> = Vec::new();
    let mut i: usize = 0;
    while i < labs.len()
        invariant
            i <= labs.len(),
            hook.checkout_sha is Some,
            job_requests_of(base_url@, hook, labs@.take(i as int)) == Some(
                Seq::new(r@.len(), |k: int| r@[k]@),
            ),
        decreases labs.len() - i,
    {
        let ghost built = Seq::new(r@.len(), |k: int| r@[k]@);
        proof {
            assert(labs@.take(i + 1).drop_last() =~= labs@.take(i as int));
        }
        match job_request(base_url, hook, &labs[i]) {
            Some(request) => {
                r.push(request);
            },
            None => {
                proof {
                    lemma_requests_fail(base_url@, hook, labs@, i + 1);
                }
                return None;
            },
        }
        i = i + 1;
    }
    assert(labs@.take(labs.len() as int) =~= labs@);
    Some(r)
}

/// Once the jobs for a head of the list cannot be built, neither can those
/// for the whole list.
proof fn lemma_requests_fail(base_url: Seq<char>, hook: &GitlabHook, labs: Seq<PackagedLab>, n: int)
    requires
        0 <= n <= labs.len(),
        job_requests_of(base_url, hook, labs.take(n)) is None,
    ensures
        job_requests_of(base_url, hook, labs) is None,
    decreases labs.len() - n,
{
    if n < labs.len() {
        assert(labs.take(n + 1).drop_last() =~= labs.take(n));
        lemma_requests_fail(base_url, hook, labs, n + 1);
    } else {
        assert(labs.take(n) =~= labs);
    }
}

} // verus!
