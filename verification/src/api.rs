//! Requests to the hosting service: commit statuses and commit comments.

use vstd::prelude::*;
use vstd::string::*;
use vstd::utf8::encode_utf8;
use crate::config::GitlabConfiguration;
use crate::hook::GitlabHook;
use crate::text::{decimal, format_decimal, opt_str_text, opt_text};

verus! {

/// The state of a commit status.
#[derive(Debug, Clone, Copy, PartialEq, Eq, Structural)]
pub enum State {
    Running,
    Success,
    Failed,
}

/// The word that the hosting service knows a state by.
pub open spec fn state_name(state: State) -> Seq<char> {
    match state {
        State::Running => "running"@,
        State::Success => "success"@,
        State::Failed => "failed"@,
    }
}

impl State {
    /// The word that the hosting service knows this state by.
    pub fn to_string(&self) -> (r: String)
        ensures
            r@ == state_name(*self),
    {
        match self {
            State::Running => "running".to_owned(),
            State::Success => "success".to_owned(),
            State::Failed => "failed".to_owned(),
        }
    }
}

/// A form post to the hosting service.
#[derive(Debug, PartialEq, Eq)]
pub struct PostRequest {
    /// The address to post to.
    pub uri: String,
    /// The value of the `Private-Token` header.
    pub private_token: String,
    /// The value of the `Content-Type` header.
    pub content_type: String,
    /// The value of the `Content-Length` header: the body's length in bytes.
    pub content_length: usize,
    /// The form, URL-encoded.
    pub body: String,
}

/// What a form post holds.
pub struct PostView {
    pub uri: Seq<char>,
    pub private_token: Seq<char>,
    pub content_type: Seq<char>,
    pub content_length: nat,
    pub body: Seq<char>,
}

impl View for PostRequest {
    type V = PostView;

    open spec fn view(&self) -> PostView {
        PostView {
            uri: self.uri@,
            private_token: self.private_token@,
            content_type: self.content_type@,
            content_length: self.content_length as nat,
            body: self.body@,
        }
    }
}

/// The views of a list of posts, in order.
pub open spec fn posts_view(posts: Seq<PostRequest>) -> Seq<PostView> {
    Seq::new(posts.len(), |i: int| posts[i]@)
}

/// The address that a reference resolves to against a base address, as the
/// URL standard defines it; `None` where the base is no absolute URL or the
/// reference cannot be resolved.
pub uninterp spec fn url_joined(base: Seq<char>, reference: Seq<char>) -> Option<Seq<char>>;

/// Parses `base` with `url::Url::parse` and resolves `reference` against it
/// with `url::Url::join`. The contract names the result: it depends on the
/// two texts alone. Nothing is claimed about what the address looks like.
#[verifier::external_body]
pub(crate) fn url_join(base: &str, reference: &str) -> (r: Option<String>)
    ensures
        opt_text(r) == url_joined(base@, reference@),
{
    match url::Url::parse(base) {
        Ok(parsed) => match parsed.join(reference) {
            Ok(joined) => Some(String::from(joined)),
            Err(_) => None,
        },
        Err(_) => None,
    }
}

/// Whether a byte stands for itself in a URL-encoded form: the ASCII
/// letters and digits and the four characters `*`, `-`, `.` and `_`.
pub open spec fn form_unchanged(b: u8) -> bool {
    ||| b == 0x2a  // *
    ||| b == 0x2d  // -
    ||| b == 0x2e  // .
    ||| 0x30 <= b <= 0x39  // 0-9
    ||| 0x41 <= b <= 0x5a  // A-Z
    ||| b == 0x5f  // _
    ||| 0x61 <= b <= 0x7a  // a-z
}

/// The upper-case hexadecimal digit for `d`.
pub open spec fn hex_upper(d: int) -> char {
    "0123456789ABCDEF"@[d]
}

/// How one byte is written in a URL-encoded form: itself where it is a
/// letter, a digit or one of `*-._`, `+` for a space, else `%` and its two
/// hexadecimal digits.
pub open spec fn form_byte(b: u8) -> Seq<char> {
    if form_unchanged(b) {
        seq![b as char]
    } else if b == 0x20 {
        seq!['+']
    } else {
        seq!['%', hex_upper(b as int / 16), hex_upper(b as int % 16)]
    }
}

/// How a run of bytes is written in a URL-encoded form.
pub open spec fn form_bytes(bytes: Seq<u8>) -> Seq<char>
    decreases bytes.len(),
{
    if bytes.len() == 0 {
        Seq::empty()
    } else {
        form_bytes(bytes.drop_last()) + form_byte(bytes.last())
    }
}

/// How a text is written in a URL-encoded form: byte by byte, in UTF-8.
pub open spec fn form_text(s: Seq<char>) -> Seq<char> {
    form_bytes(encode_utf8(s))
}

/// A URL-encoded form: each pair as `name=value`, with `&` between pairs.
pub open spec fn form_encoded(pairs: Seq<(Seq<char>, Seq<char>)>) -> Seq<char>
    decreases pairs.len(),
{
    if pairs.len() == 0 {
        Seq::empty()
    } else {
        form_encoded(pairs.drop_last()) + (if pairs.len() == 1 {
            Seq::<char>::empty()
        } else {
            seq!['&']
        }) + form_text(pairs.last().0) + seq!['='] + form_text(pairs.last().1)
    }
}

/// The texts of a list of pairs, in order.
pub open spec fn pairs_view(pairs: Seq<(String, String)>) -> Seq<(Seq<char>, Seq<char>)> {
    Seq::new(pairs.len(), |i: int| (pairs[i].0@, pairs[i].1@))
}

/// Serialises the pairs with `url::form_urlencoded::Serializer`
/// (`new`, `extend_pairs`, `finish`). The contract states the serialiser's
/// output for a fresh target: the pairs in order, `&` between them, names and
/// values encoded byte by byte as `form_byte` says.
#[verifier::external_body]
fn form_encode(pairs: &Vec<(String, String)>) -> (r: String)
    ensures
        r@ == form_encoded(pairs_view(pairs@)),
{
    url::form_urlencoded::Serializer::new(String::new()).extend_pairs(pairs).finish()
}

/// The address of an API endpoint: the fragment resolved against `api/v4/`
/// below the service's base address.
pub open spec fn api_uri(base_url: Seq<char>, fragment: Seq<char>) -> Option<Seq<char>> {
    match url_joined(base_url, "api/v4/"@) {
        Some(api) => url_joined(api, fragment),
        None => None,
    }
}

/// The form post that carries `pairs` to `uri`.
pub open spec fn form_post(
    uri: Seq<char>,
    token: Seq<char>,
    pairs: Seq<(Seq<char>, Seq<char>)>,
) -> PostView {
    PostView {
        uri,
        private_token: token,
        content_type: "application/x-www-form-urlencoded"@,
        content_length: encode_utf8(form_encoded(pairs)).len(),
        body: form_encoded(pairs),
    }
}

/// The post for an endpoint and the address it goes to, once the address is
/// known.
pub fn post_to(uri: String, token: &str, params: &Vec<(String, String)>) -> (r: PostRequest)
    ensures
        r@ == form_post(uri@, token@, pairs_view(params@)),
{
    let body = form_encode(params);
    let content_length = body.as_str().as_bytes().len();
    PostRequest {
        uri,
        private_token: token.to_owned(),
        content_type: "application/x-www-form-urlencoded".to_owned(),
        content_length,
        body,
    }
}

/// Builds the post for an endpoint of the service's API. There is none where
/// the configured base address does not resolve.
pub fn make_post(config: &GitlabConfiguration, fragment: &str, params: &Vec<(String, String)>) -> (r:
    Option<PostRequest>)
    ensures
        r is Some <==> api_uri(config.base_url@, fragment@) is Some,
        r is Some ==> r->0@ == form_post(
            api_uri(config.base_url@, fragment@)->0,
            config.token@,
            pairs_view(params@),
        ),
{
    match url_join(config.base_url.as_str(), "api/v4/") {
        Some(api) => match url_join(api.as_str(), fragment) {
            Some(uri) => Some(post_to(uri, config.token.as_str(), params)),
            None => None,
        },
        None => None,
    }
}

/// The endpoint for the statuses of a commit.
pub open spec fn status_fragment(project_id: u32, sha: Seq<char>) -> Seq<char> {
    "projects/"@ + decimal(project_id as nat) + "/statuses/"@ + sha
}

/// The endpoint for the comments on a commit.
pub open spec fn comment_fragment(project_id: u32, sha: Seq<char>) -> Seq<char> {
    "projects/"@ + decimal(project_id as nat) + "/repository/commits/"@ + sha + "/comments"@
}

/// The form of a status: state and name, then the reference and the
/// description where there is one.
pub open spec fn status_params(
    state: State,
    name: Seq<char>,
    reference: Option<Seq<char>>,
    description: Option<Seq<char>>,
) -> Seq<(Seq<char>, Seq<char>)> {
    seq![("state"@, state_name(state)), ("name"@, name)] + (match reference {
        Some(r) => seq![("ref"@, r)],
        None => Seq::empty(),
    }) + (match description {
        Some(d) => seq![("description"@, d)],
        None => Seq::empty(),
    })
}

/// The form of a comment.
pub open spec fn comment_params(note: Seq<char>) -> Seq<(Seq<char>, Seq<char>)> {
    seq![("note"@, note)]
}

/// The status post for the commit of a push, if its address resolves.
pub open spec fn status_post(
    config: &GitlabConfiguration,
    hook: &GitlabHook,
    state: State,
    reference: Option<Seq<char>>,
    name: Seq<char>,
    description: Option<Seq<char>>,
) -> Option<PostView> {
    match api_uri(config.base_url@, status_fragment(hook.project_id, hook.checkout_sha->0@)) {
        Some(uri) => Some(
            form_post(uri, config.token@, status_params(state, name, reference, description)),
        ),
        None => None,
    }
}

/// The comment post for the commit of a push, if its address resolves.
pub open spec fn comment_post(
    config: &GitlabConfiguration,
    hook: &GitlabHook,
    note: Seq<char>,
) -> Option<PostView> {
    match api_uri(config.base_url@, comment_fragment(hook.project_id, hook.checkout_sha->0@)) {
        Some(uri) => Some(form_post(uri, config.token@, comment_params(note))),
        None => None,
    }
}

/// The view of an optional post.
pub open spec fn opt_post_view(o: Option<PostRequest>) -> Option<PostView> {
    match o {
        Some(p) => Some(p@),
        None => None,
    }
}

/// Builds the post that sets a status on the pushed commit.
pub fn post_status(
    config: &GitlabConfiguration,
    hook: &GitlabHook,
    state: &State,
    ref_: Option<&str>,
    name: &str,
    description: Option<&str>,
) -> (r: Option<PostRequest>)
    requires
        hook.checkout_sha is Some,
    ensures
        opt_post_view(r) == status_post(
            config,
            hook,
            *state,
            opt_str_text(ref_),
            name@,
            opt_str_text(description),
        ),
{
    let mut params: Vec<(String, String)> = Vec::new();
    params.push(("state".to_owned(), state.to_string()));
    params.push(("name".to_owned(), name.to_owned()));
    match ref_ {
        Some(r) => {
            params.push(("ref".to_owned(), r.to_owned()));
        },
        None => {},
    }
    match description {
        Some(d) => {
            params.push(("description".to_owned(), d.to_owned()));
        },
        None => {},
    }
    assert(pairs_view(params@) =~= status_params(
        *state,
        name@,
        opt_str_text(ref_),
        opt_str_text(description),
    ));
    let mut fragment = "projects/".to_owned();
    fragment.append(format_decimal(hook.project_id as u64).as_str());
    fragment.append("/statuses/");
    fragment.append(hook.pushed_sha());
    make_post(config, fragment.as_str(), &params)
}

/// Builds the post that comments on the pushed commit.
pub fn post_comment(config: &GitlabConfiguration, hook: &GitlabHook, note: &str) -> (r: Option<
    PostRequest,
>)
    requires
        hook.checkout_sha is Some,
    ensures
        opt_post_view(r) == comment_post(config, hook, note@),
{
    let mut params: Vec<(String, String)> = Vec::new();
    params.push(("note".to_owned(), note.to_owned()));
    assert(pairs_view(params@) =~= comment_params(note@));
    let mut fragment = "projects/".to_owned();
    fragment.append(format_decimal(hook.project_id as u64).as_str());
    fragment.append("/repository/commits/");
    fragment.append(hook.pushed_sha());
    fragment.append("/comments");
    make_post(config, fragment.as_str(), &params)
}

} // verus!
