//! The dispatcher's HTTP surface: which requests it answers, and how.

use vstd::prelude::*;
use vstd::string::*;
use crate::config::PackageConfiguration;
use crate::hook::GitlabHook;
use crate::paths::{
    acceptable_path, has_dotdot, join_path, joined_path, served_name, served_name_is_confined,
    zip_name,
};
use crate::text::{opt_str_text, opt_text, str_eq};

verus! {

/// The method of a request, as far as the routes tell methods apart.
#[derive(Debug, Clone, Copy, PartialEq, Eq, Structural)]
pub enum Method {
    Get,
    Post,
    Other,
}

/// The method that a name stands for.
pub open spec fn method_named(name: Seq<char>) -> Method {
    if name == "GET"@ {
        Method::Get
    } else if name == "POST"@ {
        Method::Post
    } else {
        Method::Other
    }
}

impl Method {
    /// Reads the method of a request from its name.
    pub fn from_name(name: &str) -> (r: Method)
        ensures
            r == method_named(name@),
    {
        if str_eq(name, "GET") {
            Method::Get
        } else if str_eq(name, "POST") {
            Method::Post
        } else {
            Method::Other
        }
    }
}

/// Where a request goes.
#[derive(Debug, PartialEq, Eq)]
pub enum Route {
    /// A push notification.
    Push,
    /// The artifact of that name, relative to the artifact directory.
    Zip(String),
    /// Nowhere.
    NotFound,
}

/// What a route holds.
pub enum RouteView {
    Push,
    Zip(Seq<char>),
    NotFound,
}

impl View for Route {
    type V = RouteView;

    open spec fn view(&self) -> RouteView {
        match *self {
            Route::Push => RouteView::Push,
            Route::Zip(name) => RouteView::Zip(name@),
            Route::NotFound => RouteView::NotFound,
        }
    }
}

/// The two routes: `POST /push` takes notifications, and `GET` of an
/// acceptable path below `/zips/` serves an artifact. Everything else is
/// not found.
pub open spec fn route_of(method: Method, path: Seq<char>) -> RouteView {
    if method == Method::Post && path == "/push"@ {
        RouteView::Push
    } else if method == Method::Get && acceptable_path(path) {
        RouteView::Zip(served_name(path))
    } else {
        RouteView::NotFound
    }
}

/// Finds the route of a request.
pub fn route(method: Method, path: &str) -> (r: Route)
    ensures
        r@ == route_of(method, path@),
{
    if method == Method::Post && str_eq(path, "/push") {
        Route::Push
    } else if method == Method::Get {
        match zip_name(path) {
            Some(name) => Route::Zip(name),
            None => Route::NotFound,
        }
    } else {
        Route::NotFound
    }
}

/// A request whose path has a `..` component is never routed to an
/// artifact, whatever the method; and the name that a request is routed to
/// is relative and has no `..` component, so that it stays below the
/// artifact directory.
pub proof fn route_is_path_safe(method: Method, path: Seq<char>)
    ensures
        has_dotdot(path) ==> !(route_of(method, path) is Zip),
        route_of(method, path) matches RouteView::Zip(name) ==> {
            &&& !has_dotdot(name)
            &&& (name.len() == 0 || name[0] != '/')
        },
{
    served_name_is_confined(path);
}

/// The answer to a request.
#[derive(Debug, PartialEq, Eq)]
pub enum Reply {
    /// 204: the notification was taken.
    NoContent,
    /// 403: the notification did not carry the secret.
    Forbidden { reason: String },
    /// 400: the body is no notification.
    BadRequest,
    /// 404.
    NotFound,
    /// 200: the bytes of this file, as `application/zip`.
    ZipFile { path: String },
}

/// The status code of an answer.
pub open spec fn status_of(reply: Reply) -> u16 {
    match reply {
        Reply::NoContent => 204,
        Reply::Forbidden { .. } => 403,
        Reply::BadRequest => 400,
        Reply::NotFound => 404,
        Reply::ZipFile { .. } => 200,
    }
}

impl Reply {
    /// The status code to answer with.
    pub fn status(&self) -> (r: u16)
        ensures
            r == status_of(*self),
    {
        match self {
            Reply::NoContent => 204,
            Reply::Forbidden { .. } => 403,
            Reply::BadRequest => 400,
            Reply::NotFound => 404,
            Reply::ZipFile { .. } => 200,
        }
    }

    /// The content type to answer with, where the answer has a body that
    /// needs one.
    pub fn content_type(&self) -> (r: Option<&'static str>)
        ensures
            opt_str_text(r) == (if *self is ZipFile {
                Some("application/zip"@)
            } else {
                None
            }),
    {
        match self {
            Reply::ZipFile { .. } => Some("application/zip"),
            _ => None,
        }
    }
}

/// What becomes of a push notification: the answer, and the notification
/// itself where it is to be packaged.
#[derive(Debug, PartialEq, Eq)]
pub struct PushDecision {
    pub reply: Reply,
    pub forward: Option<GitlabHook>,
}

/// Whether a notification carries what the configured secret asks for.
pub open spec fn token_accepted(secret: Option<Seq<char>>, presented: Option<Seq<char>>) -> bool {
    match secret {
        Some(s) => presented == Some(s),
        None => true,
    }
}

/// Whether a notification is a push of a commit, which is to be packaged;
/// other kinds of events and deletions of branches are not.
pub open spec fn is_packaged(hook: GitlabHook) -> bool {
    hook.object_kind@ == "push"@ && hook.checkout_sha is Some
}

/// Handles the body of `POST /push`. `hook` is the decoded body, `None`
/// where it does not decode; `presented` is the value of the
/// `X-Gitlab-Token` header, `None` where there is none that is text.
pub fn handle_push(
    secret_token: &Option<String>,
    presented: Option<&str>,
    hook: Option<GitlabHook>,
) -> (r: PushDecision)
    ensures
        hook is None ==> r.reply is BadRequest && r.forward is None,
        hook is Some && !token_accepted(opt_text(*secret_token), opt_str_text(presented)) ==> {
            &&& r.reply matches Reply::Forbidden { reason }
            &&& reason@ == (if presented is None {
                "missing secret token"@
            } else {
                "incorrect secret token"@
            })
            &&& r.forward is None
        },
        hook is Some && token_accepted(opt_text(*secret_token), opt_str_text(presented)) ==> {
            &&& r.reply is NoContent
            &&& r.forward == (if is_packaged(hook->0) {
                hook
            } else {
                None
            })
        },
{
    let hook = match hook {
        Some(h) => h,
        None => {
            return PushDecision { reply: Reply::BadRequest, forward: None };
        },
    };
    match secret_token {
        Some(secret) => match presented {
            Some(p) => {
                if !str_eq(secret.as_str(), p) {
                    return PushDecision {
                        reply: Reply::Forbidden { reason: "incorrect secret token".to_owned() },
                        forward: None,
                    };
                }
            },
            None => {
                return PushDecision {
                    reply: Reply::Forbidden { reason: "missing secret token".to_owned() },
                    forward: None,
                };
            },
        },
        None => {},
    }
    if str_eq(hook.object_kind.as_str(), "push") && !hook.is_delete() {
        PushDecision { reply: Reply::NoContent, forward: Some(hook) }
    } else {
        PushDecision { reply: Reply::NoContent, forward: None }
    }
}

/// Where an artifact of the given name lies.
pub fn zip_file_path(config: &PackageConfiguration, name: &str) -> (r: String)
    ensures
        r@ == joined_path(config.zip_dir@, name@),
{
    join_path(config.zip_dir.as_str(), name)
}

/// Answers a request for an artifact, once it is known whether the file is
/// there.
pub fn serve_zip(config: &PackageConfiguration, name: &str, is_file: bool) -> (r: Reply)
    ensures
        is_file ==> (r matches Reply::ZipFile { path } && path@ == joined_path(
            config.zip_dir@,
            name@,
        )),
        !is_file ==> r is NotFound,
{
    if is_file {
        Reply::ZipFile { path: zip_file_path(config, name) }
    } else {
        Reply::NotFound
    }
}

/// The answer to a request that no route takes.
pub fn not_found() -> (r: Reply)
    ensures
        r is NotFound,
{
    Reply::NotFound
}

} // verus!
