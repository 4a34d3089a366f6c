use graders::hook::{GitlabHook, GitlabRepository};
use graders::paths::{contains_dotdot, is_acceptable_path_name, join_path, zip_name};
use graders::web::{handle_push, not_found, route, serve_zip, Method, Reply, Route};
use graders::config::PackageConfiguration;

fn hook(kind: &str, sha: Option<&str>) -> GitlabHook {
    GitlabHook {
        object_kind: kind.to_owned(),
        checkout_sha: sha.map(|s| s.to_owned()),
        project_id: 42,
        ref_: "refs/heads/main".to_owned(),
        repository: GitlabRepository {
            name: "compiler".to_owned(),
            homepage: "https://git.example.org/team/compiler".to_owned(),
            git_http_url: "https://git.example.org/team/compiler.git".to_owned(),
        },
    }
}

#[test]
fn test_is_acceptable_path_name() {
    assert!(is_acceptable_path_name("/zips/foo"));
    assert!(!is_acceptable_path_name("zips/foo"));
    assert!(!is_acceptable_path_name("foo/bar"));
    assert!(!is_acceptable_path_name("/zips/../foo"));
}

#[test]
fn acceptable_path_edge_cases() {
    assert!(is_acceptable_path_name("/zips/"));
    assert!(!is_acceptable_path_name("/zips"));
    assert!(!is_acceptable_path_name(""));
    assert!(!is_acceptable_path_name("/zips/a/.."));
    assert!(!is_acceptable_path_name("/zips/.."));
    assert!(is_acceptable_path_name("/zips/..."));
    assert!(is_acceptable_path_name("/zips/a..b"));
    assert!(is_acceptable_path_name("/zips/..a"));
    assert!(is_acceptable_path_name("/zips/a.."));
    assert!(!is_acceptable_path_name("/zipsx/a"));
}

#[test]
fn contains_dotdot_finds_parent_components() {
    assert!(contains_dotdot(".."));
    assert!(contains_dotdot("../a"));
    assert!(contains_dotdot("a/.."));
    assert!(contains_dotdot("a/../b"));
    assert!(contains_dotdot("/.."));
    assert!(!contains_dotdot(""));
    assert!(!contains_dotdot("."));
    assert!(!contains_dotdot("a/b"));
    assert!(!contains_dotdot("a..b"));
    assert!(!contains_dotdot("..."));
    assert!(!contains_dotdot("a/..b/c"));
    assert!(!contains_dotdot("a/b../c"));
}

#[test]
fn zip_name_is_relative() {
    assert_eq!(zip_name("/zips/abc.zip"), Some("abc.zip".to_owned()));
    assert_eq!(zip_name("/zips//etc/passwd"), Some("etc/passwd".to_owned()));
    assert_eq!(zip_name("/zips/"), Some(String::new()));
    assert_eq!(zip_name("/zips/../secret"), None);
    assert_eq!(zip_name("/other/abc.zip"), None);
}

#[test]
fn join_path_follows_the_rules_for_directories() {
    assert_eq!(join_path("/var/zips", "a.zip"), "/var/zips/a.zip");
    assert_eq!(join_path("/var/zips/", "a.zip"), "/var/zips/a.zip");
    assert_eq!(join_path("", "a.zip"), "a.zip");
    assert_eq!(join_path("/var/zips", "/etc/passwd"), "/etc/passwd");
    assert_eq!(join_path("/var/zips", ""), "/var/zips/");
}

#[test]
fn path_safety_parent_directory_is_not_found() {
    assert!(matches!(route(Method::Get, "/zips/../secret"), Route::NotFound));
    assert!(matches!(route(Method::Get, "/zips/a/../../secret"), Route::NotFound));
    assert!(matches!(route(Method::Post, "/zips/a.zip"), Route::NotFound));
    assert!(matches!(route(Method::Get, "/push"), Route::NotFound));
    assert!(matches!(route(Method::Other, "/push"), Route::NotFound));
    assert!(matches!(route(Method::Post, "/push"), Route::Push));
    assert!(matches!(route(Method::Post, "/push/"), Route::NotFound));
    match route(Method::Get, "/zips/a.zip") {
        Route::Zip(name) => assert_eq!(name, "a.zip"),
        _ => panic!("the artifact route was expected"),
    }
    assert_eq!(not_found().status(), 404);
}

#[test]
fn delete_event_is_accepted_and_not_forwarded() {
    let decision = handle_push(&None, None, Some(hook("push", None)));
    assert_eq!(decision.reply.status(), 204);
    assert!(decision.forward.is_none());
}

#[test]
fn unknown_kind_is_accepted_and_not_forwarded() {
    let decision = handle_push(&None, None, Some(hook("tag_push", Some("abc123"))));
    assert_eq!(decision.reply.status(), 204);
    assert!(decision.forward.is_none());
}

#[test]
fn push_is_accepted_and_forwarded() {
    let decision = handle_push(&None, None, Some(hook("push", Some("abc123"))));
    assert_eq!(decision.reply.status(), 204);
    let forwarded = decision.forward.expect("the push is to be packaged");
    assert_eq!(forwarded.checkout_sha.as_deref(), Some("abc123"));
    assert_eq!(forwarded.repository.name, "compiler");
}

#[test]
fn malformed_body_is_a_bad_request() {
    let decision = handle_push(&Some("sekret".to_owned()), Some("sekret"), None);
    assert_eq!(decision.reply.status(), 400);
    assert!(decision.forward.is_none());
}

#[test]
fn bad_token() {
    let secret = Some("sekret".to_owned());
    let missing = handle_push(&secret, None, Some(hook("push", Some("abc123"))));
    assert_eq!(missing.reply.status(), 403);
    assert!(missing.forward.is_none());
    match missing.reply {
        Reply::Forbidden { reason } => assert_eq!(reason, "missing secret token"),
        _ => panic!("a refusal was expected"),
    }
    let wrong = handle_push(&secret, Some("wrong"), Some(hook("push", Some("abc123"))));
    assert_eq!(wrong.reply.status(), 403);
    assert!(wrong.forward.is_none());
    match wrong.reply {
        Reply::Forbidden { reason } => assert_eq!(reason, "incorrect secret token"),
        _ => panic!("a refusal was expected"),
    }
    let right = handle_push(&secret, Some("sekret"), Some(hook("push", Some("abc123"))));
    assert_eq!(right.reply.status(), 204);
    assert!(right.forward.is_some());
}

#[test]
fn artifacts_are_served_as_zip() {
    let config = PackageConfiguration { threads: 2, zip_dir: "/var/zips".to_owned() };
    let found = serve_zip(&config, "a.zip", true);
    assert_eq!(found.status(), 200);
    assert_eq!(found.content_type(), Some("application/zip"));
    match found {
        Reply::ZipFile { path } => assert_eq!(path, "/var/zips/a.zip"),
        _ => panic!("a file was expected"),
    }
    let missing = serve_zip(&config, "a.zip", false);
    assert_eq!(missing.status(), 404);
    assert_eq!(missing.content_type(), None);
}

#[test]
fn methods_by_name() {
    assert_eq!(Method::from_name("GET"), Method::Get);
    assert_eq!(Method::from_name("POST"), Method::Post);
    assert_eq!(Method::from_name("PUT"), Method::Other);
    assert_eq!(Method::from_name("get"), Method::Other);
    assert_eq!(Method::from_name(""), Method::Other);
}
