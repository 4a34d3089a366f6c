use graders::api::{make_post, post_comment, post_status, post_to, PostRequest, State};
use graders::config::GitlabConfiguration;
use graders::hook::{GitlabHook, GitlabRepository};

fn hook() -> GitlabHook {
    GitlabHook {
        object_kind: "push".to_owned(),
        checkout_sha: Some("abc123".to_owned()),
        project_id: 42,
        ref_: "refs/heads/main".to_owned(),
        repository: GitlabRepository {
            name: "compiler".to_owned(),
            homepage: "https://git.example.org/team/compiler".to_owned(),
            git_http_url: "https://git.example.org/team/compiler.git".to_owned(),
        },
    }
}

fn config(base_url: &str) -> GitlabConfiguration {
    GitlabConfiguration {
        token: "tok".to_owned(),
        base_url: base_url.to_owned(),
        secret_token: None,
    }
}

fn pairs(list: &[(&str, &str)]) -> Vec<(String, String)> {
    list.iter().map(|(k, v)| (k.to_string(), v.to_string())).collect()
}

#[test]
fn state_names() {
    assert_eq!(State::Running.to_string(), "running");
    assert_eq!(State::Success.to_string(), "success");
    assert_eq!(State::Failed.to_string(), "failed");
}

#[test]
fn status_post_with_all_fields() {
    let post = post_status(
        &config("https://gitlab.example.org"),
        &hook(),
        &State::Running,
        Some("main"),
        "lab1",
        Some("packaging and testing"),
    );
    assert_eq!(
        post,
        Some(PostRequest {
            uri: "https://gitlab.example.org/api/v4/projects/42/statuses/abc123".to_owned(),
            private_token: "tok".to_owned(),
            content_type: "application/x-www-form-urlencoded".to_owned(),
            content_length: 66,
            body: "state=running&name=lab1&ref=main&description=packaging+and+testing".to_owned(),
        })
    );
}

#[test]
fn status_post_without_optional_fields() {
    let post = post_status(
        &config("https://gitlab.example.org/"),
        &hook(),
        &State::Success,
        None,
        "lab1",
        None,
    )
    .unwrap();
    assert_eq!(post.body, "state=success&name=lab1");
    assert_eq!(post.content_length, 23);
}

#[test]
fn comment_post() {
    let post = post_comment(&config("https://gitlab.example.org"), &hook(), "## a\n- t1").unwrap();
    assert_eq!(
        post.uri,
        "https://gitlab.example.org/api/v4/projects/42/repository/commits/abc123/comments"
    );
    assert_eq!(post.body, "note=%23%23+a%0A-+t1");
    assert_eq!(post.private_token, "tok");
}

#[test]
fn api_lies_below_the_base_path() {
    let post = make_post(&config("https://example.org/gitlab/"), "projects/1/x", &pairs(&[]));
    assert_eq!(post.unwrap().uri, "https://example.org/gitlab/api/v4/projects/1/x");
}

#[test]
fn no_post_without_a_base_address() {
    assert_eq!(make_post(&config("not an address"), "projects/1/x", &pairs(&[])), None);
    assert_eq!(
        post_status(&config(""), &hook(), &State::Failed, None, "lab1", None),
        None
    );
    assert_eq!(post_comment(&config("mailto:a@example.org"), &hook(), "x"), None);
}

#[test]
fn form_encoding() {
    let uri = "https://example.org/".to_owned();
    assert_eq!(post_to(uri.clone(), "t", &pairs(&[])).body, "");
    assert_eq!(post_to(uri.clone(), "t", &pairs(&[("", "")])).body, "=");
    assert_eq!(post_to(uri.clone(), "t", &pairs(&[("a", "1"), ("b", "2")])).body, "a=1&b=2");
    assert_eq!(
        post_to(uri.clone(), "t", &pairs(&[("k", "AZaz09*-._")])).body,
        "k=AZaz09*-._"
    );
    assert_eq!(
        post_to(uri.clone(), "t", &pairs(&[("k", " +&=%/:~\n")])).body,
        "k=+%2B%26%3D%25%2F%3A%7E%0A"
    );
    let unicode = post_to(uri, "t", &pairs(&[("é", "→")]));
    assert_eq!(unicode.body, "%C3%A9=%E2%86%92");
    assert_eq!(unicode.content_length, 16);
}
