use kit::github::{
    build_repo_url, get_authenticated_user, parse_repo_response, GithubError,
};

#[test]
fn repo_url_names_owner_and_repository() {
    assert_eq!(build_repo_url("kcterala", "kcx"), "https://api.github.com/repos/kcterala/kcx");
}

#[test]
fn authenticated_user_reads_the_login_member() {
    let u = get_authenticated_user(true, "{\"login\":\"octocat\",\"id\":1}").unwrap();
    assert_eq!(u.login, "octocat");
}

#[test]
fn authenticated_user_reports_a_failing_status_first() {
    assert_eq!(
        get_authenticated_user(false, "{\"login\":\"octocat\"}").unwrap_err(),
        GithubError::RequestFailed
    );
}

#[test]
fn authenticated_user_rejects_a_body_without_a_login() {
    assert_eq!(get_authenticated_user(true, "{}").unwrap_err(), GithubError::Malformed);
    assert_eq!(get_authenticated_user(true, "not json").unwrap_err(), GithubError::Malformed);
    assert_eq!(
        get_authenticated_user(true, "{\"login\":null}").unwrap_err(),
        GithubError::Malformed
    );
}

#[test]
fn repo_response_reads_fork_url_and_parent() {
    let body = "{\"fork\":true,\"ssh_url\":\"git@github.com:me/fork.git\",\
                \"parent\":{\"ssh_url\":\"git@github.com:them/orig.git\",\"fork\":false}}";
    let r = parse_repo_response(body).unwrap();
    assert!(r.fork);
    assert_eq!(r.ssh_url, "git@github.com:me/fork.git");
    assert_eq!(r.parent.unwrap().ssh_url, "git@github.com:them/orig.git");
}

#[test]
fn repo_response_parent_may_be_null_or_absent() {
    let with_null = "{\"fork\":false,\"ssh_url\":\"u\",\"parent\":null}";
    assert!(parse_repo_response(with_null).unwrap().parent.is_none());
    let without = "{\"fork\":false,\"ssh_url\":\"u\"}";
    assert!(parse_repo_response(without).unwrap().parent.is_none());
}

#[test]
fn repo_response_requires_its_members() {
    assert!(parse_repo_response("{\"ssh_url\":\"u\"}").is_none());
    assert!(parse_repo_response("{\"fork\":true}").is_none());
    assert!(parse_repo_response("{\"fork\":\"yes\",\"ssh_url\":\"u\"}").is_none());
    let bad_parent = "{\"fork\":true,\"ssh_url\":\"u\",\"parent\":{}}";
    assert!(parse_repo_response(bad_parent).is_none());
}
