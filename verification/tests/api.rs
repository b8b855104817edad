use milieu::api::{ApiClient, Method, StatusRule};
use milieu::error::MilieuError;
use milieu::manifest::FileEntry;

fn client() -> ApiClient {
    ApiClient::new("https://milieu.test/", Some("tok".to_string()))
}

fn failed(r: Result<bool, MilieuError>) -> String {
    match r {
        Err(MilieuError::CommandFailed(text)) => text,
        other => panic!("{:?}", other),
    }
}

#[test]
fn addresses_join_with_one_slash() {
    assert_eq!(client().endpoint("/v1/repos"), "https://milieu.test/v1/repos");
    assert_eq!(ApiClient::new("https://m.test", None).endpoint("v1"), "https://m.test/v1");
    assert_eq!(ApiClient::new("https://m.test///", None).endpoint("///v1/"), "https://m.test/v1/");
    assert_eq!(ApiClient::new("", None).endpoint(""), "/");
}

#[test]
fn the_token_is_a_bearer() {
    assert_eq!(client().auth_header().unwrap(), "Bearer tok");
    assert!(matches!(ApiClient::new("x", None).auth_header(), Err(MilieuError::AuthMissing)));
}

#[test]
fn every_operation_has_its_address() {
    let c = client();
    let base = "https://milieu.test";
    let check = |r: Result<milieu::api::Request, MilieuError>, method: Method, path: &str, label: &str| {
        let r = r.unwrap();
        assert_eq!(r.method, method, "{}", label);
        assert_eq!(r.url, format!("{}{}", base, path));
        assert_eq!(r.label, label);
        assert_eq!(r.authorization.as_deref(), Some("Bearer tok"));
    };
    check(c.get_umk(), Method::Get, "/v1/users/me/umk", "get umk");
    check(c.put_umk(), Method::Put, "/v1/users/me/umk", "put umk");
    check(c.post_object("R1", "dev"), Method::Post, "/v1/repos/R1/branches/dev/objects", "post object");
    check(
        c.get_latest("R1", "dev", "conf/.env local"),
        Method::Get,
        "/v1/repos/R1/branches/dev/objects/latest?path=conf%2F.env%20local",
        "get latest",
    );
    check(
        c.get_version("R1", "dev", ".env", 12),
        Method::Get,
        "/v1/repos/R1/branches/dev/objects/version?path=.env&version=12",
        "get version",
    );
    check(
        c.get_history("R1", "dev", ".env"),
        Method::Get,
        "/v1/repos/R1/branches/dev/objects/history?path=.env",
        "get history",
    );
    check(c.get_repos(), Method::Get, "/v1/users/me/repos", "get repos");
    check(c.get_repo_access("R1"), Method::Get, "/v1/repos/R1/access", "get access");
    check(c.invite_repo_access("R1"), Method::Post, "/v1/repos/R1/access", "invite");
    check(c.update_repo_access("R1"), Method::Patch, "/v1/repos/R1/access", "update access");
    check(
        c.revoke_repo_access("R1", "a+b@c.d"),
        Method::Delete,
        "/v1/repos/R1/access?email=a%2Bb%40c.d",
        "revoke access",
    );
    check(c.delete_repo("R1"), Method::Delete, "/v1/repos/R1", "delete repo");
    check(c.get_invites(), Method::Get, "/v1/users/me/invites", "get invites");
    check(c.get_user_key(), Method::Get, "/v1/users/me/key", "get user key");
    check(c.put_user_key(), Method::Put, "/v1/users/me/key", "put user key");
    check(c.get_repo_key("R1"), Method::Get, "/v1/repos/R1/key", "get repo key");
    check(c.put_repo_key("R1"), Method::Put, "/v1/repos/R1/key", "put repo key");
    check(c.accept_invite("i1"), Method::Post, "/v1/users/me/invites/i1/accept", "accept invite");
    check(c.reject_invite("i1"), Method::Post, "/v1/users/me/invites/i1/reject", "reject invite");
    check(c.get_sessions(), Method::Get, "/v1/users/me/sessions", "get sessions");
    check(c.logout(), Method::Post, "/v1/auth/logout", "logout");
    check(c.create_repo(), Method::Post, "/v1/repos", "create repo");
    check(c.get_repo_by_name("my app"), Method::Get, "/v1/repos?name=my%20app", "get repo");
    check(c.get_manifest("R1"), Method::Get, "/v1/repos/R1/manifest", "get manifest");
}

#[test]
fn login_and_register_need_no_token() {
    let anonymous = ApiClient::new("https://m.test", None);
    let login = anonymous.login().unwrap();
    assert_eq!(login.url, "https://m.test/v1/auth/login");
    assert_eq!(login.method, Method::Post);
    assert_eq!(login.authorization, None);
    let register = client().register().unwrap();
    assert_eq!(register.url, "https://milieu.test/v1/auth/register");
    assert_eq!(register.authorization, None);
    assert!(matches!(anonymous.get_repos(), Err(MilieuError::AuthMissing)));
    assert!(matches!(anonymous.get_latest("R", "b", "p"), Err(MilieuError::AuthMissing)));
}

#[test]
fn the_manifest_is_published_without_baselines() {
    let mut m = milieu::commands::init::new_manifest("R1".to_string(), "app".to_string());
    let mut e = FileEntry::new(".env".to_string(), None);
    e.set_synced("aa".to_string(), Some(3));
    m.branches[0].files.push(e);
    let (request, body) = client().put_manifest(&m).unwrap();
    assert_eq!(request.url, "https://milieu.test/v1/repos/R1/manifest");
    assert_eq!(request.method, Method::Put);
    assert_eq!(request.rule, StatusRule::Guarded);
    assert_eq!(body.branches[0].files[0].last_synced_hash, None);
    assert_eq!(body.branches[0].files[0].last_synced_version, None);
    assert_eq!(body.branches[0].files[0].path, ".env");
    assert!(ApiClient::new("x", None).put_manifest(&m).is_err());
}

#[test]
fn a_404_on_an_optional_read_means_absent() {
    let c = client();
    for r in [c.get_latest("R", "b", "p"), c.get_umk(), c.get_user_key(), c.get_repo_key("R")] {
        let r = r.unwrap();
        assert_eq!(r.rule, StatusRule::Optional);
        assert_eq!(r.read_status(404, "404 Not Found").unwrap(), false);
        assert_eq!(r.read_status(200, "200 OK").unwrap(), true);
    }
    let latest = c.get_latest("R", "b", "p").unwrap();
    assert_eq!(failed(latest.read_status(500, "500 Internal Server Error")), "get latest failed: 500 Internal Server Error");
    assert_eq!(failed(latest.read_status(199, "199")), "get latest failed: 199");
    assert_eq!(failed(latest.read_status(300, "300 Multiple Choices")), "get latest failed: 300 Multiple Choices");
    assert_eq!(latest.read_status(299, "299").unwrap(), true);
}

#[test]
fn other_statuses_are_failures() {
    let c = client();
    let version = c.get_version("R", "b", "p", 1).unwrap();
    assert_eq!(failed(version.read_status(404, "404 Not Found")), "get version failed: 404 Not Found");
    assert_eq!(version.read_status(204, "204 No Content").unwrap(), true);
    let post = c.post_object("R", "b").unwrap();
    assert_eq!(
        failed(post.read_status(404, "404 Not Found")),
        "post object failed: repo not found or no write access (read-only)"
    );
    assert_eq!(failed(post.read_status(401, "401 Unauthorized")), "post object failed: unauthorized");
    assert_eq!(failed(post.read_status(403, "403 Forbidden")), "post object failed: forbidden");
    assert_eq!(failed(post.read_status(500, "500 Oops")), "post object failed: 500 Oops");
    assert_eq!(post.read_status(201, "201 Created").unwrap(), true);
    let lookup = c.get_repo_by_name("x").unwrap();
    assert_eq!(failed(lookup.read_status(404, "404 Not Found")), "repo not found");
    assert_eq!(failed(lookup.read_status(403, "403 Forbidden")), "get repo failed: 403 Forbidden");
    let login = c.login().unwrap();
    assert_eq!(failed(login.read_status(401, "401 Unauthorized")), "login failed: 401 Unauthorized");
}
