//! The typed messages of the remote service, the addresses of its operations, and
//! the reading of its status codes.

use vstd::prelude::*;
use vstd::string::*;
use crate::crypto::KdfParams;
use crate::error::{ErrorModel, MilieuError};
use crate::manifest::{manifest_without_state, Manifest};
use crate::text::{
    concat2, concat3, decimal, decimal_text, strip_leading, strip_trailing, without_leading,
    without_trailing,
};

verus! {

#[derive(Debug, Clone)]
pub struct LoginRequest {
    pub email: String,
    pub password: String,
    pub host: String,
}

#[derive(Debug, Clone)]
pub struct RegisterRequest {
    pub email: String,
    pub password: String,
}

#[derive(Debug, Clone)]
pub struct LoginResponse {
    pub access_token: String,
    pub user_id: String,
    pub warning: Option<String>,
}

#[derive(Debug, Clone)]
pub struct RegisterResponse {
    pub user_id: String,
}

/// The encrypted user master key with the parameters under which its key is
/// derived.
#[derive(Debug, Clone)]
pub struct UmkResponse {
    pub encrypted_umk: String,
    pub kdf_params: KdfParams,
    pub version: u32,
}

/// A ciphertext object as it is uploaded.
#[derive(Debug, Clone)]
pub struct ObjectRequest {
    pub path: String,
    pub nonce: String,
    pub ciphertext: String,
    pub aad: String,
    pub ciphertext_hash: String,
    pub created_at: String,
    pub schema_version: u32,
}

/// A ciphertext object as the remote returns it.
#[derive(Debug, Clone)]
pub struct ObjectResponse {
    pub path: String,
    pub nonce: String,
    pub ciphertext: String,
    pub aad: String,
    pub ciphertext_hash: Option<String>,
    pub version: Option<u32>,
    pub created_at: String,
    pub schema_version: u32,
}

#[derive(Debug, Clone)]
pub struct HistoryEntry {
    pub version: u32,
    pub created_at: String,
    pub ciphertext_hash: Option<String>,
}

#[derive(Debug, Clone)]
pub struct RepoInfo {
    pub repo_id: String,
    pub name: String,
    pub last_seen: String,
    pub owner_email: Option<String>,
    pub access: Option<String>,
}

#[derive(Debug, Clone)]
pub struct RepoListResponse {
    pub repos: Vec<RepoInfo>,
}

#[derive(Debug, Clone)]
pub struct SessionInfo {
    pub host: String,
    pub created_at: String,
    pub expires_at: String,
    pub token_suffix: String,
    pub active: bool,
}

#[derive(Debug, Clone)]
pub struct RepoAccessEntry {
    pub email: String,
    pub role: String,
    pub status: String,
    pub invited_by: Option<String>,
    pub created_at: String,
    pub public_key: Option<String>,
    pub key_algorithm: Option<String>,
}

#[derive(Debug, Clone)]
pub struct InviteInfo {
    pub id: String,
    pub repo_id: String,
    pub repo_name: String,
    pub role: String,
    pub invited_by: String,
    pub created_at: String,
}

#[derive(Debug, Clone)]
pub struct UserKeyResponse {
    pub public_key: String,
    pub algorithm: String,
    pub created_at: String,
    pub updated_at: String,
}

#[derive(Debug, Clone)]
pub struct RepoKeyResponse {
    pub wrapped_key: String,
    pub algorithm: String,
    pub created_at: String,
    pub updated_at: String,
}

#[derive(Debug, Clone)]
pub struct RepoCreateRequest {
    pub name: String,
}

#[derive(Debug, Clone)]
pub struct RepoResponse {
    pub repo_id: String,
    pub name: String,
}

/// The percent-encoding of a text: every byte of its UTF-8 form but letters,
/// digits, `-`, `_`, `.` and `~` as `%` and two hexadecimal digits.
pub uninterp spec fn url_encoded(text: Seq<char>) -> Seq<char>;

/// `urlencoding::encode`.
///
/// Trusted: the result is a function of the text.
#[verifier::external_body]
pub(crate) fn url_encode(text: &str) -> (out: String)
    ensures
        out@ == url_encoded(text@),
{
    urlencoding::encode(text).into_owned()
}

/// The verb of a request.
#[derive(Clone, Copy, Debug, PartialEq, Eq, Structural)]
pub enum Method {
    Get,
    Post,
    Put,
    Patch,
    Delete,
}

/// How the status code of a reply is read.
#[derive(Clone, Copy, Debug, PartialEq, Eq, Structural)]
pub enum StatusRule {
    /// Every status outside 200 to 299 is a failure.
    Plain,
    /// 404 says that what was asked for is absent; any other status outside 200
    /// to 299 is a failure.
    Optional,
    /// A failure with 404, 401 or 403 is summarised in words: the repository is
    /// not there or cannot be written, the user is not known, or not allowed.
    Guarded,
    /// 404 says that no repository has the name.
    Lookup,
}

/// A request to the remote service, ready to be sent. The body, where the
/// operation has one, is added by the caller.
#[derive(Debug)]
pub struct Request {
    pub method: Method,
    pub url: String,
    /// The value of the `Authorization` header, where the operation needs one.
    pub authorization: Option<String>,
    /// The name of the operation in failure messages.
    pub label: String,
    pub rule: StatusRule,
}

/// A `Request` as plain values.
pub struct RequestModel {
    pub method: Method,
    pub url: Seq<char>,
    pub authorization: Option<Seq<char>>,
    pub label: Seq<char>,
    pub rule: StatusRule,
}

impl View for Request {
    type V = RequestModel;

    open spec fn view(&self) -> RequestModel {
        RequestModel {
            method: self.method,
            url: self.url@,
            authorization: crate::text::opt_view(self.authorization),
            label: self.label@,
            rule: self.rule,
        }
    }
}

/// The view of a request or an error.
pub open spec fn request_view(out: Result<Request, MilieuError>) -> Result<RequestModel, ErrorModel> {
    match out {
        Ok(r) => Ok(r@),
        Err(e) => Err(e@),
    }
}

/// The address of an operation: the base address without slashes at its end, a
/// slash, and the path without slashes at its start.
pub open spec fn endpoint_text(base_url: Seq<char>, path: Seq<char>) -> Seq<char> {
    without_trailing(base_url, '/') + "/"@ + without_leading(path, '/')
}

/// The client of the remote service: where it is, and the access token if the
/// user is logged in.
#[derive(Debug)]
pub struct ApiClient {
    base_url: String,
    token: Option<String>,
}

/// An `ApiClient` as plain values.
pub struct ApiClientModel {
    pub base_url: Seq<char>,
    pub token: Option<Seq<char>>,
}

impl View for ApiClient {
    type V = ApiClientModel;

    closed spec fn view(&self) -> ApiClientModel {
        ApiClientModel { base_url: self.base_url@, token: crate::text::opt_view(self.token) }
    }
}

/// The request of an operation: `AuthMissing` where the operation needs the
/// access token and there is none.
pub open spec fn request_of(
    client: ApiClientModel,
    authed: bool,
    method: Method,
    path: Seq<char>,
    label: Seq<char>,
    rule: StatusRule,
) -> Result<RequestModel, ErrorModel> {
    if authed && client.token is None {
        Err(ErrorModel::AuthMissing)
    } else {
        Ok(
            RequestModel {
                method,
                url: endpoint_text(client.base_url, path),
                authorization: if authed {
                    Some("Bearer "@ + client.token->0)
                } else {
                    None
                },
                label,
                rule,
            },
        )
    }
}

/// Whether a status code says that the operation succeeded.
pub open spec fn is_success(code: u16) -> bool {
    200 <= code <= 299
}

/// What a status code says of a reply: `Ok(true)` where a body follows,
/// `Ok(false)` where what was asked for is absent, and the failure otherwise.
/// `status` is the status as the service words it.
pub open spec fn status_reading(
    label: Seq<char>,
    rule: StatusRule,
    code: u16,
    status: Seq<char>,
) -> Result<bool, ErrorModel> {
    if rule is Optional && code == 404 {
        Ok(false)
    } else if rule is Lookup && code == 404 {
        Err(ErrorModel::CommandFailed("repo not found"@))
    } else if is_success(code) {
        Ok(true)
    } else if rule is Guarded && code == 404 {
        Err(
            ErrorModel::CommandFailed(
                label + " failed: repo not found or no write access (read-only)"@,
            ),
        )
    } else if rule is Guarded && code == 401 {
        Err(ErrorModel::CommandFailed(label + " failed: unauthorized"@))
    } else if rule is Guarded && code == 403 {
        Err(ErrorModel::CommandFailed(label + " failed: forbidden"@))
    } else {
        Err(ErrorModel::CommandFailed(label + " failed: "@ + status))
    }
}

impl Request {
    /// Reads the status of the reply to this request: `Ok(true)` where a body
    /// follows, `Ok(false)` where what was asked for is absent, and the failure
    /// otherwise. `status` is the status as the service words it.
    pub fn read_status(&self, code: u16, status: &str) -> (out: Result<bool, MilieuError>)
        ensures
            crate::commands::push::flag_view(out) == status_reading(
                self@.label,
                self@.rule,
                code,
                status@,
            ),
    {
        let optional = match self.rule {
            StatusRule::Optional => true,
            _ => false,
        };
        let lookup = match self.rule {
            StatusRule::Lookup => true,
            _ => false,
        };
        let guarded = match self.rule {
            StatusRule::Guarded => true,
            _ => false,
        };
        if optional && code == 404 {
            Ok(false)
        } else if lookup && code == 404 {
            Err(MilieuError::failed("repo not found"))
        } else if 200 <= code && code <= 299 {
            Ok(true)
        } else if guarded && code == 404 {
            Err(
                MilieuError::CommandFailed(
                    concat2(
                        self.label.as_str(),
                        " failed: repo not found or no write access (read-only)",
                    ),
                ),
            )
        } else if guarded && code == 401 {
            Err(MilieuError::CommandFailed(concat2(self.label.as_str(), " failed: unauthorized")))
        } else if guarded && code == 403 {
            Err(MilieuError::CommandFailed(concat2(self.label.as_str(), " failed: forbidden")))
        } else {
            Err(MilieuError::CommandFailed(concat3(self.label.as_str(), " failed: ", status)))
        }
    }
}

impl ApiClient {
    /// A client for the service at `base_url`.
    pub fn new(base_url: &str, token: Option<String>) -> (out: ApiClient)
        ensures
            out@ == (ApiClientModel { base_url: base_url@, token: crate::text::opt_view(token) }),
    {
        ApiClient { base_url: String::from_str(base_url), token }
    }

    /// The address of an operation.
    pub fn endpoint(&self, path: &str) -> (out: String)
        ensures
            out@ == endpoint_text(self@.base_url, path@),
    {
        let mut out = strip_trailing(self.base_url.as_str(), '/');
        out.append("/");
        out.append(strip_leading(path, '/').as_str());
        out
    }

    /// The value of the `Authorization` header, or `AuthMissing`.
    pub fn auth_header(&self) -> (out: Result<String, MilieuError>)
        ensures
            match self@.token {
                Some(token) => out matches Ok(header) && header@ == "Bearer "@ + token,
                None => out matches Err(e) && e@ == ErrorModel::AuthMissing,
            },
    {
        match &self.token {
            Some(token) => Ok(concat2("Bearer ", token.as_str())),
            None => Err(MilieuError::AuthMissing),
        }
    }

    fn request(&self, authed: bool, method: Method, path: String, label: &str, rule: StatusRule) -> (out:
        Result<Request, MilieuError>)
        ensures
            request_view(out) == request_of(self@, authed, method, path@, label@, rule),
    {
        let authorization = if authed {
            match self.auth_header() {
                Ok(header) => Some(header),
                Err(e) => {
                    return Err(e);
                },
            }
        } else {
            None
        };
        Ok(
            Request {
                method,
                url: self.endpoint(path.as_str()),
                authorization,
                label: String::from_str(label),
                rule,
            },
        )
    }

    /// Log in with email and password.
    pub fn login(&self) -> (out: Result<Request, MilieuError>)
        ensures
            request_view(out) == request_of(
                self@,
                false,
                Method::Post,
                "/v1/auth/login"@,
                "login"@,
                StatusRule::Plain,
            ),
    {
        let route = String::from_str("/v1/auth/login");
        self.request(false, Method::Post, route, "login", StatusRule::Plain)
    }

    /// Create an account.
    pub fn register(&self) -> (out: Result<Request, MilieuError>)
        ensures
            request_view(out) == request_of(
                self@,
                false,
                Method::Post,
                "/v1/auth/register"@,
                "register"@,
                StatusRule::Plain,
            ),
    {
        let route = String::from_str("/v1/auth/register");
        self.request(false, Method::Post, route, "register", StatusRule::Plain)
    }

    /// The encrypted user master key, if the account has one.
    pub fn get_umk(&self) -> (out: Result<Request, MilieuError>)
        ensures
            request_view(out) == request_of(
                self@,
                true,
                Method::Get,
                "/v1/users/me/umk"@,
                "get umk"@,
                StatusRule::Optional,
            ),
    {
        let route = String::from_str("/v1/users/me/umk");
        self.request(true, Method::Get, route, "get umk", StatusRule::Optional)
    }

    /// Publish the encrypted user master key.
    pub fn put_umk(&self) -> (out: Result<Request, MilieuError>)
        ensures
            request_view(out) == request_of(
                self@,
                true,
                Method::Put,
                "/v1/users/me/umk"@,
                "put umk"@,
                StatusRule::Plain,
            ),
    {
        let route = String::from_str("/v1/users/me/umk");
        self.request(true, Method::Put, route, "put umk", StatusRule::Plain)
    }

    /// Upload a ciphertext object.
    pub fn post_object(&self, repo_id: &str, branch: &str) -> (out: Result<Request, MilieuError>)
        ensures
            request_view(out) == request_of(
                self@,
                true,
                Method::Post,
                "/v1/repos/"@ + repo_id@ + "/branches/"@ + branch@ + "/objects"@,
                "post object"@,
                StatusRule::Guarded,
            ),
    {
        let mut route = String::from_str("/v1/repos/");
        route.append(repo_id);
        route.append("/branches/");
        route.append(branch);
        route.append("/objects");
        self.request(true, Method::Post, route, "post object", StatusRule::Guarded)
    }

    /// The latest object of a path, if there is one.
    pub fn get_latest(&self, repo_id: &str, branch: &str, path: &str) -> (out: Result<Request, MilieuError>)
        ensures
            request_view(out) == request_of(
                self@,
                true,
                Method::Get,
                "/v1/repos/"@ + repo_id@ + "/branches/"@ + branch@ + "/objects/latest?path="@ + url_encoded(path@),
                "get latest"@,
                StatusRule::Optional,
            ),
    {
        let mut route = String::from_str("/v1/repos/");
        route.append(repo_id);
        route.append("/branches/");
        route.append(branch);
        route.append("/objects/latest?path=");
        route.append(url_encode(path).as_str());
        self.request(true, Method::Get, route, "get latest", StatusRule::Optional)
    }

    /// One version of the object of a path.
    pub fn get_version(&self, repo_id: &str, branch: &str, path: &str, version: u32) -> (out: Result<Request, MilieuError>)
        ensures
            request_view(out) == request_of(
                self@,
                true,
                Method::Get,
                "/v1/repos/"@ + repo_id@ + "/branches/"@ + branch@ + "/objects/version?path="@ + url_encoded(path@) + "&version="@ + decimal_text(version as nat),
                "get version"@,
                StatusRule::Plain,
            ),
    {
        let mut route = String::from_str("/v1/repos/");
        route.append(repo_id);
        route.append("/branches/");
        route.append(branch);
        route.append("/objects/version?path=");
        route.append(url_encode(path).as_str());
        route.append("&version=");
        route.append(decimal(version as u128).as_str());
        self.request(true, Method::Get, route, "get version", StatusRule::Plain)
    }

    /// The versions of the object of a path.
    pub fn get_history(&self, repo_id: &str, branch: &str, path: &str) -> (out: Result<Request, MilieuError>)
        ensures
            request_view(out) == request_of(
                self@,
                true,
                Method::Get,
                "/v1/repos/"@ + repo_id@ + "/branches/"@ + branch@ + "/objects/history?path="@ + url_encoded(path@),
                "get history"@,
                StatusRule::Plain,
            ),
    {
        let mut route = String::from_str("/v1/repos/");
        route.append(repo_id);
        route.append("/branches/");
        route.append(branch);
        route.append("/objects/history?path=");
        route.append(url_encode(path).as_str());
        self.request(true, Method::Get, route, "get history", StatusRule::Plain)
    }

    /// The repositories of the user.
    pub fn get_repos(&self) -> (out: Result<Request, MilieuError>)
        ensures
            request_view(out) == request_of(
                self@,
                true,
                Method::Get,
                "/v1/users/me/repos"@,
                "get repos"@,
                StatusRule::Plain,
            ),
    {
        let route = String::from_str("/v1/users/me/repos");
        self.request(true, Method::Get, route, "get repos", StatusRule::Plain)
    }

    /// The collaborators of a repository.
    pub fn get_repo_access(&self, repo_id: &str) -> (out: Result<Request, MilieuError>)
        ensures
            request_view(out) == request_of(
                self@,
                true,
                Method::Get,
                "/v1/repos/"@ + repo_id@ + "/access"@,
                "get access"@,
                StatusRule::Plain,
            ),
    {
        let mut route = String::from_str("/v1/repos/");
        route.append(repo_id);
        route.append("/access");
        self.request(true, Method::Get, route, "get access", StatusRule::Plain)
    }

    /// Invite a collaborator.
    pub fn invite_repo_access(&self, repo_id: &str) -> (out: Result<Request, MilieuError>)
        ensures
            request_view(out) == request_of(
                self@,
                true,
                Method::Post,
                "/v1/repos/"@ + repo_id@ + "/access"@,
                "invite"@,
                StatusRule::Plain,
            ),
    {
        let mut route = String::from_str("/v1/repos/");
        route.append(repo_id);
        route.append("/access");
        self.request(true, Method::Post, route, "invite", StatusRule::Plain)
    }

    /// Change the role of a collaborator.
    pub fn update_repo_access(&self, repo_id: &str) -> (out: Result<Request, MilieuError>)
        ensures
            request_view(out) == request_of(
                self@,
                true,
                Method::Patch,
                "/v1/repos/"@ + repo_id@ + "/access"@,
                "update access"@,
                StatusRule::Plain,
            ),
    {
        let mut route = String::from_str("/v1/repos/");
        route.append(repo_id);
        route.append("/access");
        self.request(true, Method::Patch, route, "update access", StatusRule::Plain)
    }

    /// Remove a collaborator.
    pub fn revoke_repo_access(&self, repo_id: &str, email: &str) -> (out: Result<Request, MilieuError>)
        ensures
            request_view(out) == request_of(
                self@,
                true,
                Method::Delete,
                "/v1/repos/"@ + repo_id@ + "/access?email="@ + url_encoded(email@),
                "revoke access"@,
                StatusRule::Plain,
            ),
    {
        let mut route = String::from_str("/v1/repos/");
        route.append(repo_id);
        route.append("/access?email=");
        route.append(url_encode(email).as_str());
        self.request(true, Method::Delete, route, "revoke access", StatusRule::Plain)
    }

    /// Delete a repository with all its objects.
    pub fn delete_repo(&self, repo_id: &str) -> (out: Result<Request, MilieuError>)
        ensures
            request_view(out) == request_of(
                self@,
                true,
                Method::Delete,
                "/v1/repos/"@ + repo_id@,
                "delete repo"@,
                StatusRule::Plain,
            ),
    {
        let mut route = String::from_str("/v1/repos/");
        route.append(repo_id);
        self.request(true, Method::Delete, route, "delete repo", StatusRule::Plain)
    }

    /// The pending invites of the user.
    pub fn get_invites(&self) -> (out: Result<Request, MilieuError>)
        ensures
            request_view(out) == request_of(
                self@,
                true,
                Method::Get,
                "/v1/users/me/invites"@,
                "get invites"@,
                StatusRule::Plain,
            ),
    {
        let route = String::from_str("/v1/users/me/invites");
        self.request(true, Method::Get, route, "get invites", StatusRule::Plain)
    }

    /// The published public key of the user, if there is one.
    pub fn get_user_key(&self) -> (out: Result<Request, MilieuError>)
        ensures
            request_view(out) == request_of(
                self@,
                true,
                Method::Get,
                "/v1/users/me/key"@,
                "get user key"@,
                StatusRule::Optional,
            ),
    {
        let route = String::from_str("/v1/users/me/key");
        self.request(true, Method::Get, route, "get user key", StatusRule::Optional)
    }

    /// Publish the public key of the user.
    pub fn put_user_key(&self) -> (out: Result<Request, MilieuError>)
        ensures
            request_view(out) == request_of(
                self@,
                true,
                Method::Put,
                "/v1/users/me/key"@,
                "put user key"@,
                StatusRule::Plain,
            ),
    {
        let route = String::from_str("/v1/users/me/key");
        self.request(true, Method::Put, route, "put user key", StatusRule::Plain)
    }

    /// The repository key wrapped for the user, if it was shared.
    pub fn get_repo_key(&self, repo_id: &str) -> (out: Result<Request, MilieuError>)
        ensures
            request_view(out) == request_of(
                self@,
                true,
                Method::Get,
                "/v1/repos/"@ + repo_id@ + "/key"@,
                "get repo key"@,
                StatusRule::Optional,
            ),
    {
        let mut route = String::from_str("/v1/repos/");
        route.append(repo_id);
        route.append("/key");
        self.request(true, Method::Get, route, "get repo key", StatusRule::Optional)
    }

    /// Publish a wrapped repository key.
    pub fn put_repo_key(&self, repo_id: &str) -> (out: Result<Request, MilieuError>)
        ensures
            request_view(out) == request_of(
                self@,
                true,
                Method::Put,
                "/v1/repos/"@ + repo_id@ + "/key"@,
                "put repo key"@,
                StatusRule::Plain,
            ),
    {
        let mut route = String::from_str("/v1/repos/");
        route.append(repo_id);
        route.append("/key");
        self.request(true, Method::Put, route, "put repo key", StatusRule::Plain)
    }

    /// Accept an invite.
    pub fn accept_invite(&self, invite_id: &str) -> (out: Result<Request, MilieuError>)
        ensures
            request_view(out) == request_of(
                self@,
                true,
                Method::Post,
                "/v1/users/me/invites/"@ + invite_id@ + "/accept"@,
                "accept invite"@,
                StatusRule::Plain,
            ),
    {
        let mut route = String::from_str("/v1/users/me/invites/");
        route.append(invite_id);
        route.append("/accept");
        self.request(true, Method::Post, route, "accept invite", StatusRule::Plain)
    }

    /// Reject an invite.
    pub fn reject_invite(&self, invite_id: &str) -> (out: Result<Request, MilieuError>)
        ensures
            request_view(out) == request_of(
                self@,
                true,
                Method::Post,
                "/v1/users/me/invites/"@ + invite_id@ + "/reject"@,
                "reject invite"@,
                StatusRule::Plain,
            ),
    {
        let mut route = String::from_str("/v1/users/me/invites/");
        route.append(invite_id);
        route.append("/reject");
        self.request(true, Method::Post, route, "reject invite", StatusRule::Plain)
    }

    /// The sessions of the user.
    pub fn get_sessions(&self) -> (out: Result<Request, MilieuError>)
        ensures
            request_view(out) == request_of(
                self@,
                true,
                Method::Get,
                "/v1/users/me/sessions"@,
                "get sessions"@,
                StatusRule::Plain,
            ),
    {
        let route = String::from_str("/v1/users/me/sessions");
        self.request(true, Method::Get, route, "get sessions", StatusRule::Plain)
    }

    /// Revoke the current session.
    pub fn logout(&self) -> (out: Result<Request, MilieuError>)
        ensures
            request_view(out) == request_of(
                self@,
                true,
                Method::Post,
                "/v1/auth/logout"@,
                "logout"@,
                StatusRule::Plain,
            ),
    {
        let route = String::from_str("/v1/auth/logout");
        self.request(true, Method::Post, route, "logout", StatusRule::Plain)
    }

    /// Create a repository.
    pub fn create_repo(&self) -> (out: Result<Request, MilieuError>)
        ensures
            request_view(out) == request_of(
                self@,
                true,
                Method::Post,
                "/v1/repos"@,
                "create repo"@,
                StatusRule::Plain,
            ),
    {
        let route = String::from_str("/v1/repos");
        self.request(true, Method::Post, route, "create repo", StatusRule::Plain)
    }

    /// Find a repository by its name.
    pub fn get_repo_by_name(&self, name: &str) -> (out: Result<Request, MilieuError>)
        ensures
            request_view(out) == request_of(
                self@,
                true,
                Method::Get,
                "/v1/repos?name="@ + url_encoded(name@),
                "get repo"@,
                StatusRule::Lookup,
            ),
    {
        let mut route = String::from_str("/v1/repos?name=");
        route.append(url_encode(name).as_str());
        self.request(true, Method::Get, route, "get repo", StatusRule::Lookup)
    }

    /// The manifest that the remote holds.
    pub fn get_manifest(&self, repo_id: &str) -> (out: Result<Request, MilieuError>)
        ensures
            request_view(out) == request_of(
                self@,
                true,
                Method::Get,
                "/v1/repos/"@ + repo_id@ + "/manifest"@,
                "get manifest"@,
                StatusRule::Plain,
            ),
    {
        let mut route = String::from_str("/v1/repos/");
        route.append(repo_id);
        route.append("/manifest");
        self.request(true, Method::Get, route, "get manifest", StatusRule::Plain)
    }

    /// Publish the manifest. The body is the manifest with every baseline
    /// cleared: baselines never leave the client.
    pub fn put_manifest(&self, manifest: &Manifest) -> (out: Result<(Request, Manifest), MilieuError>)
        ensures
            match request_of(
                self@,
                true,
                Method::Put,
                "/v1/repos/"@ + manifest@.repo_id + "/manifest"@,
                "put manifest"@,
                StatusRule::Guarded,
            ) {
                Ok(request) => out matches Ok(pair) && pair.0@ == request && pair.1@
                    == manifest_without_state(manifest@),
                Err(e) => out matches Err(f) && f@ == e,
            },
    {
        let mut route = String::from_str("/v1/repos/");
        route.append(manifest.repo_id.as_str());
        route.append("/manifest");
        match self.request(true, Method::Put, route, "put manifest", StatusRule::Guarded) {
            Ok(request) => Ok((request, manifest.without_state())),
            Err(e) => Err(e),
        }
    }
}

} // verus!
