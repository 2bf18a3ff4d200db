//! Reading the code-hosting provider's REST answers.
//!
//! The requests themselves are plain HTTP made by the caller; this module
//! holds what the tool decides and computes around them: the request URL for
//! a repository, and the meaning of the response bodies.

use vstd::prelude::*;

use crate::json::{
    bool_member, fields_view, get_bool_member, get_string_member, scan_json, scan_object,
    str_to_chars, string_member, FieldV, JsonValue, JsonValueV,
};

verus! {

// ---------------------------------------------------------------------------
// Response records
// ---------------------------------------------------------------------------

/// The signed-in account, as the user endpoint reports it.
#[derive(Debug)]
pub struct UserInfo {
    pub login: String,
}

/// The view of a [`UserInfo`].
#[verifier::ext_equal]
pub struct UserInfoV {
    pub login: Seq<char>,
}

impl View for UserInfo {
    type V = UserInfoV;

    open spec fn view(&self) -> UserInfoV {
        UserInfoV { login: self.login@ }
    }
}

/// The repository a fork was made from.
#[derive(Debug)]
pub struct ParentRepoInfo {
    pub ssh_url: String,
}

/// The view of a [`ParentRepoInfo`].
#[verifier::ext_equal]
pub struct ParentRepoInfoV {
    pub ssh_url: Seq<char>,
}

impl View for ParentRepoInfo {
    type V = ParentRepoInfoV;

    open spec fn view(&self) -> ParentRepoInfoV {
        ParentRepoInfoV { ssh_url: self.ssh_url@ }
    }
}

/// What the repository endpoint reports of one repository.
#[derive(Debug)]
pub struct GetRepoResponse {
    pub fork: bool,
    pub ssh_url: String,
    pub parent: Option<ParentRepoInfo>,
}

/// The view of a [`GetRepoResponse`].
#[verifier::ext_equal]
pub struct GetRepoResponseV {
    pub fork: bool,
    pub ssh_url: Seq<char>,
    pub parent: Option<ParentRepoInfoV>,
}

impl View for GetRepoResponse {
    type V = GetRepoResponseV;

    open spec fn view(&self) -> GetRepoResponseV {
        GetRepoResponseV {
            fork: self.fork,
            ssh_url: self.ssh_url@,
            parent: match self.parent {
                Some(ref p) => Some(p@),
                None => None,
            },
        }
    }
}

/// Why a provider request yields no record.
#[derive(Clone, Copy, PartialEq, Eq, Structural, Debug)]
pub enum GithubError {
    /// The response carried a failing status.
    RequestFailed,
    /// The response body does not read as the expected record.
    Malformed,
}

// ---------------------------------------------------------------------------
// The request URL
// ---------------------------------------------------------------------------

/// The repository endpoint's URL for one repository.
pub open spec fn spec_repo_url(owner: Seq<char>, repo: Seq<char>) -> Seq<char> {
    "https://api.github.com/repos/"@ + owner + "/"@ + repo
}

/// Builds the repository endpoint's URL.
pub fn build_repo_url(owner: &str, repo: &str) -> (r: String)
    ensures
        r@ == spec_repo_url(owner@, repo@),
{
    let mut r = String::from_str("https://api.github.com/repos/");
    r.append(owner);
    r.append("/");
    r.append(repo);
    r
}

// ---------------------------------------------------------------------------
// Response bodies
// ---------------------------------------------------------------------------

/// The name of the account-name member.
pub open spec fn key_login() -> Seq<char> {
    seq!['l', 'o', 'g', 'i', 'n']
}

/// The name of the fork-flag member.
pub open spec fn key_fork() -> Seq<char> {
    seq!['f', 'o', 'r', 'k']
}

/// The name of the clone-address member.
pub open spec fn key_ssh_url() -> Seq<char> {
    seq!['s', 's', 'h', '_', 'u', 'r', 'l']
}

/// The name of the parent-repository member.
pub open spec fn key_parent() -> Seq<char> {
    seq!['p', 'a', 'r', 'e', 'n', 't']
}

/// What a user-endpoint body means: the account name is required.
pub open spec fn spec_parse_user_info(s: Seq<char>) -> Option<UserInfoV> {
    match scan_json(s) {
        Option::None => None,
        Option::Some(fs) => match string_member(fs, key_login()) {
            Some(Some(l)) => Some(UserInfoV { login: l }),
            _ => None,
        },
    }
}

/// What a parent-repository object means: its clone address is required.
pub open spec fn spec_parse_parent(s: Seq<char>) -> Option<ParentRepoInfoV> {
    match scan_json(s) {
        Option::None => None,
        Option::Some(fs) => match string_member(fs, key_ssh_url()) {
            Some(Some(u)) => Some(ParentRepoInfoV { ssh_url: u }),
            _ => None,
        },
    }
}

/// How the parent member reads: absent or `null` is no parent; a nested
/// object must read as a parent record.
pub open spec fn parent_member(fs: Seq<FieldV>) -> Option<Option<ParentRepoInfoV>> {
    if crate::json::field_count(fs, key_parent()) >= 2 {
        None
    } else {
        match crate::json::find_field(fs, key_parent()) {
            Option::None => Some(None),
            Option::Some(JsonValueV::Null) => Some(None),
            Option::Some(JsonValueV::Obj(raw)) => match spec_parse_parent(raw) {
                Some(p) => Some(Some(p)),
                None => None,
            },
            Option::Some(_) => None,
        }
    }
}

/// What a repository-endpoint body means: the fork flag and clone address
/// are required; the parent is optional and reads as [`parent_member`] says.
pub open spec fn spec_parse_repo_response(s: Seq<char>) -> Option<GetRepoResponseV> {
    match scan_json(s) {
        Option::None => None,
        Option::Some(fs) => match (
            bool_member(fs, key_fork()),
            string_member(fs, key_ssh_url()),
            parent_member(fs),
        ) {
            (Some(Some(f)), Some(Some(u)), Some(p)) => Some(
                GetRepoResponseV { fork: f, ssh_url: u, parent: p },
            ),
            _ => None,
        },
    }
}

/// Reads a repository-endpoint body; the executable form of
/// [`spec_parse_repo_response`].
pub fn parse_repo_response(body: &str) -> (r: Option<GetRepoResponse>)
    ensures
        match r {
            Some(d) => spec_parse_repo_response(body@) == Some(d@),
            None => spec_parse_repo_response(body@) is None,
        },
{
    let cs = str_to_chars(body);
    match scan_object(&cs) {
        None => None,
        Some(fields) => {
            let kf: Vec<char> = vec!['f', 'o', 'r', 'k'];
            let ks: Vec<char> = vec!['s', 's', 'h', '_', 'u', 'r', 'l'];
            let kp: Vec<char> = vec!['p', 'a', 'r', 'e', 'n', 't'];
            proof {
                assert(kf@ =~= key_fork());
                assert(ks@ =~= key_ssh_url());
                assert(kp@ =~= key_parent());
            }
            let fork = match get_bool_member(&fields, &kf) {
                Ok(Some(b)) => b,
                _ => {
                    return None;
                },
            };
            let ssh_url = match get_string_member(&fields, &ks) {
                Ok(Some(s)) => s,
                _ => {
                    return None;
                },
            };
            let parent = match crate::json::find_unique(&fields, &kp) {
                Err(()) => {
                    return None;
                },
                Ok(None) => None,
                Ok(Some(i)) => match &fields[i].value {
                    JsonValue::Null => None,
                    JsonValue::Obj(raw) => match parse_parent_object(raw) {
                        Some(p) => Some(p),
                        None => {
                            return None;
                        },
                    },
                    _ => {
                        return None;
                    },
                },
            };
            Some(GetRepoResponse { fork, ssh_url, parent })
        },
    }
}

/// Reads a parent-repository object; the executable form of
/// [`spec_parse_parent`].
fn parse_parent_object(raw: &Vec<char>) -> (r: Option<ParentRepoInfo>)
    ensures
        match r {
            Some(p) => spec_parse_parent(raw@) == Some(p@),
            None => spec_parse_parent(raw@) is None,
        },
{
    match scan_object(raw) {
        None => None,
        Some(fields) => {
            let ks: Vec<char> = vec!['s', 's', 'h', '_', 'u', 'r', 'l'];
            proof {
                assert(ks@ =~= key_ssh_url());
            }
            match get_string_member(&fields, &ks) {
                Ok(Some(s)) => Some(ParentRepoInfo { ssh_url: s }),
                _ => None,
            }
        },
    }
}

/// Reads the user endpoint's answer: a failing status is reported as such
/// before the body is looked at; with a good status the body must read as an
/// account record.
pub fn get_authenticated_user(status_ok: bool, body: &str) -> (r: Result<UserInfo, GithubError>)
    ensures
        match r {
            Ok(u) => status_ok && spec_parse_user_info(body@) == Some(u@),
            Err(GithubError::RequestFailed) => !status_ok,
            Err(GithubError::Malformed) => status_ok && spec_parse_user_info(body@) is None,
        },
{
    if !status_ok {
        return Err(GithubError::RequestFailed);
    }
    let cs = str_to_chars(body);
    match scan_object(&cs) {
        None => Err(GithubError::Malformed),
        Some(fields) => {
            let kl: Vec<char> = vec!['l', 'o', 'g', 'i', 'n'];
            proof {
                assert(kl@ =~= key_login());
            }
            match get_string_member(&fields, &kl) {
                Ok(Some(l)) => Ok(UserInfo { login: l }),
                _ => Err(GithubError::Malformed),
            }
        },
    }
}

} // verus!
