//! The version-control host's API: what is asked of it and what its answers mean.

use vstd::prelude::*;
use vstd::utf8::decode_utf8;
use vstd::utf8::valid_utf8;
use crate::clients::http::internal_error;
use crate::clients::http::internal_failure;
use crate::clients::http::join3;
use crate::clients::http::join4;
use crate::clients::http::service_failure;
use crate::clients::http::ApiReply;
use crate::clients::http::ApiRequest;
use crate::clients::http::ApiRequestView;
use crate::clients::http::HttpMethod;
use crate::codec::base64_standard;
use crate::codec::decode_error_display;
use crate::codec::decode_error_text;
use crate::codec::decode_standard;
use crate::codec::string_from_utf8;
use crate::codec::utf8_error_display;
use crate::codec::utf8_error_text;
use crate::codec::utf8_failure;
use crate::codec::without_line_feeds;
use crate::error::AppError;
use crate::error::Failure;

verus! {

/// One entry of a repository tree.
#[derive(Debug)]
pub struct TreeEntry {
    /// The path of the entry from the root of the repository.
    pub path: String,
    /// What the entry is: `blob` for a file, `tree` for a directory, `commit` for a submodule.
    pub file_type: String,
    /// The hash of the entry.
    pub sha: String,
    /// The size in bytes that the host reports, for files.
    pub size: Option<u64>,
}

/// A tree entry as the contracts see it.
pub struct TreeEntryView {
    pub path: Seq<char>,
    pub file_type: Seq<char>,
    pub sha: Seq<char>,
    pub size: Option<u64>,
}

impl View for TreeEntry {
    type V = TreeEntryView;

    open spec fn view(&self) -> TreeEntryView {
        TreeEntryView {
            path: self.path@,
            file_type: self.file_type@,
            sha: self.sha@,
            size: self.size,
        }
    }
}

impl DeepView for TreeEntry {
    type V = TreeEntryView;

    open spec fn deep_view(&self) -> TreeEntryView {
        self@
    }
}

impl Clone for TreeEntry {
    fn clone(&self) -> (r: Self)
        ensures
            r@ == self@,
    {
        TreeEntry {
            path: self.path.clone(),
            file_type: self.file_type.clone(),
            sha: self.sha.clone(),
            size: self.size,
        }
    }
}

/// The commit that a branch points to.
#[derive(Debug)]
pub struct BranchCommit {
    pub sha: String,
}

/// A branch of a repository.
#[derive(Debug)]
pub struct Branch {
    pub name: String,
    pub commit: BranchCommit,
}

/// The languages of a repository, each with the number of bytes written in it,
/// in the order in which the host names them.
#[derive(Debug)]
pub struct RepoLanguages(pub Vec<(String, u64)>);

/// What the host tells of a repository.
#[derive(Debug)]
pub struct Repository {
    pub id: i64,
    pub name: String,
    pub full_name: String,
    pub private: bool,
    pub description: Option<String>,
    pub default_branch: String,
    pub html_url: String,
}

/// What the host answers when it is asked for the content of a file.
#[derive(Debug)]
pub struct ContentResponse {
    /// The content of the file, encoded.
    pub content: Option<String>,
    /// How the content is encoded.
    pub encoding: Option<String>,
}

/// The client of the version-control host's API. It holds nothing: the host's address is
/// fixed, and each request carries its own token.
#[derive(Debug, Clone, Copy, PartialEq, Eq, Structural)]
pub struct GitHubApiClient {}

impl Default for GitHubApiClient {
    fn default() -> (r: Self)
        ensures
            r == (GitHubApiClient {  }),
    {
        GitHubApiClient {  }
    }
}

/// The headers of every request to the host: the token, the name of this service, and the
/// kind of answer that is asked for.
pub open spec fn host_headers(token: Seq<char>) -> Seq<(Seq<char>, Seq<char>)> {
    seq![
        ("Authorization"@, "Bearer "@ + token),
        ("User-Agent"@, "data-service"@),
        ("Accept"@, "application/vnd.github+json"@),
    ]
}

/// The request that asks the host for what lies at `url`.
pub open spec fn host_request(token: Seq<char>, url: Seq<char>) -> ApiRequestView {
    ApiRequestView { method: HttpMethod::Get, url, headers: host_headers(token) }
}

/// The address of a repository.
pub open spec fn repository_url(repo: Seq<char>) -> Seq<char> {
    "https://api.github.com/repos/"@ + repo
}

/// The address of the whole tree of a branch of a repository.
pub open spec fn tree_url(repo: Seq<char>, branch: Seq<char>) -> Seq<char> {
    "https://api.github.com/repos/"@ + repo + "/git/trees/"@ + branch + "?recursive=1"@
}

/// The address of the content of a file on a branch of a repository.
pub open spec fn content_url(repo: Seq<char>, path: Seq<char>, branch: Seq<char>) -> Seq<char> {
    "https://api.github.com/repos/"@ + repo + "/contents/"@ + path + "?ref="@ + branch
}

/// The address of the branches of a repository.
pub open spec fn branches_url(repo: Seq<char>) -> Seq<char> {
    "https://api.github.com/repos/"@ + repo + "/branches"@
}

/// The address of the languages of a repository.
pub open spec fn languages_url(repo: Seq<char>) -> Seq<char> {
    "https://api.github.com/repos/"@ + repo + "/languages"@
}

/// The address of the repositories of the user whose token is shown: a hundred of them,
/// those changed last first.
pub open spec fn user_repos_url() -> Seq<char> {
    "https://api.github.com/user/repos?per_page=100&sort=updated"@
}

/// What an answer of the host comes to: what it held, or the failure of the host. A
/// status that is no success is reported with the status and with what the answer held.
pub open spec fn answer_of<T>(reply: ApiReply<T>) -> Result<T, Failure> {
    match reply {
        ApiReply::Unreachable(why) => Err(service_failure(why@)),
        ApiReply::Rejected { status, body, .. } => Err(
            service_failure("GitHub API returned "@ + status@ + ": "@ + body@),
        ),
        ApiReply::Garbled(why) => Err(service_failure(why@)),
        ApiReply::Accepted(held) => Ok(held),
    }
}

/// Whether a status says that the repository is not there for the token: the caller is
/// unknown (401), the caller may not see it (403), or there is no such repository (404).
pub open spec fn refusal(code: u16) -> bool {
    code == 401 || code == 403 || code == 404
}

/// Whether the host lets the token read the repository, told from its answer to a request
/// for the repository: yes for a success, no for a refusal, and a failure of the host,
/// reported with the status and with what the answer held, for every other status. Where
/// the host could not be asked, that is a failure too.
pub open spec fn access_of(reply: ApiReply<()>) -> Result<bool, Failure> {
    match reply {
        ApiReply::Unreachable(why) => Err(service_failure(why@)),
        ApiReply::Rejected { code, status, body } => if refusal(code) {
            Ok(false)
        } else {
            Err(service_failure("GitHub API returned "@ + status@ + ": "@ + body@))
        },
        ApiReply::Garbled(why) => Err(service_failure(why@)),
        ApiReply::Accepted(_) => Ok(true),
    }
}

/// The host's answer says "no access" for a refusal and for nothing else: a status that is
/// neither a success nor a refusal, such as a failure of the host itself, is passed on as
/// a failure, and so is a request that could not be carried out.
pub proof fn lemma_no_access_is_a_refusal(reply: ApiReply<()>)
    ensures
        access_of(reply) == Ok::<bool, Failure>(false) <==> reply is Rejected && refusal(
            reply->code,
        ),
        access_of(reply) == Ok::<bool, Failure>(true) <==> reply is Accepted,
        reply is Rejected && !refusal(reply->code) ==> access_of(reply) == Err::<bool, Failure>(
            service_failure("GitHub API returned "@ + reply->status@ + ": "@ + reply->body@),
        ),
{
}

/// The text that decoded bytes come to: the text that they encode as UTF-8, or a failure
/// that says why they encode none; and where the decoding itself has failed, a failure
/// that says why.
pub open spec fn text_of_bytes(decoded: Result<Seq<u8>, base64::DecodeError>) -> Result<
    Seq<char>,
    Failure,
> {
    match decoded {
        Ok(bytes) => if valid_utf8(bytes) {
            Ok(decode_utf8(bytes))
        } else {
            Err(
                internal_failure(
                    "File is not valid UTF-8: "@ + utf8_error_text(utf8_failure(bytes)),
                ),
            )
        },
        Err(e) => Err(internal_failure("Failed to decode base64: "@ + decode_error_text(e))),
    }
}

/// The content that is held in base64, once the line feeds that the host breaks it with
/// are taken out.
pub open spec fn unbroken(content: Seq<char>) -> Seq<char> {
    content.filter(|c: char| c != '\n')
}

/// The text of a file, from what the host has answered: the content must be there and be
/// encoded in base64.
pub open spec fn decoded(answer: ContentResponse) -> Result<Seq<char>, Failure> {
    if answer.content is Some && answer.encoding is Some && answer.encoding->0@ == "base64"@ {
        text_of_bytes(base64_standard(unbroken(answer.content->0@)))
    } else {
        Err(internal_failure("Unexpected content format"@))
    }
}

/// What an answer of the host to the request for the file at `path` comes to: the text of
/// the file, or a failure.
pub open spec fn file_content_of(path: Seq<char>, reply: ApiReply<ContentResponse>) -> Result<
    Seq<char>,
    Failure,
> {
    match reply {
        ApiReply::Unreachable(why) => Err(service_failure(why@)),
        ApiReply::Rejected { status, body, .. } => Err(
            service_failure("Failed to fetch file "@ + path + ": "@ + status@),
        ),
        ApiReply::Garbled(why) => Err(service_failure(why@)),
        ApiReply::Accepted(answer) => decoded(answer),
    }
}

impl GitHubApiClient {
    pub fn new() -> (r: Self)
        ensures
            r == (GitHubApiClient {  }),
    {
        GitHubApiClient {  }
    }

    /// The request that asks the host for what lies at `url`.
    pub fn request(token: &str, url: String) -> (r: ApiRequest)
        ensures
            r@ == host_request(token@, url@),
    {
        let mut headers: Vec<(String, String)> = Vec::new();
        headers.push((String::from_str("Authorization"), String::from_str("Bearer ").concat(token)));
        headers.push((String::from_str("User-Agent"), String::from_str("data-service")));
        headers.push((String::from_str("Accept"), String::from_str("application/vnd.github+json")));
        assert(headers.deep_view() =~= host_headers(token@));
        ApiRequest { method: HttpMethod::Get, url, headers }
    }

    /// The request for a repository: to see whether it can be read, or to learn about it.
    pub fn repository_request(token: &str, repo: &str) -> (r: ApiRequest)
        ensures
            r@ == host_request(token@, repository_url(repo@)),
    {
        Self::request(token, String::from_str("https://api.github.com/repos/").concat(repo))
    }

    /// The request for the whole tree of a branch.
    pub fn tree_request(token: &str, repo: &str, branch: &str) -> (r: ApiRequest)
        ensures
            r@ == host_request(token@, tree_url(repo@, branch@)),
    {
        let url = join4("https://api.github.com/repos/", repo, "/git/trees/", branch).concat(
            "?recursive=1",
        );
        Self::request(token, url)
    }

    /// The request for the content of a file.
    pub fn content_request(token: &str, repo: &str, path: &str, branch: &str) -> (r: ApiRequest)
        ensures
            r@ == host_request(token@, content_url(repo@, path@, branch@)),
    {
        let url = join4("https://api.github.com/repos/", repo, "/contents/", path).concat(
            "?ref=",
        ).concat(branch);
        Self::request(token, url)
    }

    /// The request for the branches of a repository.
    pub fn branches_request(token: &str, repo: &str) -> (r: ApiRequest)
        ensures
            r@ == host_request(token@, branches_url(repo@)),
    {
        Self::request(token, join3("https://api.github.com/repos/", repo, "/branches"))
    }

    /// The request for the languages of a repository.
    pub fn languages_request(token: &str, repo: &str) -> (r: ApiRequest)
        ensures
            r@ == host_request(token@, languages_url(repo@)),
    {
        Self::request(token, join3("https://api.github.com/repos/", repo, "/languages"))
    }

    /// The request for the repositories of the user whose token is shown.
    pub fn user_repos_request(token: &str) -> (r: ApiRequest)
        ensures
            r@ == host_request(token@, user_repos_url()),
    {
        Self::request(
            token,
            String::from_str("https://api.github.com/user/repos?per_page=100&sort=updated"),
        )
    }

    /// What an answer of the host comes to: what it held, or the failure of the host.
    pub fn read<T>(reply: ApiReply<T>) -> (r: Result<T, AppError>)
        ensures
            match r {
                Ok(held) => answer_of(reply) == Ok::<T, Failure>(held),
                Err(e) => answer_of(reply) == Err::<T, Failure>(e@),
            },
    {
        match reply {
            ApiReply::Unreachable(why) => Err(AppError::ExternalService(why)),
            ApiReply::Rejected { status, body, .. } => Err(
                AppError::ExternalService(
                    join4("GitHub API returned ", status.as_str(), ": ", body.as_str()),
                ),
            ),
            ApiReply::Garbled(why) => Err(AppError::ExternalService(why)),
            ApiReply::Accepted(held) => Ok(held),
        }
    }

    /// Whether the host lets the token read the repository: no for a refusal, and a
    /// failure of the host for any other status that is no success.
    pub fn validate_repo_access(reply: ApiReply<()>) -> (r: Result<bool, AppError>)
        ensures
            match r {
                Ok(granted) => access_of(reply) == Ok::<bool, Failure>(granted),
                Err(e) => access_of(reply) == Err::<bool, Failure>(e@),
            },
    {
        match reply {
            ApiReply::Unreachable(why) => Err(AppError::ExternalService(why)),
            ApiReply::Rejected { code, status, body } => {
                if code == 401 || code == 403 || code == 404 {
                    Ok(false)
                } else {
                    Err(
                        AppError::ExternalService(
                            join4("GitHub API returned ", status.as_str(), ": ", body.as_str()),
                        ),
                    )
                }
            },
            ApiReply::Garbled(why) => Err(AppError::ExternalService(why)),
            ApiReply::Accepted(_) => Ok(true),
        }
    }

    /// What the host tells of a repository.
    pub fn get_repository(reply: ApiReply<Repository>) -> (r: Result<Repository, AppError>)
        ensures
            match r {
                Ok(held) => answer_of(reply) == Ok::<Repository, Failure>(held),
                Err(e) => answer_of(reply) == Err::<Repository, Failure>(e@),
            },
    {
        Self::read(reply)
    }

    /// The entries of the whole tree of a branch.
    pub fn get_repo_tree(reply: ApiReply<Vec<TreeEntry>>) -> (r: Result<Vec<TreeEntry>, AppError>)
        ensures
            match r {
                Ok(held) => answer_of(reply) == Ok::<Vec<TreeEntry>, Failure>(held),
                Err(e) => answer_of(reply) == Err::<Vec<TreeEntry>, Failure>(e@),
            },
    {
        Self::read(reply)
    }

    /// The branches of a repository.
    pub fn get_branches(reply: ApiReply<Vec<Branch>>) -> (r: Result<Vec<Branch>, AppError>)
        ensures
            match r {
                Ok(held) => answer_of(reply) == Ok::<Vec<Branch>, Failure>(held),
                Err(e) => answer_of(reply) == Err::<Vec<Branch>, Failure>(e@),
            },
    {
        Self::read(reply)
    }

    /// The languages of a repository.
    pub fn get_languages(reply: ApiReply<RepoLanguages>) -> (r: Result<RepoLanguages, AppError>)
        ensures
            match r {
                Ok(held) => answer_of(reply) == Ok::<RepoLanguages, Failure>(held),
                Err(e) => answer_of(reply) == Err::<RepoLanguages, Failure>(e@),
            },
    {
        Self::read(reply)
    }

    /// The repositories of the user whose token was shown.
    pub fn list_user_repos(reply: ApiReply<Vec<Repository>>) -> (r: Result<
        Vec<Repository>,
        AppError,
    >)
        ensures
            match r {
                Ok(held) => answer_of(reply) == Ok::<Vec<Repository>, Failure>(held),
                Err(e) => answer_of(reply) == Err::<Vec<Repository>, Failure>(e@),
            },
    {
        Self::read(reply)
    }

    /// The text that decoded bytes come to.
    pub fn content_from_bytes(decoded: Result<Vec<u8>, base64::DecodeError>) -> (r: Result<
        String,
        AppError,
    >)
        ensures
            ({
                let outcome = text_of_bytes(
                    match decoded {
                        Ok(bytes) => Ok(bytes@),
                        Err(e) => Err(e),
                    },
                );
                match r {
                    Ok(text) => outcome == Ok::<Seq<char>, Failure>(text@),
                    Err(e) => outcome == Err::<Seq<char>, Failure>(e@),
                }
            }),
    {
        match decoded {
            Ok(bytes) => match string_from_utf8(bytes) {
                Ok(text) => Ok(text),
                Err(e) => {
                    let why = utf8_error_display(&e);
                    Err(internal_error("File is not valid UTF-8: ", why.as_str()))
                },
            },
            Err(e) => {
                let why = decode_error_display(&e);
                Err(internal_error("Failed to decode base64: ", why.as_str()))
            },
        }
    }

    /// The text of a file, from what the host has answered.
    pub fn decode_content(answer: &ContentResponse) -> (r: Result<String, AppError>)
        ensures
            match r {
                Ok(text) => decoded(*answer) == Ok::<Seq<char>, Failure>(text@),
                Err(e) => decoded(*answer) == Err::<Seq<char>, Failure>(e@),
            },
    {
        match (&answer.content, &answer.encoding) {
            (Some(content), Some(encoding)) => {
                if encoding.as_str().eq("base64") {
                    let cleaned = without_line_feeds(content.as_str());
                    Self::content_from_bytes(decode_standard(cleaned.as_str()))
                } else {
                    Err(AppError::Internal(String::from_str("Unexpected content format")))
                }
            },
            _ => Err(AppError::Internal(String::from_str("Unexpected content format"))),
        }
    }

    /// The text of the file at `path`, from the answer of the host to the request for it.
    pub fn get_file_content(path: &str, reply: ApiReply<ContentResponse>) -> (r: Result<
        String,
        AppError,
    >)
        ensures
            match r {
                Ok(text) => file_content_of(path@, reply) == Ok::<Seq<char>, Failure>(text@),
                Err(e) => file_content_of(path@, reply) == Err::<Seq<char>, Failure>(e@),
            },
    {
        match reply {
            ApiReply::Unreachable(why) => Err(AppError::ExternalService(why)),
            ApiReply::Rejected { status, body, .. } => Err(
                AppError::ExternalService(
                    join4("Failed to fetch file ", path, ": ", status.as_str()),
                ),
            ),
            ApiReply::Garbled(why) => Err(AppError::ExternalService(why)),
            ApiReply::Accepted(answer) => Self::decode_content(&answer),
        }
    }
}

} // verus!
