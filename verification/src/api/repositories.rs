//! Questions about repositories of the host: whether they can be read, which branches
//! they have, which of them the user has.

use vstd::prelude::*;
use crate::api::authorized;
use crate::api::bad_request;
use crate::api::data_sources::is_on_known_host;
use crate::api::data_sources::on_known_host;
use crate::api::data_sources::two_segments;
use crate::api::github::branch_names;
use crate::api::unauthorized;
use crate::clients::github_api::Branch;
use crate::clients::github_api::RepoLanguages;
use crate::clients::github_api::Repository;
use crate::domain::models::clone_text;
use crate::error::AppError;
use crate::error::Failure;
use crate::text::after_last;
use crate::text::before_last;
use crate::text::first_cut;
use crate::text::occurs_in;
use crate::text::text_contains;
use crate::text::text_split_first;
use crate::text::text_trim_end;
use crate::text::text_trim_end_text;
use crate::text::trim_end;
use crate::text::trim_end_text;

verus! {

/// What is sent to ask whether the user may read a repository.
#[derive(Debug)]
pub struct CheckOAuthRequest {
    pub provider: String,
    /// The repository, as an address or as owner and name.
    pub repo_url: Option<String>,
}

/// Whether the user may read a repository, and what is known of it.
#[derive(Debug)]
pub struct CheckOAuthResponse {
    pub success: bool,
    pub provider: String,
    pub name: Option<String>,
    pub full_name: Option<String>,
    pub default_branch: Option<String>,
    pub private: Option<bool>,
    pub has_read_access: bool,
    pub languages: Option<Vec<String>>,
    pub code: Option<String>,
    pub error: Option<String>,
}

/// Which repository of which provider the branches are asked of.
#[derive(Debug)]
pub struct BranchesQuery {
    pub provider: String,
    pub repo: String,
}

/// What is sent to ask for the branches of a repository by its address.
#[derive(Debug)]
pub struct FetchBranchesRequest {
    pub repo_url: Option<String>,
}

/// A branch, and whether it is the default one.
#[derive(Debug)]
pub struct BranchInfo {
    pub name: String,
    pub is_default: bool,
}

/// The branches of a repository, and which of them is the default one.
#[derive(Debug)]
pub struct BranchesResponseData {
    pub branches: Vec<String>,
    pub default_branch: Option<String>,
}

/// What is answered to a request for the branches of a repository.
#[derive(Debug)]
pub struct BranchesResponse {
    pub success: bool,
    pub data: BranchesResponseData,
}

/// What is answered to a request for the branches of a repository by its address.
#[derive(Debug)]
pub struct FetchBranchesResponse {
    pub branches: Vec<String>,
    pub default_branch: String,
    pub provider: String,
    pub repo_info: RepoInfo,
}

/// The owner and the name of a repository.
#[derive(Debug)]
pub struct RepoInfo {
    pub owner: String,
    pub repo: String,
}

/// The repositories of a list.
#[derive(Debug)]
pub struct RepositoryListData {
    pub repositories: Vec<RepositoryItem>,
}

/// What is answered to a request for the repositories of the user.
#[derive(Debug)]
pub struct RepositoryListResponse {
    pub success: bool,
    pub data: RepositoryListData,
}

/// What is told of a repository in a list.
#[derive(Debug)]
pub struct RepositoryItem {
    pub id: i64,
    pub name: String,
    pub full_name: String,
    pub private: bool,
    pub description: Option<String>,
    pub default_branch: String,
    pub html_url: String,
    pub provider: String,
}

/// An address without the slashes at its end, and without the `.git` that then ends it.
pub open spec fn cleaned(url: Seq<char>) -> Seq<char> {
    trim_end_text(trim_end(url, '/'), ".git"@)
}

/// The owner and the name of the repository that an address or a pair of owner and name
/// stands for. Of an address on one of the hosts of repositories they are the last two
/// segments; of anything else that holds a slash they are what stands before the first
/// slash and what follows it.
pub open spec fn repo_of(url: Seq<char>) -> Option<(Seq<char>, Seq<char>)> {
    let clean = cleaned(url);
    if !clean.contains('/') {
        None
    } else if on_known_host(clean) {
        Some((after_last(before_last(clean, '/'), '/'), after_last(clean, '/')))
    } else {
        Some((clean.take(first_cut(clean, '/') as int), clean.skip(first_cut(clean, '/') as int + 1)))
    }
}

/// The owner and the name of the repository that `url` stands for.
pub fn extract_repo_from_url(url: &str) -> (r: Option<(String, String)>)
    ensures
        match r {
            Some((owner, repo)) => repo_of(url@) == Some((owner@, repo@)),
            None => repo_of(url@) is None,
        },
{
    let trimmed = text_trim_end(url, '/');
    let clean = text_trim_end_text(trimmed.as_str(), ".git");
    if is_on_known_host(clean.as_str()) {
        match two_segments(clean.as_str()) {
            Some(pair) => {
                return Some(pair);
            },
            None => {},
        }
    }
    text_split_first(clean.as_str(), '/')
}

/// The repository that a request asks about, as owner and name with a slash between.
pub open spec fn oauth_target(user: Option<u128>, repo_url: Option<String>, missing: Seq<char>) -> Result<
    (Seq<char>, Seq<char>),
    Failure,
> {
    if user is None {
        Err(unauthorized())
    } else if repo_url is None {
        Err(bad_request(missing))
    } else {
        match repo_of(repo_url->0@) {
            Some(pair) => Ok(pair),
            None => Err(bad_request("Invalid repository URL format"@)),
        }
    }
}

/// The owner and the name of the repository that a request asks about. `missing` is
/// what is said where the request names no repository.
pub fn target(user: Option<u128>, repo_url: &Option<String>, missing: &str) -> (r: Result<
    (String, String),
    AppError,
>)
    ensures
        match r {
            Ok((owner, repo)) => oauth_target(user, *repo_url, missing@) == Ok::<
                (Seq<char>, Seq<char>),
                Failure,
            >((owner@, repo@)),
            Err(e) => oauth_target(user, *repo_url, missing@) == Err::<
                (Seq<char>, Seq<char>),
                Failure,
            >(e@),
        },
{
    match authorized(user) {
        Ok(_) => {},
        Err(e) => {
            return Err(e);
        },
    }
    let url = match repo_url {
        Some(url) => url,
        None => {
            return Err(AppError::BadRequest(String::from_str(missing)));
        },
    };
    match extract_repo_from_url(url.as_str()) {
        Some(pair) => Ok(pair),
        None => Err(AppError::BadRequest(String::from_str("Invalid repository URL format"))),
    }
}

/// The repository that a check of access asks about, as owner and name.
pub fn check_oauth_target(user: Option<u128>, body: &CheckOAuthRequest) -> (r: Result<
    (String, String),
    AppError,
>)
    ensures
        match r {
            Ok((owner, repo)) => oauth_target(
                user,
                body.repo_url,
                "Missing repository or repo_url field"@,
            ) == Ok::<(Seq<char>, Seq<char>), Failure>((owner@, repo@)),
            Err(e) => oauth_target(user, body.repo_url, "Missing repository or repo_url field"@)
                == Err::<(Seq<char>, Seq<char>), Failure>(e@),
        },
{
    target(user, &body.repo_url, "Missing repository or repo_url field")
}

/// Whether the provider is one whose repositories can be asked about: only the host is.
pub fn supported_provider(provider: &str) -> (r: Result<(), AppError>)
    ensures
        provider@ == "github"@ ==> r is Ok,
        provider@ != "github"@ ==> r is Err && r->Err_0@ == bad_request(
            "Unsupported provider: "@ + provider@,
        ),
{
    if provider.eq("github") {
        Ok(())
    } else {
        Err(AppError::BadRequest(String::from_str("Unsupported provider: ").concat(provider)))
    }
}

/// The names of some languages, in their order.
pub fn language_names(languages: &RepoLanguages) -> (r: Vec<String>)
    ensures
        r.len() == languages.0.len(),
        forall|i: int| 0 <= i < r.len() ==> (#[trigger] r@[i])@ == languages.0@[i].0@,
{
    let mut names: Vec<String> = Vec::new();
    let mut i: usize = 0;
    while i < languages.0.len()
        invariant
            i <= languages.0.len(),
            names.len() == i,
            forall|j: int| 0 <= j < i ==> (#[trigger] names@[j])@ == languages.0@[j].0@,
        decreases languages.0.len() - i,
    {
        names.push(languages.0[i].0.clone());
        i += 1;
    }
    names
}

/// The answer to a check of access, from what the host has said of the repository and of
/// its languages. A repository that the host does not show is answered as one to which
/// access is denied, with the words of the failure. A provider other than the host is a
/// malformed request.
pub fn check_oauth(
    provider: &str,
    repository: Result<Repository, AppError>,
    languages: Option<RepoLanguages>,
) -> (r: Result<CheckOAuthResponse, AppError>)
    ensures
        provider@ != "github"@ ==> r is Err && r->Err_0@ == bad_request(
            "Unsupported provider: "@ + provider@,
        ),
        provider@ == "github"@ ==> r is Ok && r->Ok_0.provider@ == provider@ && match repository {
            Ok(repo) => {
                let answer = r->Ok_0;
                &&& answer.success
                &&& answer.has_read_access
                &&& answer.name.deep_view() == Some(repo.name@)
                &&& answer.full_name.deep_view() == Some(repo.full_name@)
                &&& answer.default_branch.deep_view() == Some(repo.default_branch@)
                &&& answer.private == Some(repo.private)
                &&& answer.languages is Some == languages is Some
                &&& answer.languages matches Some(names) ==> {
                    let listed = languages->Some_0;
                    &&& names.len() == listed.0.len()
                    &&& forall|i: int|
                        0 <= i < names.len() ==> (#[trigger] names@[i])@ == listed.0@[i].0@
                }
                &&& answer.code is None
                &&& answer.error is None
            },
            Err(e) => {
                let answer = r->Ok_0;
                &&& !answer.success
                &&& !answer.has_read_access
                &&& answer.name is None
                &&& answer.full_name is None
                &&& answer.default_branch is None
                &&& answer.private is None
                &&& answer.languages is None
                &&& answer.code.deep_view() == Some("ACCESS_DENIED"@)
                &&& answer.error.deep_view() == Some(e@.text())
            },
        },
{
    match supported_provider(provider) {
        Ok(_) => {},
        Err(e) => {
            return Err(e);
        },
    }
    match repository {
        Ok(repo) => Ok(
            CheckOAuthResponse {
                success: true,
                provider: String::from_str(provider),
                name: Some(repo.name),
                full_name: Some(repo.full_name),
                default_branch: Some(repo.default_branch),
                private: Some(repo.private),
                has_read_access: true,
                languages: match &languages {
                    Some(list) => Some(language_names(list)),
                    None => None,
                },
                code: None,
                error: None,
            },
        ),
        Err(e) => Ok(
            CheckOAuthResponse {
                success: false,
                provider: String::from_str(provider),
                name: None,
                full_name: None,
                default_branch: None,
                private: None,
                has_read_access: false,
                languages: None,
                code: Some(String::from_str("ACCESS_DENIED")),
                error: Some(e.to_text()),
            },
        ),
    }
}

/// The answer to a request for the branches of a repository, from what the host has said
/// of the repository and of its branches. A failure of the host is passed on, that about
/// the repository first. A provider other than the host is a malformed request.
pub fn get_branches_oauth(
    provider: &str,
    repository: Result<Repository, AppError>,
    branches: Result<Vec<Branch>, AppError>,
) -> (r: Result<BranchesResponse, AppError>)
    ensures
        provider@ != "github"@ ==> r is Err && r->Err_0@ == bad_request(
            "Unsupported provider: "@ + provider@,
        ),
        provider@ == "github"@ ==> match (repository, branches) {
            (Err(e), _) => r is Err && r->Err_0@ == e@,
            (Ok(_), Err(e)) => r is Err && r->Err_0@ == e@,
            (Ok(repo), Ok(list)) => {
                &&& r is Ok
                &&& r->Ok_0.success
                &&& r->Ok_0.data.default_branch.deep_view() == Some(repo.default_branch@)
                &&& r->Ok_0.data.branches.len() == list.len()
                &&& forall|i: int|
                    0 <= i < list.len() ==> (#[trigger] r->Ok_0.data.branches@[i])@
                        == list@[i].name@
            },
        },
{
    match supported_provider(provider) {
        Ok(_) => {},
        Err(e) => {
            return Err(e);
        },
    }
    let repo = match repository {
        Ok(repo) => repo,
        Err(e) => {
            return Err(e);
        },
    };
    let list = match branches {
        Ok(list) => list,
        Err(e) => {
            return Err(e);
        },
    };
    Ok(
        BranchesResponse {
            success: true,
            data: BranchesResponseData {
                branches: branch_names(&list),
                default_branch: Some(repo.default_branch),
            },
        },
    )
}

/// The provider that an address belongs to; the host where it names none.
pub open spec fn provider_of(url: Seq<char>) -> Seq<char> {
    if occurs_in("github.com"@, url) {
        "github"@
    } else if occurs_in("gitlab.com"@, url) {
        "gitlab"@
    } else if occurs_in("bitbucket"@, url) {
        "bitbucket"@
    } else {
        "github"@
    }
}

/// The provider that an address belongs to.
pub fn provider_for(url: &str) -> (r: &'static str)
    ensures
        r@ == provider_of(url@),
{
    if text_contains(url, "github.com") {
        "github"
    } else if text_contains(url, "gitlab.com") {
        "gitlab"
    } else if text_contains(url, "bitbucket") {
        "bitbucket"
    } else {
        "github"
    }
}

/// The repository that a request for branches asks about, as owner and name.
pub fn fetch_branches_target(user: Option<u128>, body: &FetchBranchesRequest) -> (r: Result<
    (String, String),
    AppError,
>)
    ensures
        match r {
            Ok((owner, repo)) => oauth_target(user, body.repo_url, "Missing repoUrl field"@) == Ok::<
                (Seq<char>, Seq<char>),
                Failure,
            >((owner@, repo@)),
            Err(e) => oauth_target(user, body.repo_url, "Missing repoUrl field"@) == Err::<
                (Seq<char>, Seq<char>),
                Failure,
            >(e@),
        },
{
    target(user, &body.repo_url, "Missing repoUrl field")
}

/// The answer to a request for the branches of the repository at `repo_url`, from what
/// the host has said of the repository and of its branches. A failure of the host is
/// passed on, that about the repository first.
pub fn fetch_branches(
    repo_url: &str,
    owner: String,
    repo: String,
    repository: Result<Repository, AppError>,
    branches: Result<Vec<Branch>, AppError>,
) -> (r: Result<FetchBranchesResponse, AppError>)
    ensures
        match (repository, branches) {
            (Err(e), _) => r is Err && r->Err_0@ == e@,
            (Ok(_), Err(e)) => r is Err && r->Err_0@ == e@,
            (Ok(info), Ok(list)) => {
                &&& r is Ok
                &&& r->Ok_0.default_branch@ == info.default_branch@
                &&& r->Ok_0.provider@ == provider_of(repo_url@)
                &&& r->Ok_0.repo_info.owner@ == owner@
                &&& r->Ok_0.repo_info.repo@ == repo@
                &&& r->Ok_0.branches.len() == list.len()
                &&& forall|i: int|
                    0 <= i < list.len() ==> (#[trigger] r->Ok_0.branches@[i])@ == list@[i].name@
            },
        },
{
    let info = match repository {
        Ok(info) => info,
        Err(e) => {
            return Err(e);
        },
    };
    let list = match branches {
        Ok(list) => list,
        Err(e) => {
            return Err(e);
        },
    };
    Ok(
        FetchBranchesResponse {
            branches: branch_names(&list),
            default_branch: info.default_branch,
            provider: String::from_str(provider_for(repo_url)),
            repo_info: RepoInfo { owner, repo },
        },
    )
}

/// The repositories of the user, from what the host has listed; none where the host could
/// not be asked.
pub fn list_repositories(user: Option<u128>, listed: Option<Vec<Repository>>) -> (r: Result<
    RepositoryListResponse,
    AppError,
>)
    ensures
        user is None ==> r is Err && r->Err_0@ == unauthorized(),
        user is Some ==> {
            &&& r is Ok
            &&& r->Ok_0.success
            &&& match listed {
                Some(repos) => {
                    &&& r->Ok_0.data.repositories.len() == repos.len()
                    &&& forall|i: int|
                        0 <= i < repos.len() ==> {
                            let item = #[trigger] r->Ok_0.data.repositories@[i];
                            &&& item.id == repos@[i].id
                            &&& item.name@ == repos@[i].name@
                            &&& item.full_name@ == repos@[i].full_name@
                            &&& item.private == repos@[i].private
                            &&& item.description.deep_view() == repos@[i].description.deep_view()
                            &&& item.default_branch@ == repos@[i].default_branch@
                            &&& item.html_url@ == repos@[i].html_url@
                            &&& item.provider@ == "github"@
                        }
                },
                None => r->Ok_0.data.repositories.len() == 0,
            }
        },
{
    match authorized(user) {
        Ok(_) => {},
        Err(e) => {
            return Err(e);
        },
    }
    let mut items: Vec<RepositoryItem> = Vec::new();
    match &listed {
        Some(repos) => {
            let mut i: usize = 0;
            while i < repos.len()
                invariant
                    i <= repos.len(),
                    items.len() == i,
                    forall|j: int|
                        0 <= j < i ==> {
                            let item = #[trigger] items@[j];
                            &&& item.id == repos@[j].id
                            &&& item.name@ == repos@[j].name@
                            &&& item.full_name@ == repos@[j].full_name@
                            &&& item.private == repos@[j].private
                            &&& item.description.deep_view() == repos@[j].description.deep_view()
                            &&& item.default_branch@ == repos@[j].default_branch@
                            &&& item.html_url@ == repos@[j].html_url@
                            &&& item.provider@ == "github"@
                        },
                decreases repos.len() - i,
            {
                let repo = &repos[i];
                items.push(
                    RepositoryItem {
                        id: repo.id,
                        name: repo.name.clone(),
                        full_name: repo.full_name.clone(),
                        private: repo.private,
                        description: clone_text(&repo.description),
                        default_branch: repo.default_branch.clone(),
                        html_url: repo.html_url.clone(),
                        provider: String::from_str("github"),
                    },
                );
                i += 1;
            }
        },
        None => {},
    }
    Ok(RepositoryListResponse { success: true, data: RepositoryListData { repositories: items } })
}

} // verus!
