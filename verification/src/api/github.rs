//! The older requests about repositories of the host, which carry their token with them,
//! and the request to sync a repository on the user's behalf.

use vstd::prelude::*;
use crate::api::authorized;
use crate::api::unauthorized;
use crate::clients::github_api::Branch;
use crate::clients::github_api::RepoLanguages;
use crate::clients::github_api::Repository;
use crate::domain::models::ConnectorType;
use crate::domain::models::DataSource;
use crate::domain::models::SyncJob;
use crate::domain::sync::SyncOrchestrator;
use crate::domain::sync::SyncRun;
use crate::error::AppError;
use crate::json::JsonModel;
use crate::json::JsonValue;
use crate::storage::Storage;
use crate::storage::StorageState;

verus! {

/// What is sent to ask whether a token may read a repository.
#[derive(Debug)]
pub struct ValidateAccessRequest {
    pub access_token: String,
    pub repository: String,
}

/// Whether the token may read the repository, and what the repository is.
#[derive(Debug)]
pub struct ValidateAccessResponse {
    pub valid: bool,
    pub repository: Option<RepositoryInfo>,
}

/// What is told of a repository.
#[derive(Debug)]
pub struct RepositoryInfo {
    pub name: String,
    pub full_name: String,
    pub private: bool,
    pub default_branch: String,
}

/// What is sent to sync a repository with a token of one's own.
#[derive(Debug)]
pub struct SyncRepositoryRequest {
    pub access_token: String,
    pub repository: String,
    pub branch: Option<String>,
}

/// What is answered when a sync has been asked for.
#[derive(Debug)]
pub struct SyncResponse {
    pub success: bool,
    pub job_id: Option<u128>,
    pub message: String,
}

/// What is sent to ask for the branches of a repository.
#[derive(Debug)]
pub struct BranchesRequest {
    pub access_token: String,
    pub repository: String,
}

/// The names of the branches of a repository.
#[derive(Debug)]
pub struct BranchesResponse {
    pub branches: Vec<String>,
}

/// What is sent to ask for the languages of a repository.
#[derive(Debug)]
pub struct LanguagesRequest {
    pub access_token: String,
    pub repository: String,
}

/// The languages of a repository, each with the number of bytes written in it.
#[derive(Debug)]
pub struct LanguagesResponse {
    pub languages: Vec<(String, u64)>,
}

/// What is sent to sync a repository on the user's behalf.
#[derive(Debug)]
pub struct SyncOAuthRequest {
    pub repository: String,
    pub branch: Option<String>,
}

/// What comes next when the host has said whether the token may read the repository.
#[derive(Debug)]
pub enum AccessVerdict {
    /// The token may read the repository; the host is to be asked what the repository is.
    AskRepository,
    /// The token may not read the repository, and this is the answer.
    Answer(ValidateAccessResponse),
}

/// Goes on from what the host has said about the token: a token that may read the
/// repository leads to the question what the repository is, one that may not is answered
/// at once, and a failure is passed on.
pub fn validate_access(access: Result<bool, AppError>) -> (r: Result<AccessVerdict, AppError>)
    ensures
        match access {
            Ok(true) => r matches Ok(AccessVerdict::AskRepository),
            Ok(false) => {
                &&& r matches Ok(AccessVerdict::Answer(answer))
                &&& !answer.valid
                &&& answer.repository is None
            },
            Err(e) => r is Err && r->Err_0@ == e@,
        },
{
    match access {
        Ok(true) => Ok(AccessVerdict::AskRepository),
        Ok(false) => Ok(AccessVerdict::Answer(ValidateAccessResponse { valid: false, repository: None })),
        Err(e) => Err(e),
    }
}

/// The answer for a token that may read the repository, once the host has said what the
/// repository is; a failure of the host is passed on.
pub fn access_validated(repository: Result<Repository, AppError>) -> (r: Result<
    ValidateAccessResponse,
    AppError,
>)
    ensures
        match repository {
            Ok(repo) => {
                &&& r is Ok
                &&& r->Ok_0.valid
                &&& r->Ok_0.repository matches Some(info)
                &&& info.name@ == repo.name@
                &&& info.full_name@ == repo.full_name@
                &&& info.private == repo.private
                &&& info.default_branch@ == repo.default_branch@
            },
            Err(e) => r is Err && r->Err_0@ == e@,
        },
{
    match repository {
        Ok(repo) => Ok(
            ValidateAccessResponse {
                valid: true,
                repository: Some(
                    RepositoryInfo {
                        name: repo.name,
                        full_name: repo.full_name,
                        private: repo.private,
                        default_branch: repo.default_branch,
                    },
                ),
            },
        ),
        Err(e) => Err(e),
    }
}

/// The branch that a request asks for: the one it names, or `main`.
pub open spec fn branch_or_main(branch: Option<String>) -> Seq<char> {
    match branch {
        Some(branch) => branch@,
        None => "main"@,
    }
}

/// The branch that a request asks for: the one it names, or `main`.
pub fn branch_of(branch: &Option<String>) -> (r: String)
    ensures
        r@ == branch_or_main(*branch),
{
    match branch {
        Some(branch) => branch.clone(),
        None => String::from_str("main"),
    }
}

/// The configuration of a source for a repository and a branch.
pub open spec fn repository_config(repository: Seq<char>, branch: Seq<char>) -> JsonModel {
    JsonModel::Object(
        seq![("repository"@, JsonModel::Text(repository)), ("branch"@, JsonModel::Text(branch))],
    )
}

/// The configuration of a source for a repository and a branch, with the token to read
/// it with.
pub open spec fn legacy_config(repository: Seq<char>, branch: Seq<char>, token: Seq<char>) -> JsonModel {
    JsonModel::Object(
        seq![
            ("repository"@, JsonModel::Text(repository)),
            ("branch"@, JsonModel::Text(branch)),
            ("access_token"@, JsonModel::Text(token)),
        ],
    )
}

/// Keeps a source of the host for the repository of the request, with the token of the
/// request in its configuration and under no user. No job is made, and nothing is synced:
/// the identity of the source is handed back in the place of a job.
///
/// A failure of the storage is passed on; the storage is then as it was.
pub fn sync_repository_legacy<S: Storage>(storage: &mut S, body: &SyncRepositoryRequest) -> (r: Result<
    SyncResponse,
    AppError,
>)
    ensures
        old(storage).reliable() ==> r is Ok,
        final(storage).reliable() == old(storage).reliable(),
        r is Err ==> final(storage).state() == old(storage).state(),
        r matches Ok(answer) ==> {
            &&& answer.success
            &&& answer.message@ == "Sync initiated (legacy mode)"@
            &&& answer.job_id matches Some(id)
            &&& final(storage).state() == (StorageState {
                sources: old(storage).state().sources.insert(
                    id,
                    DataSource::registered(
                        id,
                        final(storage).state().sources[id].created_at,
                        0,
                        body.repository@,
                        ConnectorType::GitHub,
                        legacy_config(
                            body.repository@,
                            branch_or_main(body.branch),
                            body.access_token@,
                        ),
                    ),
                ),
                ..old(storage).state()
            })
        },
{
    let mut members: Vec<(String, JsonValue)> = Vec::new();
    members.push((String::from_str("repository"), JsonValue::text(body.repository.as_str())));
    members.push((String::from_str("branch"), JsonValue::Text(branch_of(&body.branch))));
    members.push((String::from_str("access_token"), JsonValue::text(body.access_token.as_str())));
    assert(members.deep_view() =~= legacy_config(
        body.repository@,
        branch_or_main(body.branch),
        body.access_token@,
    )->Object_0);
    let source = DataSource::new(
        0,
        body.repository.clone(),
        ConnectorType::GitHub,
        JsonValue::record(members),
    );
    match storage.save_source(source) {
        Ok(saved) => Ok(
            SyncResponse {
                success: true,
                job_id: Some(saved.id),
                message: String::from_str("Sync initiated (legacy mode)"),
            },
        ),
        Err(e) => Err(e),
    }
}

/// The names of some branches, in their order.
pub fn branch_names(branches: &Vec<Branch>) -> (r: Vec<String>)
    ensures
        r.len() == branches.len(),
        forall|i: int| 0 <= i < branches.len() ==> (#[trigger] r@[i])@ == branches@[i].name@,
{
    let mut names: Vec<String> = Vec::new();
    let mut i: usize = 0;
    while i < branches.len()
        invariant
            i <= branches.len(),
            names.len() == i,
            forall|j: int| 0 <= j < i ==> (#[trigger] names@[j])@ == branches@[j].name@,
        decreases branches.len() - i,
    {
        names.push(branches[i].name.clone());
        i += 1;
    }
    names
}

/// The names of the branches that the host has listed; a failure of the host is passed on.
pub fn get_branches_legacy(branches: Result<Vec<Branch>, AppError>) -> (r: Result<
    BranchesResponse,
    AppError,
>)
    ensures
        match branches {
            Ok(list) => r is Ok && r->Ok_0.branches.len() == list.len() && forall|i: int|
                0 <= i < list.len() ==> (#[trigger] r->Ok_0.branches@[i])@ == list@[i].name@,
            Err(e) => r is Err && r->Err_0@ == e@,
        },
{
    match branches {
        Ok(list) => Ok(BranchesResponse { branches: branch_names(&list) }),
        Err(e) => Err(e),
    }
}

/// The languages that the host has listed; a failure of the host is passed on.
pub fn get_languages_legacy(languages: Result<RepoLanguages, AppError>) -> (r: Result<
    LanguagesResponse,
    AppError,
>)
    ensures
        match languages {
            Ok(list) => r is Ok && r->Ok_0.languages == list.0,
            Err(e) => r is Err && r->Err_0@ == e@,
        },
{
    match languages {
        Ok(list) => Ok(LanguagesResponse { languages: list.0 }),
        Err(e) => Err(e),
    }
}

/// Keeps a source of the host for the repository of the request and starts a sync of it.
///
/// A request that names no user is not authorized. A failure of the storage is passed
/// on; where the job cannot be kept, the source stays kept.
pub fn sync_oauth<S: Storage>(
    orchestrator: &SyncOrchestrator,
    storage: &mut S,
    user: Option<u128>,
    body: &SyncOAuthRequest,
) -> (r: Result<(SyncResponse, SyncRun), AppError>)
    ensures
        user is None ==> r is Err && r->Err_0@ == unauthorized() && final(storage).state() == old(
            storage,
        ).state(),
        user is Some && old(storage).reliable() ==> r is Ok,
        final(storage).reliable() == old(storage).reliable(),
        final(storage).state().documents == old(storage).state().documents,
        r matches Ok((answer, run)) ==> {
            &&& user is Some
            &&& answer.success
            &&& answer.message@ == "Sync started"@
            &&& answer.job_id == Some(run@.task.job_id)
            &&& run@.stage is Scheduled
            &&& run@.task.user_id == user->0
            &&& run@.task.source == DataSource::registered(
                run@.task.source.id,
                run@.task.source.created_at,
                user->0,
                body.repository@,
                ConnectorType::GitHub,
                repository_config(body.repository@, branch_or_main(body.branch)),
            )
            &&& final(storage).state().sources == old(storage).state().sources.insert(
                run@.task.source.id,
                run@.task.source,
            )
            &&& final(storage).state().jobs == old(storage).state().jobs.insert(
                run@.task.job_id,
                SyncJob::pending(
                    run@.task.job_id,
                    final(storage).state().jobs[run@.task.job_id].started_at,
                    run@.task.source.id,
                    user->0,
                ),
            )
        },
{
    let user_id = match authorized(user) {
        Ok(id) => id,
        Err(e) => {
            return Err(e);
        },
    };
    let mut members: Vec<(String, JsonValue)> = Vec::new();
    members.push((String::from_str("repository"), JsonValue::text(body.repository.as_str())));
    members.push((String::from_str("branch"), JsonValue::Text(branch_of(&body.branch))));
    assert(members.deep_view() =~= repository_config(
        body.repository@,
        branch_or_main(body.branch),
    )->Object_0);
    let source = DataSource::new(
        user_id,
        body.repository.clone(),
        ConnectorType::GitHub,
        JsonValue::record(members),
    );
    let saved = match storage.save_source(source) {
        Ok(saved) => saved,
        Err(e) => {
            return Err(e);
        },
    };
    match orchestrator.start_sync(storage, saved, user_id) {
        Ok((job, run)) => Ok(
            (
                SyncResponse {
                    success: true,
                    job_id: Some(job.id),
                    message: String::from_str("Sync started"),
                },
                run,
            ),
        ),
        Err(e) => Err(e),
    }
}

} // verus!
