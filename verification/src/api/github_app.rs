//! The GitHub App: installations, the repositories chosen under them, and their jobs.

use vstd::prelude::*;
use crate::api::authorized;
use crate::api::bad_request;
use crate::api::not_found;
use crate::api::unauthorized;
use crate::clients::http::join3;
use crate::clock::now;
use crate::clock::Timestamp;
use crate::domain::models::clone_text;
use crate::domain::models::GitHubInstallation;
use crate::domain::models::GitHubInstallationView;
use crate::domain::models::GitHubRepoConfig;
use crate::domain::models::GitHubRepoConfigView;
use crate::domain::models::SyncJob;
use crate::domain::models::SyncJobView;
use crate::domain::models::SyncStatus;
use crate::error::AppError;
use crate::storage::table::found;
use crate::storage::table::lists;
use crate::storage::Storage;
use crate::storage::StorageState;

verus! {

/// Where the GitHub App is installed from.
#[derive(Debug)]
pub struct InstallUrlResponse {
    pub url: String,
}

/// What GitHub sends back after an installation.
#[derive(Debug)]
pub struct CallbackQuery {
    pub installation_id: Option<i64>,
    pub setup_action: Option<String>,
}

/// What is told of an installation.
#[derive(Debug)]
pub struct InstallationInfo {
    pub installation_id: i64,
    pub account_login: String,
    pub account_type: String,
    pub created_at: String,
}

/// What is told of an installation as the contracts see it.
pub struct InstallationInfoView {
    pub installation_id: i64,
    pub account_login: Seq<char>,
    pub account_type: Seq<char>,
    pub created_at: Seq<char>,
}

impl View for InstallationInfo {
    type V = InstallationInfoView;

    open spec fn view(&self) -> InstallationInfoView {
        InstallationInfoView {
            installation_id: self.installation_id,
            account_login: self.account_login@,
            account_type: self.account_type@,
            created_at: self.created_at@,
        }
    }
}

impl DeepView for InstallationInfo {
    type V = InstallationInfoView;

    open spec fn deep_view(&self) -> InstallationInfoView {
        self@
    }
}

/// The installations of a user.
#[derive(Debug)]
pub struct InstallationsResponse {
    pub installations: Vec<InstallationInfo>,
}

/// What is told of a repository of an installation.
#[derive(Debug)]
pub struct RepoInfo {
    pub id: i64,
    pub name: String,
    pub full_name: String,
    pub private: bool,
}

/// The repositories of an installation.
#[derive(Debug)]
pub struct ReposResponse {
    pub repositories: Vec<RepoInfo>,
}

/// The repositories that are chosen for syncing.
#[derive(Debug)]
pub struct ConfigureReposRequest {
    pub repositories: Vec<ConfigureRepoItem>,
}

/// A repository that is chosen for syncing, with the branch to sync.
#[derive(Debug)]
pub struct ConfigureRepoItem {
    pub full_name: String,
    pub branch: Option<String>,
}

/// What is answered when repositories have been chosen.
#[derive(Debug)]
pub struct ConfigureReposResponse {
    pub configured: usize,
    pub repo_configs: Vec<RepoConfigInfo>,
}

/// What is told of a chosen repository.
#[derive(Debug)]
pub struct RepoConfigInfo {
    pub id: u128,
    pub repo_full_name: String,
    pub branch: Option<String>,
    pub sync_enabled: bool,
}

/// What is told of a chosen repository as the contracts see it.
pub struct RepoConfigInfoView {
    pub id: u128,
    pub repo_full_name: Seq<char>,
    pub branch: Option<Seq<char>>,
    pub sync_enabled: bool,
}

impl View for RepoConfigInfo {
    type V = RepoConfigInfoView;

    open spec fn view(&self) -> RepoConfigInfoView {
        RepoConfigInfoView {
            id: self.id,
            repo_full_name: self.repo_full_name@,
            branch: self.branch.deep_view(),
            sync_enabled: self.sync_enabled,
        }
    }
}

impl DeepView for RepoConfigInfo {
    type V = RepoConfigInfoView;

    open spec fn deep_view(&self) -> RepoConfigInfoView {
        self@
    }
}

/// What is answered when the sync of a chosen repository has been asked for.
#[derive(Debug)]
pub struct SyncRepoResponse {
    pub job_id: u128,
    pub status: String,
    pub message: String,
}

/// What is told of a job.
#[derive(Debug)]
pub struct JobInfo {
    pub id: u128,
    pub source_id: u128,
    pub status: String,
    pub items_processed: usize,
    pub items_total: Option<usize>,
    pub error: Option<String>,
    pub started_at: String,
    pub completed_at: Option<String>,
}

/// What is told of a job as the contracts see it.
pub struct JobInfoView {
    pub id: u128,
    pub source_id: u128,
    pub status: Seq<char>,
    pub items_processed: usize,
    pub items_total: Option<usize>,
    pub error: Option<Seq<char>>,
    pub started_at: Seq<char>,
    pub completed_at: Option<Seq<char>>,
}

impl View for JobInfo {
    type V = JobInfoView;

    open spec fn view(&self) -> JobInfoView {
        JobInfoView {
            id: self.id,
            source_id: self.source_id,
            status: self.status@,
            items_processed: self.items_processed,
            items_total: self.items_total,
            error: self.error.deep_view(),
            started_at: self.started_at@,
            completed_at: self.completed_at.deep_view(),
        }
    }
}

/// What is answered when a job has been set going.
#[derive(Debug)]
pub struct ExecuteJobResponse {
    pub job_id: u128,
    pub status: String,
    pub message: String,
}

/// What is answered when an installation has been recorded.
#[derive(Debug)]
pub struct CallbackResponse {
    pub success: bool,
    pub installation_id: i64,
    pub message: String,
}

/// The name under which the GitHub App is known where none is configured.
pub open spec fn default_app_name() -> Seq<char> {
    "conhub-data-connector"@
}

/// Where the GitHub App is installed from: under the configured name, or the usual one.
pub fn get_install_url(app_name: Option<String>) -> (r: InstallUrlResponse)
    ensures
        r.url@ == "https://github.com/apps/"@ + match app_name {
            Some(name) => name@,
            None => default_app_name(),
        } + "/installations/new"@,
{
    let name = match app_name {
        Some(name) => name,
        None => String::from_str("conhub-data-connector"),
    };
    InstallUrlResponse { url: join3("https://github.com/apps/", name.as_str(), "/installations/new") }
}

/// The record of an installation that has just been made: of whom it is, is not known
/// yet.
pub open spec fn installed(installation_id: i64, user_id: u128, at: Timestamp) -> GitHubInstallationView {
    GitHubInstallationView {
        installation_id,
        user_id,
        account_login: "pending"@,
        account_type: "User"@,
        created_at: at,
    }
}

/// Records the installation that GitHub reports for the user.
///
/// A request that names no user is not authorized, and one that names no installation is
/// malformed; neither changes the storage. A failure of the storage is passed on.
pub fn callback<S: Storage>(storage: &mut S, user: Option<u128>, query: &CallbackQuery) -> (r: Result<
    CallbackResponse,
    AppError,
>)
    ensures
        user is None ==> r is Err && r->Err_0@ == unauthorized(),
        user is Some && query.installation_id is None ==> r is Err && r->Err_0@ == bad_request(
            "Missing installation_id"@,
        ),
        user is Some && query.installation_id is Some && old(storage).reliable() ==> r is Ok,
        final(storage).reliable() == old(storage).reliable(),
        r is Err ==> final(storage).state() == old(storage).state(),
        r matches Ok(answer) ==> {
            &&& user is Some
            &&& query.installation_id == Some(answer.installation_id)
            &&& answer.success
            &&& answer.message@ == "GitHub App installed successfully"@
            &&& final(storage).state() == (StorageState {
                installations: old(storage).state().installations.insert(
                    answer.installation_id,
                    installed(
                        answer.installation_id,
                        user->0,
                        final(storage).state().installations[answer.installation_id].created_at,
                    ),
                ),
                ..old(storage).state()
            })
        },
{
    let user_id = match authorized(user) {
        Ok(id) => id,
        Err(e) => {
            return Err(e);
        },
    };
    let installation_id = match query.installation_id {
        Some(id) => id,
        None => {
            return Err(AppError::BadRequest(String::from_str("Missing installation_id")));
        },
    };
    let installation = GitHubInstallation {
        installation_id,
        user_id,
        account_login: String::from_str("pending"),
        account_type: String::from_str("User"),
        created_at: now(),
    };
    match storage.save_github_installation(installation) {
        Ok(_) => Ok(
            CallbackResponse {
                success: true,
                installation_id,
                message: String::from_str("GitHub App installed successfully"),
            },
        ),
        Err(e) => Err(e),
    }
}

/// What is told of an installation.
pub open spec fn installation_info(installation: GitHubInstallationView) -> InstallationInfoView {
    InstallationInfoView {
        installation_id: installation.installation_id,
        account_login: installation.account_login,
        account_type: installation.account_type,
        created_at: installation.created_at.text(),
    }
}

/// What is told of each of some installations, in their order.
pub open spec fn installation_infos(installations: Seq<GitHubInstallationView>) -> Seq<
    InstallationInfoView,
> {
    Seq::new(installations.len(), |i: int| installation_info(installations[i]))
}

/// The installations of the user.
///
/// A request that names no user is not authorized. A failure of the storage is passed on.
pub fn list_installations<S: Storage>(storage: &S, user: Option<u128>) -> (r: Result<
    InstallationsResponse,
    AppError,
>)
    ensures
        user is None ==> r is Err && r->Err_0@ == unauthorized(),
        user is Some && storage.reliable() ==> r is Ok,
        r matches Ok(answer) ==> user is Some && exists|installations: Seq<GitHubInstallationView>|
            {
                &&& lists(
                    installations,
                    storage.state().installations,
                    |i: GitHubInstallationView| i.user_id == user->0,
                )
                &&& answer.installations.deep_view() == #[trigger] installation_infos(installations)
            },
{
    let user_id = match authorized(user) {
        Ok(id) => id,
        Err(e) => {
            return Err(e);
        },
    };
    let installations = match storage.get_github_installations(user_id) {
        Ok(installations) => installations,
        Err(e) => {
            return Err(e);
        },
    };
    let mut items: Vec<InstallationInfo> = Vec::new();
    let mut i: usize = 0;
    while i < installations.len()
        invariant
            i <= installations.len(),
            items.len() == i,
            forall|j: int|
                0 <= j < i ==> (#[trigger] items@[j])@ == installation_info(installations@[j]@),
        decreases installations.len() - i,
    {
        let installation = &installations[i];
        items.push(
            InstallationInfo {
                installation_id: installation.installation_id,
                account_login: installation.account_login.clone(),
                account_type: installation.account_type.clone(),
                created_at: installation.created_at.to_rfc3339(),
            },
        );
        i += 1;
    }
    assert(items.deep_view() =~= installation_infos(installations.deep_view()));
    Ok(InstallationsResponse { installations: items })
}

/// The repositories of an installation: none are listed yet.
pub fn list_repos(user: Option<u128>, installation_id: i64) -> (r: Result<ReposResponse, AppError>)
    ensures
        match user {
            None => r is Err && r->Err_0@ == unauthorized(),
            Some(_) => r is Ok && r->Ok_0.repositories.len() == 0,
        },
{
    match authorized(user) {
        Ok(_) => {},
        Err(e) => {
            return Err(e);
        },
    }
    Ok(ReposResponse { repositories: Vec::new() })
}

/// What is told of a chosen repository.
pub open spec fn config_info(config: GitHubRepoConfigView) -> RepoConfigInfoView {
    RepoConfigInfoView {
        id: config.id,
        repo_full_name: config.repo_full_name,
        branch: config.branch,
        sync_enabled: config.sync_enabled,
    }
}

/// What is told of each of some chosen repositories, in their order.
pub open spec fn config_infos(configs: Seq<GitHubRepoConfigView>) -> Seq<RepoConfigInfoView> {
    Seq::new(configs.len(), |i: int| config_info(configs[i]))
}

/// What is told of a chosen repository.
pub fn repo_config_info(config: &GitHubRepoConfig) -> (r: RepoConfigInfo)
    ensures
        r@ == config_info(config@),
{
    RepoConfigInfo {
        id: config.id,
        repo_full_name: config.repo_full_name.clone(),
        branch: clone_text(&config.branch),
        sync_enabled: config.sync_enabled,
    }
}

/// Keeps a configuration for each repository of the request, under the installation and
/// for the user, and tells of each what was kept.
///
/// A request that names no user is not authorized. Where the storage fails, the failure
/// is passed on; the configurations before the one that failed stay.
pub fn configure_repos<S: Storage>(
    storage: &mut S,
    user: Option<u128>,
    installation_id: i64,
    body: &ConfigureReposRequest,
) -> (r: Result<ConfigureReposResponse, AppError>)
    ensures
        user is None ==> r is Err && r->Err_0@ == unauthorized() && final(storage).state() == old(
            storage,
        ).state(),
        user is Some && old(storage).reliable() ==> r is Ok,
        final(storage).reliable() == old(storage).reliable(),
        final(storage).state().sources == old(storage).state().sources,
        final(storage).state().jobs == old(storage).state().jobs,
        final(storage).state().documents == old(storage).state().documents,
        r matches Ok(answer) ==> {
            &&& answer.configured == body.repositories.len()
            &&& answer.repo_configs.len() == body.repositories.len()
            &&& forall|j: int|
                0 <= j < body.repositories.len() ==> {
                    let told = (#[trigger] answer.repo_configs@[j])@;
                    &&& told.repo_full_name == body.repositories@[j].full_name@
                    &&& told.branch == body.repositories@[j].branch.deep_view()
                    &&& told.sync_enabled
                    &&& final(storage).state().repo_configs.dom().contains(told.id)
                }
        },
{
    let user_id = match authorized(user) {
        Ok(id) => id,
        Err(e) => {
            return Err(e);
        },
    };
    let mut told: Vec<RepoConfigInfo> = Vec::new();
    let mut i: usize = 0;
    while i < body.repositories.len()
        invariant
            user is Some,
            i <= body.repositories.len(),
            told.len() == i,
            storage.reliable() == old(storage).reliable(),
            storage.state().sources == old(storage).state().sources,
            storage.state().jobs == old(storage).state().jobs,
            storage.state().documents == old(storage).state().documents,
            forall|j: int|
                0 <= j < i ==> {
                    let item = (#[trigger] told@[j])@;
                    &&& item.repo_full_name == body.repositories@[j].full_name@
                    &&& item.branch == body.repositories@[j].branch.deep_view()
                    &&& item.sync_enabled
                    &&& storage.state().repo_configs.dom().contains(item.id)
                },
        decreases body.repositories.len() - i,
    {
        let repo = &body.repositories[i];
        let mut config = GitHubRepoConfig::new(installation_id, user_id, repo.full_name.clone());
        config.branch = clone_text(&repo.branch);
        match storage.save_github_repo_config(config) {
            Ok(saved) => {
                told.push(repo_config_info(&saved));
            },
            Err(e) => {
                return Err(e);
            },
        }
        i += 1;
    }
    Ok(ConfigureReposResponse { configured: told.len(), repo_configs: told })
}

/// The repositories that are chosen under an installation.
///
/// A request that names no user is not authorized. A failure of the storage is passed on.
pub fn get_selected_repos<S: Storage>(storage: &S, user: Option<u128>, installation_id: i64) -> (r:
    Result<Vec<RepoConfigInfo>, AppError>)
    ensures
        user is None ==> r is Err && r->Err_0@ == unauthorized(),
        user is Some && storage.reliable() ==> r is Ok,
        r matches Ok(answer) ==> user is Some && exists|configs: Seq<GitHubRepoConfigView>|
            {
                &&& lists(
                    configs,
                    storage.state().repo_configs,
                    |c: GitHubRepoConfigView| c.installation_id == installation_id,
                )
                &&& answer.deep_view() == #[trigger] config_infos(configs)
            },
{
    match authorized(user) {
        Ok(_) => {},
        Err(e) => {
            return Err(e);
        },
    }
    let configs = match storage.get_github_repo_configs(installation_id) {
        Ok(configs) => configs,
        Err(e) => {
            return Err(e);
        },
    };
    let mut items: Vec<RepoConfigInfo> = Vec::new();
    let mut i: usize = 0;
    while i < configs.len()
        invariant
            i <= configs.len(),
            items.len() == i,
            forall|j: int| 0 <= j < i ==> (#[trigger] items@[j])@ == config_info(configs@[j]@),
        decreases configs.len() - i,
    {
        items.push(repo_config_info(&configs[i]));
        i += 1;
    }
    assert(items.deep_view() =~= config_infos(configs.deep_view()));
    Ok(items)
}

/// Makes a pending job for the chosen repository `repo_config_id` and keeps it. The job
/// is not carried out by this.
///
/// A request that names no user is not authorized, and a repository that is not chosen is
/// not found; neither changes the storage. A failure of the storage is passed on.
pub fn sync_repo<S: Storage>(storage: &mut S, user: Option<u128>, repo_config_id: u128) -> (r: Result<
    SyncRepoResponse,
    AppError,
>)
    ensures
        user is None ==> r is Err && r->Err_0@ == unauthorized(),
        user is Some && old(storage).reliable() && !old(storage).state().repo_configs.dom().contains(
            repo_config_id,
        ) ==> r is Err && r->Err_0@ == not_found("Repository config not found"@),
        user is Some && old(storage).reliable() && old(storage).state().repo_configs.dom().contains(
            repo_config_id,
        ) ==> r is Ok,
        final(storage).reliable() == old(storage).reliable(),
        r is Err ==> final(storage).state() == old(storage).state(),
        r matches Ok(answer) ==> {
            &&& user is Some
            &&& old(storage).state().repo_configs.dom().contains(repo_config_id)
            &&& answer.status@ == "pending"@
            &&& answer.message@ == "Sync initiated for "@ + old(storage).state().repo_configs[repo_config_id].repo_full_name
            &&& final(storage).state() == (StorageState {
                jobs: old(storage).state().jobs.insert(
                    answer.job_id,
                    SyncJob::pending(
                        answer.job_id,
                        final(storage).state().jobs[answer.job_id].started_at,
                        repo_config_id,
                        user->0,
                    ),
                ),
                ..old(storage).state()
            })
        },
{
    let user_id = match authorized(user) {
        Ok(id) => id,
        Err(e) => {
            return Err(e);
        },
    };
    let config = match storage.get_github_repo_config(repo_config_id) {
        Ok(Some(config)) => config,
        Ok(None) => {
            return Err(AppError::NotFound(String::from_str("Repository config not found")));
        },
        Err(e) => {
            return Err(e);
        },
    };
    let job = SyncJob::new(repo_config_id, user_id);
    match storage.save_sync_job(job) {
        Ok(saved) => Ok(
            SyncRepoResponse {
                job_id: saved.id,
                status: String::from_str("pending"),
                message: String::from_str("Sync initiated for ").concat(
                    config.repo_full_name.as_str(),
                ),
            },
        ),
        Err(e) => Err(e),
    }
}

/// What is told of a job.
pub open spec fn job_info(job: SyncJobView) -> JobInfoView {
    JobInfoView {
        id: job.id,
        source_id: job.source_id,
        status: job.status.name(),
        items_processed: job.items_processed,
        items_total: job.items_total,
        error: job.error,
        started_at: job.started_at.text(),
        completed_at: match job.completed_at {
            Some(at) => Some(at.text()),
            None => None,
        },
    }
}

/// What is known of the job `job_id`.
///
/// A request that names no user is not authorized, and a job that is not kept is not
/// found. A failure of the storage is passed on.
pub fn get_job<S: Storage>(storage: &S, user: Option<u128>, job_id: u128) -> (r: Result<
    JobInfo,
    AppError,
>)
    ensures
        user is None ==> r is Err && r->Err_0@ == unauthorized(),
        user is Some && storage.reliable() ==> match found(storage.state().jobs, job_id) {
            Some(job) => r is Ok && r->Ok_0@ == job_info(job),
            None => r is Err && r->Err_0@ == not_found("Job not found"@),
        },
        r matches Ok(answer) ==> user is Some && found(storage.state().jobs, job_id) is Some
            && answer@ == job_info(storage.state().jobs[job_id]),
{
    match authorized(user) {
        Ok(_) => {},
        Err(e) => {
            return Err(e);
        },
    }
    let job = match storage.get_sync_job(job_id) {
        Ok(Some(job)) => job,
        Ok(None) => {
            return Err(AppError::NotFound(String::from_str("Job not found")));
        },
        Err(e) => {
            return Err(e);
        },
    };
    Ok(
        JobInfo {
            id: job.id,
            source_id: job.source_id,
            status: String::from_str(job.status.label()),
            items_processed: job.items_processed,
            items_total: job.items_total,
            error: clone_text(&job.error),
            started_at: job.started_at.to_rfc3339(),
            completed_at: match job.completed_at {
                Some(at) => Some(at.to_rfc3339()),
                None => None,
            },
        },
    )
}

/// Marks the job `job_id` as running. The job is not carried out by this.
///
/// A request that names no user is not authorized. A failure of the storage is passed on.
pub fn execute_job<S: Storage>(storage: &mut S, user: Option<u128>, job_id: u128) -> (r: Result<
    ExecuteJobResponse,
    AppError,
>)
    ensures
        user is None ==> r is Err && r->Err_0@ == unauthorized(),
        user is Some && old(storage).reliable() ==> r is Ok,
        final(storage).reliable() == old(storage).reliable(),
        r is Err ==> final(storage).state() == old(storage).state(),
        r matches Ok(answer) ==> {
            &&& user is Some
            &&& answer.job_id == job_id
            &&& answer.status@ == "running"@
            &&& answer.message@ == "Job execution started"@
            &&& exists|at: Timestamp|
                final(storage).state() == #[trigger] old(storage).state().job_status_set(
                    job_id,
                    SyncStatus::Running,
                    None,
                    at,
                )
        },
{
    match authorized(user) {
        Ok(_) => {},
        Err(e) => {
            return Err(e);
        },
    }
    let ghost before = storage.state();
    match storage.update_sync_job_status(job_id, SyncStatus::Running, None) {
        Ok(_) => {
            proof {
                let at = choose|at: Timestamp|
                    storage.state() == before.job_status_set(
                        job_id,
                        SyncStatus::Running,
                        None::<String>.deep_view(),
                        at,
                    );
                assert(storage.state() == before.job_status_set(
                    job_id,
                    SyncStatus::Running,
                    None,
                    at,
                ));
            }
            Ok(
                ExecuteJobResponse {
                    job_id,
                    status: String::from_str("running"),
                    message: String::from_str("Job execution started"),
                },
            )
        },
        Err(e) => Err(e),
    }
}

} // verus!
