//! Where sources, documents and jobs are kept.
//!
//! The storage is a contract: the rest of the library asks nothing of a storage but what
//! the trait promises, so that the in-memory storage can give way to a lasting one. An
//! operation that fails leaves the storage as it was.

pub mod memory;
pub mod table;

use vstd::prelude::*;
use crate::clock::Timestamp;
use crate::domain::models::DataSource;
use crate::domain::models::DataSourceView;
use crate::domain::models::Document;
use crate::domain::models::DocumentView;
use crate::domain::models::GitHubInstallation;
use crate::domain::models::GitHubInstallationView;
use crate::domain::models::GitHubRepoConfig;
use crate::domain::models::GitHubRepoConfigView;
use crate::domain::models::SyncJob;
use crate::domain::models::SyncJobView;
use crate::domain::models::SyncStatus;
use crate::error::AppError;
use crate::ids::hyphenated;
use crate::text::lowercase;
use crate::text::occurs_in;
use crate::storage::table::found;
use crate::storage::table::lists;

verus! {

/// What a storage holds, as the contracts see it: each record under its key.
pub struct StorageState {
    pub sources: Map<u128, DataSourceView>,
    pub documents: Map<u128, DocumentView>,
    pub jobs: Map<u128, SyncJobView>,
    pub installations: Map<i64, GitHubInstallationView>,
    pub repo_configs: Map<u128, GitHubRepoConfigView>,
}

/// A source after its status was set to `status` at `at`.
pub open spec fn source_with_status(
    before: DataSourceView,
    status: SyncStatus,
    at: Timestamp,
) -> DataSourceView {
    DataSourceView { status, updated_at: at, ..before }
}

/// A source after it was marked at `at` as last synced at `last_synced`.
pub open spec fn source_synced(
    before: DataSourceView,
    last_synced: Timestamp,
    at: Timestamp,
) -> DataSourceView {
    DataSourceView { last_synced_at: Some(last_synced), updated_at: at, ..before }
}

/// A job after its status was set to `status` at `at`, with `error` as its error. The
/// completion time is set when the new status is a terminal one, and only then.
pub open spec fn job_with_status(
    before: SyncJobView,
    status: SyncStatus,
    error: Option<Seq<char>>,
    at: Timestamp,
) -> SyncJobView {
    SyncJobView {
        status,
        error,
        completed_at: if status.terminal() {
            Some(at)
        } else {
            before.completed_at
        },
        ..before
    }
}

impl StorageState {
    /// The state after the status of the source `id` was set at `at`; the same state
    /// where there is no such source.
    pub open spec fn source_status_set(self, id: u128, status: SyncStatus, at: Timestamp) -> StorageState {
        if self.sources.dom().contains(id) {
            StorageState {
                sources: self.sources.insert(id, source_with_status(self.sources[id], status, at)),
                ..self
            }
        } else {
            self
        }
    }

    /// The state after the source `id` was marked at `at` as synced; the same state where
    /// there is no such source.
    pub open spec fn source_marked_synced(self, id: u128, last_synced: Timestamp, at: Timestamp) -> StorageState {
        if self.sources.dom().contains(id) {
            StorageState {
                sources: self.sources.insert(id, source_synced(self.sources[id], last_synced, at)),
                ..self
            }
        } else {
            self
        }
    }

    /// The state after the status of the job `id` was set at `at`; the same state where
    /// there is no such job.
    pub open spec fn job_status_set(
        self,
        id: u128,
        status: SyncStatus,
        error: Option<Seq<char>>,
        at: Timestamp,
    ) -> StorageState {
        if self.jobs.dom().contains(id) {
            StorageState {
                jobs: self.jobs.insert(id, job_with_status(self.jobs[id], status, error, at)),
                ..self
            }
        } else {
            self
        }
    }
}

/// Whether a document of the user `user_id` matches a search for `query`: the query occurs
/// in its name or in its content, whatever the case of any of them.
pub open spec fn matches_search(document: DocumentView, user_id: u128, query: Seq<char>) -> bool {
    document.user_id == user_id && (occurs_in(lowercase(query), lowercase(document.name))
        || occurs_in(lowercase(query), lowercase(document.content)))
}

/// A summary of the documents of a user.
#[derive(Debug)]
pub struct DocumentAnalytics {
    /// How many documents there are.
    pub total_documents: usize,
    /// The sizes of the documents, added up; the sum wraps around where it passes the
    /// largest number that it can hold.
    pub total_size_bytes: u64,
    /// How many documents there are of each content type, by its name.
    pub by_content_type: Vec<(String, usize)>,
    /// How many documents there are of each source, by its identity as text; the
    /// documents that belong to no source are counted under `direct_upload`.
    pub by_source: Vec<(String, usize)>,
}

/// A summary as the contracts see it.
pub struct DocumentAnalyticsView {
    pub total_documents: nat,
    pub total_size_bytes: u64,
    pub by_content_type: Seq<(Seq<char>, nat)>,
    pub by_source: Seq<(Seq<char>, nat)>,
}

impl View for DocumentAnalytics {
    type V = DocumentAnalyticsView;

    open spec fn view(&self) -> DocumentAnalyticsView {
        DocumentAnalyticsView {
            total_documents: self.total_documents as nat,
            total_size_bytes: self.total_size_bytes,
            by_content_type: Seq::new(
                self.by_content_type@.len(),
                |i: int| (self.by_content_type@[i].0@, self.by_content_type@[i].1 as nat),
            ),
            by_source: Seq::new(
                self.by_source@.len(),
                |i: int| (self.by_source@[i].0@, self.by_source@[i].1 as nat),
            ),
        }
    }
}

/// The counts with one more under `label`: the first count under that label is raised by
/// one, and where there is none a count of one is added at the end.
pub open spec fn bumped(counts: Seq<(Seq<char>, nat)>, label: Seq<char>) -> Seq<(Seq<char>, nat)>
    decreases counts.len(),
{
    if counts.len() == 0 {
        seq![(label, 1nat)]
    } else if counts[0].0 == label {
        counts.update(0, (label, counts[0].1 + 1))
    } else {
        seq![counts[0]] + bumped(counts.drop_first(), label)
    }
}

/// How often each label occurs among `labels`, in the order in which the labels first
/// occur.
pub open spec fn tally(labels: Seq<Seq<char>>) -> Seq<(Seq<char>, nat)>
    decreases labels.len(),
{
    if labels.len() == 0 {
        Seq::empty()
    } else {
        bumped(tally(labels.drop_last()), labels.last())
    }
}

/// The sizes of the documents, added up with wrap-around; a document of unknown size adds
/// nothing.
pub open spec fn total_size(documents: Seq<DocumentView>) -> u64
    decreases documents.len(),
{
    if documents.len() == 0 {
        0
    } else {
        let rest = total_size(documents.drop_last());
        match documents.last().file_size {
            Some(size) => ((rest + size) % 0x1_0000_0000_0000_0000) as u64,
            None => rest,
        }
    }
}

/// The label under which a document is counted by source.
pub open spec fn source_label(document: DocumentView) -> Seq<char> {
    match document.source_id {
        Some(id) => hyphenated(id),
        None => "direct_upload"@,
    }
}

/// The summary of some documents, taken in their order.
pub open spec fn summary(documents: Seq<DocumentView>) -> DocumentAnalyticsView {
    DocumentAnalyticsView {
        total_documents: documents.len(),
        total_size_bytes: total_size(documents),
        by_content_type: tally(documents.map_values(|d: DocumentView| d.content_type.name())),
        by_source: tally(documents.map_values(|d: DocumentView| source_label(d))),
    }
}

/// The completion time of a job is set when its status becomes a terminal one, and only
/// then: a job that is set to pending or running keeps the completion time that it had. So
/// a job that had none while it was pending or running has one exactly when it is
/// completed or failed.
pub proof fn lemma_completion_time(
    before: SyncJobView,
    status: SyncStatus,
    error: Option<Seq<char>>,
    at: Timestamp,
)
    ensures
        status.terminal() ==> job_with_status(before, status, error, at).completed_at == Some(at),
        !status.terminal() ==> job_with_status(before, status, error, at).completed_at
            == before.completed_at,
        before.completed_at is None ==> job_with_status(before, status, error, at).well_formed(),
        job_with_status(before, status, error, at).id == before.id,
        job_with_status(before, status, error, at).source_id == before.source_id,
{
}

/// Setting the status of a source, or marking it as synced, changes nothing else of it but
/// the time of its last change: its kind, its owner and its configuration stay.
pub proof fn lemma_source_keeps_its_kind(
    before: DataSourceView,
    status: SyncStatus,
    last_synced: Timestamp,
    at: Timestamp,
)
    ensures
        source_with_status(before, status, at) == (DataSourceView {
            status,
            updated_at: at,
            ..before
        }),
        source_with_status(before, status, at).connector_type == before.connector_type,
        source_with_status(before, status, at).user_id == before.user_id,
        source_with_status(before, status, at).config == before.config,
        source_synced(before, last_synced, at).connector_type == before.connector_type,
        source_synced(before, last_synced, at).status == before.status,
        source_synced(before, last_synced, at).user_id == before.user_id,
        source_synced(before, last_synced, at).config == before.config,
{
}

/// What the service asks of a storage.
pub trait Storage {
    /// What the storage holds.
    spec fn state(&self) -> StorageState;

    /// Whether the storage is one that never fails: each of its operations goes through.
    /// A storage stays what it is in this.
    spec fn reliable(&self) -> bool;

    /// Keeps the source under its identity, in the place of any source kept there before.
    fn save_source(&mut self, source: DataSource) -> (r: Result<DataSource, AppError>)
        ensures
            final(self).reliable() == old(self).reliable(),
            old(self).reliable() ==> r is Ok,
            match r {
                Ok(saved) => saved@ == source@ && final(self).state() == (StorageState {
                    sources: old(self).state().sources.insert(source.id, source@),
                    ..old(self).state()
                }),
                Err(_) => final(self).state() == old(self).state(),
            },
    ;

    /// The source kept under `id`.
    fn get_source(&self, id: u128) -> (r: Result<Option<DataSource>, AppError>)
        ensures
            self.reliable() ==> r is Ok,
            r matches Ok(source) ==> source.deep_view() == found(self.state().sources, id),
    ;

    /// The sources of a user.
    fn get_sources_by_user(&self, user_id: u128) -> (r: Result<Vec<DataSource>, AppError>)
        ensures
            self.reliable() ==> r is Ok,
            r matches Ok(sources) ==> lists(
                sources.deep_view(),
                self.state().sources,
                |s: DataSourceView| s.user_id == user_id,
            ),
    ;

    /// Sets the status of the source `id`, and notes when that was done. Nothing changes
    /// where there is no such source.
    fn update_source_status(&mut self, id: u128, status: SyncStatus) -> (r: Result<(), AppError>)
        ensures
            final(self).reliable() == old(self).reliable(),
            old(self).reliable() ==> r is Ok,
            match r {
                Ok(_) => exists|at: Timestamp|
                    final(self).state() == old(self).state().source_status_set(id, status, at),
                Err(_) => final(self).state() == old(self).state(),
            },
    ;

    /// Marks the source `id` as last synced at `last_synced`, and notes when that was done.
    /// Nothing changes where there is no such source.
    fn update_source_last_synced(&mut self, id: u128, last_synced: Timestamp) -> (r: Result<
        (),
        AppError,
    >)
        ensures
            final(self).reliable() == old(self).reliable(),
            old(self).reliable() ==> r is Ok,
            match r {
                Ok(_) => exists|at: Timestamp|
                    final(self).state() == old(self).state().source_marked_synced(
                        id,
                        last_synced,
                        at,
                    ),
                Err(_) => final(self).state() == old(self).state(),
            },
    ;

    /// Forgets the source `id`, and says whether there was one.
    fn delete_source(&mut self, id: u128) -> (r: Result<bool, AppError>)
        ensures
            final(self).reliable() == old(self).reliable(),
            old(self).reliable() ==> r is Ok,
            match r {
                Ok(was_there) => was_there == old(self).state().sources.dom().contains(id)
                    && final(self).state() == (StorageState {
                    sources: old(self).state().sources.remove(id),
                    ..old(self).state()
                }),
                Err(_) => final(self).state() == old(self).state(),
            },
    ;

    /// Keeps the document under its identity, in the place of any document kept there
    /// before.
    fn save_document(&mut self, document: Document) -> (r: Result<Document, AppError>)
        ensures
            final(self).reliable() == old(self).reliable(),
            old(self).reliable() ==> r is Ok,
            match r {
                Ok(saved) => saved@ == document@ && final(self).state() == (StorageState {
                    documents: old(self).state().documents.insert(document.id, document@),
                    ..old(self).state()
                }),
                Err(_) => final(self).state() == old(self).state(),
            },
    ;

    /// The document kept under `id`.
    fn get_document(&self, id: u128) -> (r: Result<Option<Document>, AppError>)
        ensures
            self.reliable() ==> r is Ok,
            r matches Ok(document) ==> document.deep_view() == found(self.state().documents, id),
    ;

    /// The documents of a user.
    fn get_documents_by_user(&self, user_id: u128) -> (r: Result<Vec<Document>, AppError>)
        ensures
            self.reliable() ==> r is Ok,
            r matches Ok(documents) ==> lists(
                documents.deep_view(),
                self.state().documents,
                |d: DocumentView| d.user_id == user_id,
            ),
    ;

    /// The documents of a user that match a search for `query`.
    fn search_documents(&self, user_id: u128, query: &str) -> (r: Result<Vec<Document>, AppError>)
        ensures
            self.reliable() ==> r is Ok,
            r matches Ok(documents) ==> lists(
                documents.deep_view(),
                self.state().documents,
                |d: DocumentView| matches_search(d, user_id, query@),
            ),
    ;

    /// A summary of the documents of a user: of those documents, taken in some order.
    fn get_document_analytics(&self, user_id: u128) -> (r: Result<DocumentAnalytics, AppError>)
        ensures
            self.reliable() ==> r is Ok,
            r matches Ok(analytics) ==> exists|documents: Seq<DocumentView>|
                {
                    &&& lists(
                        documents,
                        self.state().documents,
                        |d: DocumentView| d.user_id == user_id,
                    )
                    &&& analytics@ == #[trigger] summary(documents)
                },
    ;

    /// Forgets the document `id`, and says whether there was one.
    fn delete_document(&mut self, id: u128) -> (r: Result<bool, AppError>)
        ensures
            final(self).reliable() == old(self).reliable(),
            old(self).reliable() ==> r is Ok,
            match r {
                Ok(was_there) => was_there == old(self).state().documents.dom().contains(id)
                    && final(self).state() == (StorageState {
                    documents: old(self).state().documents.remove(id),
                    ..old(self).state()
                }),
                Err(_) => final(self).state() == old(self).state(),
            },
    ;

    /// Keeps the job under its identity, in the place of any job kept there before.
    fn save_sync_job(&mut self, job: SyncJob) -> (r: Result<SyncJob, AppError>)
        ensures
            final(self).reliable() == old(self).reliable(),
            old(self).reliable() ==> r is Ok,
            match r {
                Ok(saved) => saved@ == job@ && final(self).state() == (StorageState {
                    jobs: old(self).state().jobs.insert(job.id, job@),
                    ..old(self).state()
                }),
                Err(_) => final(self).state() == old(self).state(),
            },
    ;

    /// The job kept under `id`.
    fn get_sync_job(&self, id: u128) -> (r: Result<Option<SyncJob>, AppError>)
        ensures
            self.reliable() ==> r is Ok,
            r matches Ok(job) ==> job.deep_view() == found(self.state().jobs, id),
    ;

    /// Sets the status and the error of the job `id`; where the status is a terminal one,
    /// notes the time as the completion time of the job. Nothing changes where there is
    /// no such job.
    fn update_sync_job_status(&mut self, id: u128, status: SyncStatus, error: Option<String>) -> (r:
        Result<(), AppError>)
        ensures
            final(self).reliable() == old(self).reliable(),
            old(self).reliable() ==> r is Ok,
            match r {
                Ok(_) => exists|at: Timestamp|
                    final(self).state() == old(self).state().job_status_set(
                        id,
                        status,
                        error.deep_view(),
                        at,
                    ),
                Err(_) => final(self).state() == old(self).state(),
            },
    ;

    /// Keeps the installation under its number, in the place of any kept there before.
    fn save_github_installation(&mut self, installation: GitHubInstallation) -> (r: Result<
        GitHubInstallation,
        AppError,
    >)
        ensures
            final(self).reliable() == old(self).reliable(),
            old(self).reliable() ==> r is Ok,
            match r {
                Ok(saved) => saved@ == installation@ && final(self).state() == (StorageState {
                    installations: old(self).state().installations.insert(
                        installation.installation_id,
                        installation@,
                    ),
                    ..old(self).state()
                }),
                Err(_) => final(self).state() == old(self).state(),
            },
    ;

    /// The installations of a user.
    fn get_github_installations(&self, user_id: u128) -> (r: Result<
        Vec<GitHubInstallation>,
        AppError,
    >)
        ensures
            self.reliable() ==> r is Ok,
            r matches Ok(installations) ==> lists(
                installations.deep_view(),
                self.state().installations,
                |i: GitHubInstallationView| i.user_id == user_id,
            ),
    ;

    /// Keeps the repository configuration under its identity, in the place of any kept
    /// there before.
    fn save_github_repo_config(&mut self, config: GitHubRepoConfig) -> (r: Result<
        GitHubRepoConfig,
        AppError,
    >)
        ensures
            final(self).reliable() == old(self).reliable(),
            old(self).reliable() ==> r is Ok,
            match r {
                Ok(saved) => saved@ == config@ && final(self).state() == (StorageState {
                    repo_configs: old(self).state().repo_configs.insert(config.id, config@),
                    ..old(self).state()
                }),
                Err(_) => final(self).state() == old(self).state(),
            },
    ;

    /// The repository configurations of an installation.
    fn get_github_repo_configs(&self, installation_id: i64) -> (r: Result<
        Vec<GitHubRepoConfig>,
        AppError,
    >)
        ensures
            self.reliable() ==> r is Ok,
            r matches Ok(configs) ==> lists(
                configs.deep_view(),
                self.state().repo_configs,
                |c: GitHubRepoConfigView| c.installation_id == installation_id,
            ),
    ;

    /// The repository configuration kept under `id`.
    fn get_github_repo_config(&self, id: u128) -> (r: Result<Option<GitHubRepoConfig>, AppError>)
        ensures
            self.reliable() ==> r is Ok,
            r matches Ok(config) ==> config.deep_view() == found(self.state().repo_configs, id),
    ;
}

} // verus!
