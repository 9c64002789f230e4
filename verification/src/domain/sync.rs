//! The orchestration of a sync: a job is made for a source and kept; then the job runs,
//! the connector of the source fetches its documents, the documents are handed on in one
//! batch, and the job and the source are marked with the outcome.
//!
//! The run does no input or output itself. It says what it needs next, is handed the
//! answer, and goes on from there. What it writes to the storage it writes itself.

use vstd::prelude::*;
use crate::clients::chunker::ChunkJobResponse;
use crate::clients::chunker::ChunkJobResponseView;
use crate::clients::AuthClient;
use crate::clients::ChunkerClient;
use crate::clients::GitHubApiClient;
use crate::clock::now;
use crate::clock::Timestamp;
use crate::domain::connectors::dispatch::served_by;
use crate::domain::connectors::dispatch::ConnectorManagerView;
use crate::domain::connectors::github::GitHubFetchView;
use crate::domain::connectors::dispatch::FetchView;
use crate::domain::connectors::session::out_of_turn;
use crate::domain::connectors::session::unexpected_reply;
use crate::domain::connectors::session::FetchReply;
use crate::domain::connectors::session::FetchReplyView;
use crate::domain::connectors::session::FetchRequest;
use crate::domain::connectors::session::FetchRequestView;
use crate::domain::connectors::session::FetchStep;
use crate::domain::connectors::session::FetchStepView;
use crate::domain::connectors::Connector;
use crate::domain::connectors::ConnectorManager;
use crate::domain::connectors::Fetch;
use crate::domain::models::ConnectorType;
use crate::domain::models::DataSource;
use crate::domain::models::DataSourceView;
use crate::domain::models::NormalizedDocument;
use crate::domain::models::NormalizedDocumentView;
use crate::domain::models::SourceKind;
use crate::domain::models::SyncJob;
use crate::domain::models::SyncStatus;
use crate::error::AppError;
use crate::error::Failure;
use crate::ids::random_form;
use crate::storage::Storage;
use crate::storage::StorageState;

verus! {

/// The coarse kind of the sources that a connector type stands for: repositories of
/// code, chats, and documents of every other sort.
pub open spec fn source_kind_of(connector_type: ConnectorType) -> SourceKind {
    match connector_type {
        ConnectorType::GitHub | ConnectorType::GitLab | ConnectorType::Bitbucket => SourceKind::CodeRepo,
        ConnectorType::Slack => SourceKind::Chat,
        _ => SourceKind::Document,
    }
}

/// What a run needs next.
#[derive(Debug)]
pub enum SyncRequest {
    /// What the connector needs.
    Fetch(FetchRequest),
    /// The documents of the run are to be handed to the chunking service, all in one call.
    Dispatch { source_id: u128, source_kind: SourceKind, documents: Vec<NormalizedDocument> },
}

/// A request of a run as the contracts see it.
pub enum SyncRequestView {
    Fetch(FetchRequestView),
    Dispatch { source_id: u128, source_kind: SourceKind, documents: Seq<NormalizedDocumentView> },
}

impl View for SyncRequest {
    type V = SyncRequestView;

    open spec fn view(&self) -> SyncRequestView {
        match self {
            SyncRequest::Fetch(request) => SyncRequestView::Fetch(request@),
            SyncRequest::Dispatch { source_id, source_kind, documents } => SyncRequestView::Dispatch {
                source_id: *source_id,
                source_kind: *source_kind,
                documents: documents.deep_view(),
            },
        }
    }
}

/// The answer to a request of a run.
#[derive(Debug)]
pub enum SyncReply {
    Fetch(FetchReply),
    /// What came of handing the documents on.
    Dispatched(Result<ChunkJobResponse, AppError>),
}

/// An answer as the contracts see it.
pub enum SyncReplyView {
    Fetch(FetchReplyView),
    Dispatched(Result<ChunkJobResponseView, Failure>),
}

impl View for SyncReply {
    type V = SyncReplyView;

    open spec fn view(&self) -> SyncReplyView {
        match self {
            SyncReply::Fetch(reply) => SyncReplyView::Fetch(reply@),
            SyncReply::Dispatched(r) => SyncReplyView::Dispatched(
                match r {
                    Ok(held) => Ok(held@),
                    Err(e) => Err(e@),
                },
            ),
        }
    }
}

/// Where a run stands after a step.
#[derive(Debug)]
pub enum SyncStep {
    /// The run needs this answered before it can go on.
    Ask(SyncRequest),
    /// The run is over: the job is completed, or it has failed with this failure.
    Finished(Result<(), AppError>),
}

/// A step of a run as the contracts see it.
pub enum SyncStepView {
    Ask(SyncRequestView),
    Finished(Result<(), Failure>),
}

impl View for SyncStep {
    type V = SyncStepView;

    open spec fn view(&self) -> SyncStepView {
        match self {
            SyncStep::Ask(request) => SyncStepView::Ask(request@),
            SyncStep::Finished(r) => SyncStepView::Finished(
                match r {
                    Ok(_) => Ok(()),
                    Err(e) => Err(e@),
                },
            ),
        }
    }
}

/// Where a run stands.
#[derive(Debug)]
pub enum SyncStage {
    /// The job is kept as pending; nothing has been asked for yet.
    Scheduled,
    /// The connector is fetching.
    Fetching(Fetch),
    /// The documents have been handed on, and the answer is awaited.
    Dispatching,
    /// The run is over.
    Finished,
}

/// A stage of a run as the contracts see it.
pub enum SyncStageView {
    Scheduled,
    Fetching(FetchView),
    Dispatching,
    Finished,
}

impl View for SyncStage {
    type V = SyncStageView;

    open spec fn view(&self) -> SyncStageView {
        match self {
            SyncStage::Scheduled => SyncStageView::Scheduled,
            SyncStage::Fetching(fetch) => SyncStageView::Fetching(fetch@),
            SyncStage::Dispatching => SyncStageView::Dispatching,
            SyncStage::Finished => SyncStageView::Finished,
        }
    }
}

/// The run of one job: the sync of one source for one user.
#[derive(Debug)]
pub struct SyncRun {
    pub source: DataSource,
    pub user_id: u128,
    pub job_id: u128,
    pub manager: ConnectorManager,
    pub stage: SyncStage,
}

/// What a run is about: the source, the user, and the job that it carries out, and the
/// manager that makes its connector.
pub struct SyncTask {
    pub source: DataSourceView,
    pub user_id: u128,
    pub job_id: u128,
    pub manager: ConnectorManagerView,
}

/// A run as the contracts see it.
pub struct SyncRunView {
    pub task: SyncTask,
    pub stage: SyncStageView,
}

impl View for SyncRun {
    type V = SyncRunView;

    open spec fn view(&self) -> SyncRunView {
        SyncRunView {
            task: SyncTask {
                source: self.source@,
                user_id: self.user_id,
                job_id: self.job_id,
                manager: self.manager@,
            },
            stage: self.stage@,
        }
    }
}

impl SyncRunView {
    /// What holds of every run that the library hands out.
    pub open spec fn well_formed(self) -> bool {
        self.stage matches SyncStageView::Fetching(fetch) ==> fetch.well_formed()
    }

    /// Whether the run `self` may begin, with the storage going from `before` to `after`,
    /// go on as `next` and say `out`. A run begins once: one that has begun fails. `sure`
    /// says that the storage is one that never fails.
    pub open spec fn begins(
        self,
        before: StorageState,
        next: SyncRunView,
        after: StorageState,
        out: SyncStepView,
        sure: bool,
    ) -> bool {
        if self.stage is Scheduled {
            self.task.begins(before, next, after, out, sure)
        } else {
            self.task.fails(before, out_of_turn(), next, after, out, sure)
        }
    }

    /// Whether the run `self`, handed `reply`, may go on as `next` and say `out`, with
    /// the storage going from `before` to `after`.
    ///
    /// While the connector fetches, its replies are handed to it and the run goes on from
    /// what it says. When the documents have been handed on, the run completes; where
    /// that has failed, the run fails with that failure. A reply that was not asked for
    /// fails the run.
    pub open spec fn step(
        self,
        before: StorageState,
        reply: SyncReplyView,
        next: SyncRunView,
        after: StorageState,
        out: SyncStepView,
        sure: bool,
    ) -> bool {
        match (self.stage, reply) {
            (SyncStageView::Fetching(fetch), SyncReplyView::Fetch(answer)) => {
                exists|moved: FetchView, said: FetchStepView|
                    {
                        &&& fetch.step(answer, moved, said)
                        &&& moved.well_formed()
                        &&& self.task.follows(before, moved, said, next, after, out, sure)
                    }
            },
            (SyncStageView::Dispatching, SyncReplyView::Dispatched(Ok(_))) => self.task.completes(
                before,
                next,
                after,
                out,
                sure,
            ),
            (SyncStageView::Dispatching, SyncReplyView::Dispatched(Err(e))) => self.task.fails(
                before,
                e,
                next,
                after,
                out,
                sure,
            ),
            _ => self.task.fails(before, out_of_turn(), next, after, out, sure),
        }
    }
}

impl SyncTask {
    /// The run of the task `self` at the stage `stage`.
    pub open spec fn at_stage(self, stage: SyncStageView) -> SyncRunView {
        SyncRunView { task: self, stage }
    }

    /// The storage has gone from `before` to `after` by marking the job and the source of
    /// the run as running.
    pub open spec fn marked_running(self, before: StorageState, after: StorageState) -> bool {
        exists|a: Timestamp, b: Timestamp|
            after == before.job_status_set(self.job_id, SyncStatus::Running, None, a).source_status_set(
                self.source.id,
                SyncStatus::Running,
                b,
            )
    }

    /// The storage has gone from `before` to `after` by marking the job of the run as
    /// running, and no further.
    pub open spec fn marked_job_running(self, before: StorageState, after: StorageState) -> bool {
        exists|a: Timestamp|
            after == before.job_status_set(self.job_id, SyncStatus::Running, None, a)
    }

    /// The storage has gone from `before` to `after` by marking the job of the run as
    /// completed, and no further.
    pub open spec fn marked_job_completed(self, before: StorageState, after: StorageState) -> bool {
        exists|a: Timestamp|
            after == before.job_status_set(self.job_id, SyncStatus::Completed, None, a)
    }

    /// The storage has gone from `before` to `after` by marking the job and the source of
    /// the run as completed, and no further.
    pub open spec fn marked_both_completed(self, before: StorageState, after: StorageState) -> bool {
        exists|a: Timestamp, b: Timestamp|
            after == before.job_status_set(self.job_id, SyncStatus::Completed, None, a).source_status_set(
                self.source.id,
                SyncStatus::Completed,
                b,
            )
    }

    /// The storage has gone from `before` to `after` by marking the job and the source of
    /// the run as completed, and the source as synced just then.
    pub open spec fn marked_completed(self, before: StorageState, after: StorageState) -> bool {
        exists|a: Timestamp, b: Timestamp, c: Timestamp, d: Timestamp|
            after == before.job_status_set(self.job_id, SyncStatus::Completed, None, a).source_status_set(
                self.source.id,
                SyncStatus::Completed,
                b,
            ).source_marked_synced(self.source.id, c, d)
    }

    /// The storage has gone from `before` to `after` by an attempt to mark the job of the
    /// run as failed with the text of `e` as its error: the attempt went through, or it
    /// did not and nothing has changed. With a storage that is `sure` never to fail, the
    /// attempt went through.
    pub open spec fn marked_failed(
        self,
        before: StorageState,
        after: StorageState,
        e: Failure,
        sure: bool,
    ) -> bool {
        ||| !sure && after == before
        ||| exists|a: Timestamp|
            after == before.job_status_set(self.job_id, SyncStatus::Failed, Some(e.text()), a)
    }

    /// The run has failed with `e`: it is finished, it says so, and it has tried to mark
    /// its job as failed.
    pub open spec fn fails(
        self,
        before: StorageState,
        e: Failure,
        next: SyncRunView,
        after: StorageState,
        out: SyncStepView,
        sure: bool,
    ) -> bool {
        &&& next == self.at_stage(SyncStageView::Finished)
        &&& out == SyncStepView::Finished(Err(e))
        &&& self.marked_failed(before, after, e, sure)
    }

    /// The run has come to its end with the documents in hand or handed on: it is
    /// finished. Either the job and the source are marked as completed and the run says
    /// so, or the storage has failed on the way with `e` and the run has failed with it;
    /// a storage that is `sure` never to fail leaves the first only.
    pub open spec fn completes(
        self,
        before: StorageState,
        next: SyncRunView,
        after: StorageState,
        out: SyncStepView,
        sure: bool,
    ) -> bool {
        ||| {
            &&& next == self.at_stage(SyncStageView::Finished)
            &&& out == SyncStepView::Finished(Ok(()))
            &&& self.marked_completed(before, after)
        }
        ||| !sure && exists|e: Failure, mid: StorageState|
            {
                &&& mid == before || self.marked_job_completed(before, mid)
                    || self.marked_both_completed(before, mid)
                &&& self.fails(mid, e, next, after, out, sure)
            }
    }

    /// The run goes on from what the connector says: it asks what the connector asks,
    /// fails where the connector has failed, hands the documents on where there are
    /// any, and completes where there are none.
    pub open spec fn follows(
        self,
        before: StorageState,
        fetch: FetchView,
        said: FetchStepView,
        next: SyncRunView,
        after: StorageState,
        out: SyncStepView,
        sure: bool,
    ) -> bool {
        match said {
            FetchStepView::Ask(request) => {
                &&& next == self.at_stage(SyncStageView::Fetching(fetch))
                &&& out == SyncStepView::Ask(SyncRequestView::Fetch(request))
                &&& after == before
            },
            FetchStepView::Failed(e) => self.fails(before, e, next, after, out, sure),
            FetchStepView::Done { documents, skipped, failed } => if documents.len() > 0 {
                &&& next == self.at_stage(SyncStageView::Dispatching)
                &&& out == SyncStepView::Ask(
                    SyncRequestView::Dispatch {
                        source_id: self.source.id,
                        source_kind: source_kind_of(self.source.connector_type),
                        documents,
                    },
                )
                &&& after == before
            } else {
                self.completes(before, next, after, out, sure)
            },
        }
    }

    /// Whether the run of the task `self` may begin, with the storage going from `before` to
    /// `after`, go on as `next` and say `out`.
    ///
    /// The job and the source are marked as running; then the connector for the kind of
    /// the source begins its fetch, and the run goes on from what it says. Where the
    /// storage fails, the run fails with that failure.
    pub open spec fn begins(
        self,
        before: StorageState,
        next: SyncRunView,
        after: StorageState,
        out: SyncStepView,
        sure: bool,
    ) -> bool {
        ||| exists|mid: StorageState, fetch: FetchView, said: FetchStepView|
            {
                &&& self.marked_running(before, mid)
                &&& Connector::begins(
                    served_by(self.source.connector_type),
                    self.source,
                    self.user_id,
                    fetch,
                    said,
                )
                &&& fetch.well_formed()
                &&& self.follows(mid, fetch, said, next, after, out, sure)
            }
        ||| !sure && exists|e: Failure, mid: StorageState|
            {
                &&& mid == before || self.marked_job_running(before, mid)
                &&& self.fails(mid, e, next, after, out, sure)
            }
    }
}

/// The orchestrator of syncs.
#[derive(Debug)]
pub struct SyncOrchestrator {
    pub auth_client: AuthClient,
    pub chunker_client: ChunkerClient,
    pub github_client: GitHubApiClient,
}

impl SyncOrchestrator {
    pub fn new(auth_client: AuthClient, chunker_client: ChunkerClient, github_client: GitHubApiClient) -> (r:
        Self)
        ensures
            r.auth_client@ == auth_client@,
            r.chunker_client.base_url@ == chunker_client.base_url@,
            r.github_client == github_client,
    {
        SyncOrchestrator { auth_client, chunker_client, github_client }
    }

    /// The coarse kind of the sources of a connector type.
    pub fn source_kind(connector_type: ConnectorType) -> (r: SourceKind)
        ensures
            r == source_kind_of(connector_type),
    {
        match connector_type {
            ConnectorType::GitHub | ConnectorType::GitLab | ConnectorType::Bitbucket => SourceKind::CodeRepo,
            ConnectorType::Slack => SourceKind::Chat,
            ConnectorType::Notion | ConnectorType::Confluence | ConnectorType::UrlScraper => SourceKind::Document,
            ConnectorType::GoogleDrive | ConnectorType::Dropbox | ConnectorType::LocalFile => SourceKind::Document,
        }
    }

    /// The request that hands the documents of a source to the chunking service, all in
    /// one batch.
    pub fn send_to_chunker(source: &DataSource, documents: Vec<NormalizedDocument>) -> (r: SyncRequest)
        ensures
            r@ == (SyncRequestView::Dispatch {
                source_id: source@.id,
                source_kind: source_kind_of(source@.connector_type),
                documents: documents.deep_view(),
            }),
    {
        SyncRequest::Dispatch {
            source_id: source.id,
            source_kind: Self::source_kind(source.connector_type),
            documents,
        }
    }

    /// Starts a sync of the source for the user: makes a pending job, keeps it, and hands
    /// it back together with the run that is to be carried out apart from the caller.
    /// Nothing has been asked of any service when this returns. It fails only where the
    /// job cannot be kept, and then nothing is kept.
    pub fn start_sync<S: Storage>(&self, storage: &mut S, source: DataSource, user_id: u128) -> (r:
        Result<(SyncJob, SyncRun), AppError>)
        ensures
            match r {
                Ok((job, run)) => {
                    &&& job@ == SyncJob::pending(job.id, job.started_at, source@.id, user_id)
                    &&& job@.status == SyncStatus::Pending
                    &&& random_form(job.id)
                    &&& final(storage).state() == (StorageState {
                        jobs: old(storage).state().jobs.insert(job.id, job@),
                        ..old(storage).state()
                    })
                    &&& run@ == (SyncRunView {
                        task: SyncTask {
                            source: source@,
                            user_id,
                            job_id: job.id,
                            manager: ConnectorManagerView {
                                auth_client: self.auth_client@,
                                github_client: self.github_client,
                            },
                        },
                        stage: SyncStageView::Scheduled,
                    })
                },
                Err(_) => final(storage).state() == old(storage).state(),
            },
            final(storage).reliable() == old(storage).reliable(),
            old(storage).reliable() ==> r is Ok,
    {
        let job = SyncJob::new(source.id, user_id);
        match storage.save_sync_job(job) {
            Ok(saved) => {
                let manager = ConnectorManager::new(self.auth_client.clone(), self.github_client);
                let run = SyncRun {
                    source,
                    user_id,
                    job_id: saved.id,
                    manager,
                    stage: SyncStage::Scheduled,
                };
                Ok((saved, run))
            },
            Err(e) => Err(e),
        }
    }
}

/// Sets the status of a job, and names the moment that the storage has noted.
fn set_job<S: Storage>(storage: &mut S, id: u128, status: SyncStatus, error: Option<String>) -> (r: (
    Result<(), AppError>,
    Ghost<Timestamp>,
))
    ensures
        final(storage).reliable() == old(storage).reliable(),
        old(storage).reliable() ==> r.0 is Ok,
        match r.0 {
            Ok(_) => final(storage).state() == old(storage).state().job_status_set(
                id,
                status,
                error.deep_view(),
                r.1@,
            ),
            Err(_) => final(storage).state() == old(storage).state(),
        },
{
    let ghost before = storage.state();
    let ghost error_view = error.deep_view();
    let r = storage.update_sync_job_status(id, status, error);
    let ghost at = choose|at: Timestamp|
        storage.state() == before.job_status_set(id, status, error_view, at);
    (r, Ghost(at))
}

/// Sets the status of a source, and names the moment that the storage has noted.
fn set_source<S: Storage>(storage: &mut S, id: u128, status: SyncStatus) -> (r: (
    Result<(), AppError>,
    Ghost<Timestamp>,
))
    ensures
        final(storage).reliable() == old(storage).reliable(),
        old(storage).reliable() ==> r.0 is Ok,
        match r.0 {
            Ok(_) => final(storage).state() == old(storage).state().source_status_set(
                id,
                status,
                r.1@,
            ),
            Err(_) => final(storage).state() == old(storage).state(),
        },
{
    let ghost before = storage.state();
    let r = storage.update_source_status(id, status);
    let ghost at = choose|at: Timestamp| storage.state() == before.source_status_set(id, status, at);
    (r, Ghost(at))
}

/// Marks a source as synced, and names the moment that the storage has noted.
fn set_synced<S: Storage>(storage: &mut S, id: u128, last_synced: Timestamp) -> (r: (
    Result<(), AppError>,
    Ghost<Timestamp>,
))
    ensures
        final(storage).reliable() == old(storage).reliable(),
        old(storage).reliable() ==> r.0 is Ok,
        match r.0 {
            Ok(_) => final(storage).state() == old(storage).state().source_marked_synced(
                id,
                last_synced,
                r.1@,
            ),
            Err(_) => final(storage).state() == old(storage).state(),
        },
{
    let ghost before = storage.state();
    let r = storage.update_source_last_synced(id, last_synced);
    let ghost at = choose|at: Timestamp|
        storage.state() == before.source_marked_synced(id, last_synced, at);
    (r, Ghost(at))
}

impl SyncRun {
    /// Ends the run with the failure `e`: tries to mark the job as failed with the text
    /// of `e`, and whether that goes through or not, says that the run has failed.
    fn fail<S: Storage>(self, storage: &mut S, e: AppError) -> (r: (SyncRun, SyncStep))
        ensures
            self@.task.fails(
                old(storage).state(),
                e@,
                r.0@,
                final(storage).state(),
                r.1@,
                old(storage).reliable(),
            ),
            final(storage).reliable() == old(storage).reliable(),
            r.0@.well_formed(),
    {
        let ghost before = storage.state();
        let text = e.to_text();
        let (written, at) = set_job(storage, self.job_id, SyncStatus::Failed, Some(text));
        proof {
            if written is Ok {
                assert(storage.state() == before.job_status_set(
                    self@.task.job_id,
                    SyncStatus::Failed,
                    Some(e@.text()),
                    at@,
                ));
            }
            assert(self@.task.marked_failed(before, storage.state(), e@, old(storage).reliable()));
        }
        let SyncRun { source, user_id, job_id, manager, stage } = self;
        let next = SyncRun { source, user_id, job_id, manager, stage: SyncStage::Finished };
        (next, SyncStep::Finished(Err(e)))
    }

    /// Ends the run well: marks the job and the source as completed and the source as
    /// synced now. Where the storage fails on the way, the run fails with that failure.
    fn complete<S: Storage>(self, storage: &mut S) -> (r: (SyncRun, SyncStep))
        ensures
            self@.task.completes(
                old(storage).state(),
                r.0@,
                final(storage).state(),
                r.1@,
                old(storage).reliable(),
            ),
            final(storage).reliable() == old(storage).reliable(),
            r.0@.well_formed(),
    {
        let ghost before = storage.state();
        let (written, a) = set_job(storage, self.job_id, SyncStatus::Completed, None);
        match written {
            Ok(_) => {},
            Err(e) => {
                let ghost view = e@;
                let r = self.fail(storage, e);
                assert(self@.task.fails(before, view, r.0@, storage.state(), r.1@, false));
                return r;
            },
        }
        let ghost first = storage.state();
        assert(first == before.job_status_set(self@.task.job_id, SyncStatus::Completed, None, a@));
        assert(self@.task.marked_job_completed(before, first));
        let (written, b) = set_source(storage, self.source.id, SyncStatus::Completed);
        match written {
            Ok(_) => {},
            Err(e) => {
                let ghost view = e@;
                let r = self.fail(storage, e);
                assert(self@.task.fails(first, view, r.0@, storage.state(), r.1@, false));
                return r;
            },
        }
        let ghost second = storage.state();
        assert(second == before.job_status_set(
            self@.task.job_id,
            SyncStatus::Completed,
            None,
            a@,
        ).source_status_set(self@.task.source.id, SyncStatus::Completed, b@));
        assert(self@.task.marked_both_completed(before, second));
        let c = now();
        let (written, d) = set_synced(storage, self.source.id, c);
        match written {
            Ok(_) => {},
            Err(e) => {
                let ghost view = e@;
                let r = self.fail(storage, e);
                assert(self@.task.fails(second, view, r.0@, storage.state(), r.1@, false));
                return r;
            },
        }
        assert(storage.state() == before.job_status_set(
            self@.task.job_id,
            SyncStatus::Completed,
            None,
            a@,
        ).source_status_set(self@.task.source.id, SyncStatus::Completed, b@).source_marked_synced(
            self@.task.source.id,
            c,
            d@,
        ));
        assert(self@.task.marked_completed(before, storage.state()));
        let SyncRun { source, user_id, job_id, manager, stage } = self;
        let next = SyncRun { source, user_id, job_id, manager, stage: SyncStage::Finished };
        (next, SyncStep::Finished(Ok(())))
    }

    /// Goes on from what the connector has said.
    fn follow<S: Storage>(self, storage: &mut S, fetch: Fetch, said: FetchStep) -> (r: (
        SyncRun,
        SyncStep,
    ))
        requires
            fetch@.well_formed(),
        ensures
            self@.task.follows(
                old(storage).state(),
                fetch@,
                said@,
                r.0@,
                final(storage).state(),
                r.1@,
                old(storage).reliable(),
            ),
            final(storage).reliable() == old(storage).reliable(),
            r.0@.well_formed(),
    {
        match said {
            FetchStep::Ask(request) => {
                let SyncRun { source, user_id, job_id, manager, stage } = self;
                let next = SyncRun {
                    source,
                    user_id,
                    job_id,
                    manager,
                    stage: SyncStage::Fetching(fetch),
                };
                (next, SyncStep::Ask(SyncRequest::Fetch(request)))
            },
            FetchStep::Failed(e) => self.fail(storage, e),
            FetchStep::Done { documents, skipped, failed } => {
                if documents.len() > 0 {
                    let request = SyncOrchestrator::send_to_chunker(&self.source, documents);
                    let SyncRun { source, user_id, job_id, manager, stage } = self;
                    let next = SyncRun {
                        source,
                        user_id,
                        job_id,
                        manager,
                        stage: SyncStage::Dispatching,
                    };
                    (next, SyncStep::Ask(request))
                } else {
                    self.complete(storage)
                }
            },
        }
    }

    /// Begins the run: marks the job and the source as running, and lets the connector
    /// for the kind of the source begin its fetch.
    pub fn begin<S: Storage>(self, storage: &mut S) -> (r: (SyncRun, SyncStep))
        ensures
            self@.begins(
                old(storage).state(),
                r.0@,
                final(storage).state(),
                r.1@,
                old(storage).reliable(),
            ),
            final(storage).reliable() == old(storage).reliable(),
            r.0@.well_formed(),
    {
        let ghost before = storage.state();
        match &self.stage {
            SyncStage::Scheduled => {},
            _ => {
                return self.fail(storage, unexpected_reply());
            },
        }
        let (written, a) = set_job(storage, self.job_id, SyncStatus::Running, None);
        match written {
            Ok(_) => {},
            Err(e) => {
                let ghost view = e@;
                let r = self.fail(storage, e);
                assert(self@.task.fails(before, view, r.0@, storage.state(), r.1@, false));
                return r;
            },
        }
        let ghost first = storage.state();
        assert(first == before.job_status_set(self@.task.job_id, SyncStatus::Running, None, a@));
        assert(self@.task.marked_job_running(before, first));
        let (written, b) = set_source(storage, self.source.id, SyncStatus::Running);
        match written {
            Ok(_) => {},
            Err(e) => {
                let ghost view = e@;
                let r = self.fail(storage, e);
                assert(self@.task.fails(first, view, r.0@, storage.state(), r.1@, false));
                return r;
            },
        }
        let ghost mid = storage.state();
        assert(mid == before.job_status_set(
            self@.task.job_id,
            SyncStatus::Running,
            None,
            a@,
        ).source_status_set(self@.task.source.id, SyncStatus::Running, b@));
        assert(self@.task.marked_running(before, mid));
        let connector = self.manager.get_connector(self.source.connector_type);
        let (fetch, said) = connector.fetch_content(&self.source, self.user_id);
        let ghost fetch_view = fetch@;
        let ghost said_view = said@;
        let r = self.follow(storage, fetch, said);
        assert(self@.task.follows(
            mid,
            fetch_view,
            said_view,
            r.0@,
            storage.state(),
            r.1@,
            old(storage).reliable(),
        ));
        r
    }

    /// Hands the run the answer to what it asked for last, and says what comes next.
    pub fn advance<S: Storage>(self, storage: &mut S, reply: SyncReply) -> (r: (SyncRun, SyncStep))
        ensures
            self@.step(
                old(storage).state(),
                reply@,
                r.0@,
                final(storage).state(),
                r.1@,
                old(storage).reliable(),
            ),
            final(storage).reliable() == old(storage).reliable(),
            r.0@.well_formed(),
    {
        let ghost before = storage.state();
        let ghost whole = self@;
        let SyncRun { source, user_id, job_id, manager, stage } = self;
        match (stage, reply) {
            (SyncStage::Fetching(fetch), SyncReply::Fetch(answer)) => {
                let ghost fetch_view = fetch@;
                let ghost answer_view = answer@;
                let (moved, said) = fetch.advance(answer);
                let ghost moved_view = moved@;
                let ghost said_view = said@;
                let run = SyncRun { source, user_id, job_id, manager, stage: SyncStage::Finished };
                let r = run.follow(storage, moved, said);
                assert(fetch_view.step(answer_view, moved_view, said_view) && moved_view.well_formed()
                    && whole.task.follows(
                    before,
                    moved_view,
                    said_view,
                    r.0@,
                    storage.state(),
                    r.1@,
                    old(storage).reliable(),
                ));
                r
            },
            (SyncStage::Dispatching, SyncReply::Dispatched(Ok(_))) => {
                let run = SyncRun { source, user_id, job_id, manager, stage: SyncStage::Finished };
                run.complete(storage)
            },
            (SyncStage::Dispatching, SyncReply::Dispatched(Err(e))) => {
                let run = SyncRun { source, user_id, job_id, manager, stage: SyncStage::Finished };
                run.fail(storage, e)
            },
            _ => {
                let run = SyncRun { source, user_id, job_id, manager, stage: SyncStage::Finished };
                run.fail(storage, unexpected_reply())
            },
        }
    }
}

/// Where the tree of the repository cannot be had, the run fails with that failure, and
/// the job is marked as failed with the text of the failure as its error, unless that
/// write fails too; with a storage that never fails it does not. The source is left as
/// it is.
pub proof fn lemma_tree_failure_fails_the_job(
    run: SyncRunView,
    fetch: GitHubFetchView,
    e: Failure,
    before: StorageState,
    next: SyncRunView,
    after: StorageState,
    out: SyncStepView,
    sure: bool,
)
    requires
        run.stage == SyncStageView::Fetching(FetchView::GitHub(fetch)),
        fetch.stage is AwaitingTree,
        before.jobs.dom().contains(run.task.job_id),
        run.step(
            before,
            SyncReplyView::Fetch(FetchReplyView::Tree(Err(e))),
            next,
            after,
            out,
            sure,
        ),
    ensures
        out == SyncStepView::Finished(Err(e)),
        next.stage is Finished,
        after.sources == before.sources,
        sure || after != before ==> {
            let job = after.jobs[run.task.job_id];
            &&& after.jobs.dom().contains(run.task.job_id)
            &&& job.status == SyncStatus::Failed
            &&& job.error == Some(e.text())
            &&& job.completed_at is Some
        },
{
    let (moved, said) = choose|moved: FetchView, said: FetchStepView|
        {
            &&& FetchView::GitHub(fetch).step(FetchReplyView::Tree(Err(e)), moved, said)
            &&& moved.well_formed()
            &&& run.task.follows(before, moved, said, next, after, out, sure)
        };
    assert(said == FetchStepView::Failed(e));
    lemma_failed_job(run.task, before, e, next, after, out, sure);
}

/// A run that has failed has said so and is finished. The storage is as it was but for
/// the job, which is marked as failed with the text of the failure as its error, unless
/// that write has failed too; with a storage that never fails it has not.
pub proof fn lemma_failed_job(
    task: SyncTask,
    before: StorageState,
    e: Failure,
    next: SyncRunView,
    after: StorageState,
    out: SyncStepView,
    sure: bool,
)
    requires
        task.fails(before, e, next, after, out, sure),
        before.jobs.dom().contains(task.job_id),
    ensures
        next.stage is Finished,
        out == SyncStepView::Finished(Err(e)),
        after.sources == before.sources,
        after.documents == before.documents,
        after.jobs.dom() == before.jobs.dom(),
        sure || after != before ==> {
            let job = after.jobs[task.job_id];
            &&& job.status == SyncStatus::Failed
            &&& job.error == Some(e.text())
            &&& job.completed_at is Some
            &&& job.id == before.jobs[task.job_id].id
            &&& job.started_at == before.jobs[task.job_id].started_at
        },
{
    if sure || after != before {
        let a = choose|a: Timestamp|
            after == before.job_status_set(task.job_id, SyncStatus::Failed, Some(e.text()), a);
        assert(after.jobs.dom() =~= before.jobs.dom());
    }
}

/// A run that has completed with a storage that never fails has marked its job as
/// completed, without an error and with a completion time, and its source as completed
/// and as synced.
pub proof fn lemma_completed_job(
    task: SyncTask,
    before: StorageState,
    next: SyncRunView,
    after: StorageState,
    out: SyncStepView,
)
    requires
        task.completes(before, next, after, out, true),
        before.jobs.dom().contains(task.job_id),
        before.sources.dom().contains(task.source.id),
    ensures
        next.stage is Finished,
        out == SyncStepView::Finished(Ok(())),
        after.documents == before.documents,
        ({
            let job = after.jobs[task.job_id];
            &&& after.jobs.dom().contains(task.job_id)
            &&& job.status == SyncStatus::Completed
            &&& job.error is None
            &&& job.completed_at is Some
        }),
        ({
            let source = after.sources[task.source.id];
            &&& after.sources.dom().contains(task.source.id)
            &&& source.status == SyncStatus::Completed
            &&& source.last_synced_at is Some
            &&& source.connector_type == before.sources[task.source.id].connector_type
        }),
{
    let (a, b, c, d) = choose|a: Timestamp, b: Timestamp, c: Timestamp, d: Timestamp|
        after == before.job_status_set(task.job_id, SyncStatus::Completed, None, a).source_status_set(
            task.source.id,
            SyncStatus::Completed,
            b,
        ).source_marked_synced(task.source.id, c, d);
}

/// A run that has begun with a storage that never fails, and asks for something, has
/// marked its job and its source as running; the job has no completion time unless it had
/// one before.
pub proof fn lemma_begun_job_is_running(
    task: SyncTask,
    before: StorageState,
    next: SyncRunView,
    after: StorageState,
    out: SyncStepView,
)
    requires
        task.begins(before, next, after, out, true),
        out is Ask,
        before.jobs.dom().contains(task.job_id),
        before.sources.dom().contains(task.source.id),
    ensures
        after.jobs.dom().contains(task.job_id),
        after.jobs[task.job_id].status == SyncStatus::Running,
        after.jobs[task.job_id].completed_at == before.jobs[task.job_id].completed_at,
        after.sources.dom().contains(task.source.id),
        after.sources[task.source.id].status == SyncStatus::Running,
        after.sources[task.source.id].last_synced_at == before.sources[task.source.id].last_synced_at,
{
    let (mid, fetch, said) = choose|mid: StorageState, fetch: FetchView, said: FetchStepView|
        {
            &&& task.marked_running(before, mid)
            &&& Connector::begins(
                served_by(task.source.connector_type),
                task.source,
                task.user_id,
                fetch,
                said,
            )
            &&& fetch.well_formed()
            &&& task.follows(mid, fetch, said, next, after, out, true)
        };
    let (a, b) = choose|a: Timestamp, b: Timestamp|
        mid == before.job_status_set(task.job_id, SyncStatus::Running, None, a).source_status_set(
            task.source.id,
            SyncStatus::Running,
            b,
        );
    assert(after == mid);
}

} // verus!
