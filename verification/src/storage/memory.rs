//! A storage that keeps everything in memory.

use vstd::prelude::*;
use std::collections::HashMap;
use crate::clock::now;
use crate::clock::Timestamp;
use crate::domain::models::DataSource;
use crate::domain::models::DataSourceView;
use crate::domain::models::Document;
use crate::domain::models::DocumentView;
use crate::domain::models::GitHubInstallation;
use crate::domain::models::GitHubInstallationView;
use crate::domain::models::GitHubRepoConfig;
use crate::domain::models::GitHubRepoConfigView;
use crate::domain::models::SyncJob;
use crate::domain::models::SyncJobView;
use crate::domain::models::SyncStatus;
use crate::error::AppError;
use crate::ids::id_text;
use crate::storage::bumped;
use crate::storage::matches_search;
use crate::storage::source_label;
use crate::storage::summary;
use crate::storage::tally;
use crate::storage::total_size;
use crate::storage::DocumentAnalytics;
use crate::text::lowercase;
use crate::text::occurs_in;
use crate::text::text_contains;
use crate::text::to_lowercase;
use crate::storage::table::lemma_lists_same;
use crate::storage::table::models;
use crate::storage::table::Probe;
use crate::storage::table::Row;
use crate::storage::table::contents;
use crate::storage::table::copy_of;
use crate::storage::table::lemma_contents_empty;
use crate::storage::table::lemma_contents_insert;
use crate::storage::table::lemma_contents_remove;
use crate::storage::table::select;
use crate::storage::Storage;
use crate::storage::StorageState;

verus! {

impl Row for DataSource {
    type Model = DataSourceView;

    open spec fn model(&self) -> DataSourceView {
        self@
    }

    fn copy(&self) -> (r: Self) {
        self.clone()
    }
}

impl Row for Document {
    type Model = DocumentView;

    open spec fn model(&self) -> DocumentView {
        self@
    }

    fn copy(&self) -> (r: Self) {
        self.clone()
    }
}

impl Row for SyncJob {
    type Model = SyncJobView;

    open spec fn model(&self) -> SyncJobView {
        self@
    }

    fn copy(&self) -> (r: Self) {
        self.clone()
    }
}

impl Row for GitHubInstallation {
    type Model = GitHubInstallationView;

    open spec fn model(&self) -> GitHubInstallationView {
        self@
    }

    fn copy(&self) -> (r: Self) {
        self.clone()
    }
}

impl Row for GitHubRepoConfig {
    type Model = GitHubRepoConfigView;

    open spec fn model(&self) -> GitHubRepoConfigView {
        self@
    }

    fn copy(&self) -> (r: Self) {
        self.clone()
    }
}

/// The test that accepts the sources of one user.
pub struct SourcesOf(pub u128);

/// The test that accepts the documents of one user.
pub struct DocumentsOf(pub u128);

/// The test that accepts the installations of one user.
pub struct InstallationsOf(pub u128);

impl Probe<DataSource> for SourcesOf {
    open spec fn accepts(&self, model: DataSourceView) -> bool {
        model.user_id == self.0
    }

    fn test(&self, row: &DataSource) -> (r: bool) {
        row.user_id == self.0
    }
}

impl Probe<Document> for DocumentsOf {
    open spec fn accepts(&self, model: DocumentView) -> bool {
        model.user_id == self.0
    }

    fn test(&self, row: &Document) -> (r: bool) {
        row.user_id == self.0
    }
}

impl Probe<GitHubInstallation> for InstallationsOf {
    open spec fn accepts(&self, model: GitHubInstallationView) -> bool {
        model.user_id == self.0
    }

    fn test(&self, row: &GitHubInstallation) -> (r: bool) {
        row.user_id == self.0
    }
}

/// The test that accepts the documents of one user that match a search. It holds the
/// query in lower case.
pub struct Searched {
    pub user_id: u128,
    pub query: String,
}

impl Probe<Document> for Searched {
    open spec fn accepts(&self, model: DocumentView) -> bool {
        model.user_id == self.user_id && (occurs_in(self.query@, lowercase(model.name))
            || occurs_in(self.query@, lowercase(model.content)))
    }

    fn test(&self, row: &Document) -> (r: bool) {
        if row.user_id != self.user_id {
            return false;
        }
        let name = to_lowercase(row.name.as_str());
        if text_contains(name.as_str(), self.query.as_str()) {
            return true;
        }
        let content = to_lowercase(row.content.as_str());
        text_contains(content.as_str(), self.query.as_str())
    }
}

/// The view of some counts.
pub open spec fn counts_view(counts: Seq<(String, usize)>) -> Seq<(Seq<char>, nat)> {
    Seq::new(counts.len(), |i: int| (counts[i].0@, counts[i].1 as nat))
}

/// The sum of some counts.
pub open spec fn counted(counts: Seq<(Seq<char>, nat)>) -> nat
    decreases counts.len(),
{
    if counts.len() == 0 {
        0
    } else {
        counts[0].1 + counted(counts.drop_first())
    }
}

/// One more under a label is one more in all.
proof fn lemma_bumped_counts(counts: Seq<(Seq<char>, nat)>, label: Seq<char>)
    ensures
        counted(bumped(counts, label)) == counted(counts) + 1,
    decreases counts.len(),
{
    if counts.len() == 0 {
        let after = seq![(label, 1nat)];
        assert(after.drop_first() =~= Seq::empty());
        assert(counted(after.drop_first()) == 0);
        assert(after[0].1 == 1);
    } else if counts[0].0 == label {
        let after = counts.update(0, (label, counts[0].1 + 1));
        assert(after.drop_first() =~= counts.drop_first());
        assert(after[0].1 == counts[0].1 + 1);
    } else {
        lemma_bumped_counts(counts.drop_first(), label);
        let rest = bumped(counts.drop_first(), label);
        let after = seq![counts[0]] + rest;
        assert(after.drop_first() =~= rest);
        assert(after[0] == counts[0]);
    }
}

/// No single count is more than the sum of all.
proof fn lemma_count_bounded(counts: Seq<(Seq<char>, nat)>, at: int)
    requires
        0 <= at < counts.len(),
    ensures
        counts[at].1 <= counted(counts),
    decreases counts.len(),
{
    if at > 0 {
        lemma_count_bounded(counts.drop_first(), at - 1);
    }
}

/// Counts one more under `label`.
fn bump(counts: &mut Vec<(String, usize)>, label: String)
    requires
        counted(counts_view(old(counts)@)) < usize::MAX,
    ensures
        counts_view(final(counts)@) == bumped(counts_view(old(counts)@), label@),
{
    let ghost before = counts_view(counts@);
    let mut i: usize = 0;
    while i < counts.len()
        invariant
            i <= counts.len(),
            counts_view(counts@) == before,
            before == counts_view(old(counts)@),
            counted(before) < usize::MAX,
            forall|j: int| 0 <= j < i ==> before[j].0 != label@,
        decreases counts.len() - i,
    {
        assert(before[i as int] == (counts@[i as int].0@, counts@[i as int].1 as nat));
        if counts[i].0.as_str().eq(label.as_str()) {
            proof {
                lemma_count_bounded(before, i as int);
                lemma_bumped_at(before, label@, i as int);
            }
            let n = counts[i].1;
            counts[i] = (label, n + 1);
            assert(counts_view(counts@) =~= before.update(i as int, (label@, before[i as int].1 + 1)));
            return;
        }
        assert(before[i as int].0 == counts@[i as int].0@);
        i += 1;
    }
    proof {
        lemma_bumped_at(before, label@, counts.len() as int);
    }
    counts.push((label, 1));
    assert(counts_view(counts@) =~= before.push((label@, 1nat)));
}

/// Where the first count under the label stands at `at`, the bump raises it there; where
/// there is none, the bump adds a count of one at the end.
proof fn lemma_bumped_at(counts: Seq<(Seq<char>, nat)>, label: Seq<char>, at: int)
    requires
        0 <= at <= counts.len(),
        forall|j: int| 0 <= j < at ==> counts[j].0 != label,
        at < counts.len() ==> counts[at].0 == label,
    ensures
        at < counts.len() ==> bumped(counts, label) == counts.update(
            at,
            (label, counts[at].1 + 1),
        ),
        at == counts.len() ==> bumped(counts, label) == counts.push((label, 1nat)),
    decreases counts.len(),
{
    if counts.len() == 0 {
        assert(counts.push((label, 1nat)) =~= seq![(label, 1nat)]);
    } else if at == 0 {
    } else {
        let rest = counts.drop_first();
        lemma_bumped_at(rest, label, at - 1);
        if at < counts.len() {
            assert(seq![counts[0]] + rest.update(at - 1, (label, rest[at - 1].1 + 1))
                =~= counts.update(at, (label, counts[at].1 + 1)));
        } else {
            assert(seq![counts[0]] + rest.push((label, 1nat)) =~= counts.push((label, 1nat)));
        }
    }
}

/// As many labels have been counted as the counts add up to.
proof fn lemma_tally_counts(labels: Seq<Seq<char>>)
    ensures
        counted(tally(labels)) == labels.len(),
    decreases labels.len(),
{
    if labels.len() > 0 {
        lemma_tally_counts(labels.drop_last());
        lemma_bumped_counts(tally(labels.drop_last()), labels.last());
    }
}

/// The summary of some documents, taken in their order.
fn summarize(documents: &Vec<Document>) -> (r: DocumentAnalytics)
    ensures
        r@ == summary(documents.deep_view()),
{
    let mut total_size_bytes: u64 = 0;
    let mut by_content_type: Vec<(String, usize)> = Vec::new();
    let mut by_source: Vec<(String, usize)> = Vec::new();
    let ghost all = documents.deep_view();
    let ghost type_of = |d: DocumentView| d.content_type.name();
    let ghost source_of = |d: DocumentView| source_label(d);
    let mut i: usize = 0;
    assert(all.take(0) =~= Seq::empty());
    assert(all.take(0).map_values(type_of) =~= Seq::empty());
    assert(all.take(0).map_values(source_of) =~= Seq::empty());
    assert(counts_view(by_content_type@) =~= Seq::empty());
    assert(counts_view(by_source@) =~= Seq::empty());
    while i < documents.len()
        invariant
            i <= documents.len(),
            all == documents.deep_view(),
            type_of == |d: DocumentView| d.content_type.name(),
            source_of == |d: DocumentView| source_label(d),
            total_size_bytes == total_size(all.take(i as int)),
            counts_view(by_content_type@) == tally(all.take(i as int).map_values(type_of)),
            counts_view(by_source@) == tally(all.take(i as int).map_values(source_of)),
        decreases documents.len() - i,
    {
        let ghost before = all.take(i as int);
        let ghost after = all.take(i + 1);
        let doc = &documents[i];
        proof {
            assert(after.drop_last() =~= before);
            assert(after.last() == doc@);
            assert(after.map_values(type_of).drop_last() =~= before.map_values(type_of));
            assert(after.map_values(source_of).drop_last() =~= before.map_values(source_of));
            lemma_tally_counts(before.map_values(type_of));
            lemma_tally_counts(before.map_values(source_of));
        }
        match doc.file_size {
            Some(size) => {
                total_size_bytes = total_size_bytes.wrapping_add(size);
            },
            None => {},
        }
        bump(&mut by_content_type, String::from_str(doc.content_type.label()));
        let label = match doc.source_id {
            Some(id) => id_text(id),
            None => String::from_str("direct_upload"),
        };
        bump(&mut by_source, label);
        i += 1;
    }
    assert(all.take(documents.len() as int) =~= all);
    let r = DocumentAnalytics {
        total_documents: documents.len(),
        total_size_bytes,
        by_content_type,
        by_source,
    };
    assert(r@.by_content_type =~= counts_view(r.by_content_type@));
    assert(r@.by_source =~= counts_view(r.by_source@));
    r
}

/// The test that accepts the repository configurations of one installation.
pub struct ConfigsOf(pub i64);

impl Probe<GitHubRepoConfig> for ConfigsOf {
    open spec fn accepts(&self, model: GitHubRepoConfigView) -> bool {
        model.installation_id == self.0
    }

    fn test(&self, row: &GitHubRepoConfig) -> (r: bool) {
        row.installation_id == self.0
    }
}

/// A storage that keeps everything in memory, and forgets it when the service stops.
pub struct InMemoryStorage {
    sources: HashMap<u128, DataSource>,
    documents: HashMap<u128, Document>,
    sync_jobs: HashMap<u128, SyncJob>,
    github_installations: HashMap<i64, GitHubInstallation>,
    github_repo_configs: HashMap<u128, GitHubRepoConfig>,
}

impl InMemoryStorage {
    /// A storage that holds nothing.
    pub fn new() -> (r: Self)
        ensures
            r.state() == (StorageState {
                sources: Map::empty(),
                documents: Map::empty(),
                jobs: Map::empty(),
                installations: Map::empty(),
                repo_configs: Map::empty(),
            }),
    {
        proof {
            lemma_contents_empty::<u128, DataSource>();
            lemma_contents_empty::<u128, Document>();
            lemma_contents_empty::<u128, SyncJob>();
            lemma_contents_empty::<i64, GitHubInstallation>();
            lemma_contents_empty::<u128, GitHubRepoConfig>();
        }
        InMemoryStorage {
            sources: HashMap::new(),
            documents: HashMap::new(),
            sync_jobs: HashMap::new(),
            github_installations: HashMap::new(),
            github_repo_configs: HashMap::new(),
        }
    }
}

impl Default for InMemoryStorage {
    fn default() -> (r: Self)
        ensures
            r.state() == (StorageState {
                sources: Map::empty(),
                documents: Map::empty(),
                jobs: Map::empty(),
                installations: Map::empty(),
                repo_configs: Map::empty(),
            }),
    {
        InMemoryStorage::new()
    }
}

impl Storage for InMemoryStorage {
    open spec fn reliable(&self) -> bool {
        true
    }

    closed spec fn state(&self) -> StorageState {
        StorageState {
            sources: contents(self.sources@),
            documents: contents(self.documents@),
            jobs: contents(self.sync_jobs@),
            installations: contents(self.github_installations@),
            repo_configs: contents(self.github_repo_configs@),
        }
    }

    fn save_source(&mut self, source: DataSource) -> (r: Result<DataSource, AppError>)
    {
        let saved = source.clone();
        proof {
            lemma_contents_insert(self.sources@, source.id, source);
        }
        self.sources.insert(source.id, source);
        Ok(saved)
    }

    fn get_source(&self, id: u128) -> (r: Result<Option<DataSource>, AppError>)
    {
        Ok(copy_of(&self.sources, &id))
    }

    fn get_sources_by_user(&self, user_id: u128) -> (r: Result<Vec<DataSource>, AppError>)
    {
        let probe = SourcesOf(user_id);
        let out = select(&self.sources, &probe);
        proof {
            assert(out.deep_view() =~= models(out@));
            lemma_lists_same(
                models(out@),
                contents(self.sources@),
                |m: DataSourceView| probe.accepts(m),
                |s: DataSourceView| s.user_id == user_id,
            );
        }
        Ok(out)
    }

    fn update_source_status(&mut self, id: u128, status: SyncStatus) -> (r: Result<(), AppError>)
    {
        match copy_of(&self.sources, &id) {
            Some(mut source) => {
                let at = now();
                source.status = status;
                source.updated_at = at;
                proof {
                    lemma_contents_insert(self.sources@, id, source);
                }
                self.sources.insert(id, source);
                assert(self.state() == old(self).state().source_status_set(id, status, at));
            },
            None => {
                assert(self.state() == old(self).state().source_status_set(id, status, arbitrary()));
            },
        }
        Ok(())
    }

    fn update_source_last_synced(&mut self, id: u128, last_synced: Timestamp) -> (r: Result<
        (),
        AppError,
    >)
    {
        match copy_of(&self.sources, &id) {
            Some(mut source) => {
                let at = now();
                source.last_synced_at = Some(last_synced);
                source.updated_at = at;
                proof {
                    lemma_contents_insert(self.sources@, id, source);
                }
                self.sources.insert(id, source);
                assert(self.state() == old(self).state().source_marked_synced(id, last_synced, at));
            },
            None => {
                assert(self.state() == old(self).state().source_marked_synced(
                    id,
                    last_synced,
                    arbitrary(),
                ));
            },
        }
        Ok(())
    }

    fn delete_source(&mut self, id: u128) -> (r: Result<bool, AppError>)
    {
        proof {
            lemma_contents_remove(self.sources@, id);
        }
        let was_there = self.sources.remove(&id).is_some();
        Ok(was_there)
    }

    fn save_document(&mut self, document: Document) -> (r: Result<Document, AppError>)
    {
        let saved = document.clone();
        proof {
            lemma_contents_insert(self.documents@, document.id, document);
        }
        self.documents.insert(document.id, document);
        Ok(saved)
    }

    fn get_document(&self, id: u128) -> (r: Result<Option<Document>, AppError>)
    {
        Ok(copy_of(&self.documents, &id))
    }

    fn get_documents_by_user(&self, user_id: u128) -> (r: Result<Vec<Document>, AppError>)
    {
        let probe = DocumentsOf(user_id);
        let out = select(&self.documents, &probe);
        proof {
            assert(out.deep_view() =~= models(out@));
            lemma_lists_same(
                models(out@),
                contents(self.documents@),
                |m: DocumentView| probe.accepts(m),
                |d: DocumentView| d.user_id == user_id,
            );
        }
        Ok(out)
    }

    fn search_documents(&self, user_id: u128, query: &str) -> (r: Result<Vec<Document>, AppError>) {
        let probe = Searched { user_id, query: to_lowercase(query) };
        let out = select(&self.documents, &probe);
        proof {
            assert(out.deep_view() =~= models(out@));
            lemma_lists_same(
                models(out@),
                contents(self.documents@),
                |m: DocumentView| probe.accepts(m),
                |d: DocumentView| matches_search(d, user_id, query@),
            );
        }
        Ok(out)
    }

    fn get_document_analytics(&self, user_id: u128) -> (r: Result<DocumentAnalytics, AppError>) {
        let probe = DocumentsOf(user_id);
        let out = select(&self.documents, &probe);
        proof {
            assert(out.deep_view() =~= models(out@));
            lemma_lists_same(
                models(out@),
                contents(self.documents@),
                |m: DocumentView| probe.accepts(m),
                |d: DocumentView| d.user_id == user_id,
            );
        }
        let analytics = summarize(&out);
        assert(analytics@ == summary(out.deep_view()));
        Ok(analytics)
    }

    fn delete_document(&mut self, id: u128) -> (r: Result<bool, AppError>)
    {
        proof {
            lemma_contents_remove(self.documents@, id);
        }
        let was_there = self.documents.remove(&id).is_some();
        Ok(was_there)
    }

    fn save_sync_job(&mut self, job: SyncJob) -> (r: Result<SyncJob, AppError>)
    {
        let saved = job.clone();
        proof {
            lemma_contents_insert(self.sync_jobs@, job.id, job);
        }
        self.sync_jobs.insert(job.id, job);
        Ok(saved)
    }

    fn get_sync_job(&self, id: u128) -> (r: Result<Option<SyncJob>, AppError>)
    {
        Ok(copy_of(&self.sync_jobs, &id))
    }

    fn update_sync_job_status(&mut self, id: u128, status: SyncStatus, error: Option<String>) -> (r:
        Result<(), AppError>)
    {
        match copy_of(&self.sync_jobs, &id) {
            Some(mut job) => {
                let at = now();
                job.status = status;
                job.error = error;
                if status.is_terminal() {
                    job.completed_at = Some(at);
                }
                proof {
                    lemma_contents_insert(self.sync_jobs@, id, job);
                }
                self.sync_jobs.insert(id, job);
                assert(self.state() == old(self).state().job_status_set(
                    id,
                    status,
                    error.deep_view(),
                    at,
                ));
            },
            None => {
                assert(self.state() == old(self).state().job_status_set(
                    id,
                    status,
                    error.deep_view(),
                    arbitrary(),
                ));
            },
        }
        Ok(())
    }

    fn save_github_installation(&mut self, installation: GitHubInstallation) -> (r: Result<
        GitHubInstallation,
        AppError,
    >)
    {
        let saved = installation.clone();
        proof {
            lemma_contents_insert(self.github_installations@, installation.installation_id, installation);
        }
        self.github_installations.insert(installation.installation_id, installation);
        Ok(saved)
    }

    fn get_github_installations(&self, user_id: u128) -> (r: Result<
        Vec<GitHubInstallation>,
        AppError,
    >)
    {
        let probe = InstallationsOf(user_id);
        let out = select(&self.github_installations, &probe);
        proof {
            assert(out.deep_view() =~= models(out@));
            lemma_lists_same(
                models(out@),
                contents(self.github_installations@),
                |m: GitHubInstallationView| probe.accepts(m),
                |i: GitHubInstallationView| i.user_id == user_id,
            );
        }
        Ok(out)
    }

    fn save_github_repo_config(&mut self, config: GitHubRepoConfig) -> (r: Result<
        GitHubRepoConfig,
        AppError,
    >)
    {
        let saved = config.clone();
        proof {
            lemma_contents_insert(self.github_repo_configs@, config.id, config);
        }
        self.github_repo_configs.insert(config.id, config);
        Ok(saved)
    }

    fn get_github_repo_configs(&self, installation_id: i64) -> (r: Result<
        Vec<GitHubRepoConfig>,
        AppError,
    >)
    {
        let probe = ConfigsOf(installation_id);
        let out = select(&self.github_repo_configs, &probe);
        proof {
            assert(out.deep_view() =~= models(out@));
            lemma_lists_same(
                models(out@),
                contents(self.github_repo_configs@),
                |m: GitHubRepoConfigView| probe.accepts(m),
                |c: GitHubRepoConfigView| c.installation_id == installation_id,
            );
        }
        Ok(out)
    }

    fn get_github_repo_config(&self, id: u128) -> (r: Result<Option<GitHubRepoConfig>, AppError>)
    {
        Ok(copy_of(&self.github_repo_configs, &id))
    }
}

} // verus!
