//! The entities of the service: sources, jobs and documents.

use vstd::prelude::*;
use crate::clock::now;
use crate::clock::Timestamp;
use crate::ids::random_form;
use crate::ids::random_id;
use crate::json::JsonModel;
use crate::json::JsonValue;

verus! {

/// The kinds of source that the service knows.
#[derive(Debug, Clone, Copy, PartialEq, Eq, Hash, Structural)]
pub enum ConnectorType {
    LocalFile,
    GitHub,
    GitLab,
    Bitbucket,
    GoogleDrive,
    Dropbox,
    Slack,
    Notion,
    Confluence,
    UrlScraper,
}

impl ConnectorType {
    /// The name of the kind, in lower case with underscores.
    pub open spec fn name(self) -> Seq<char> {
        match self {
            ConnectorType::LocalFile => "local_file"@,
            ConnectorType::GitHub => "github"@,
            ConnectorType::GitLab => "gitlab"@,
            ConnectorType::Bitbucket => "bitbucket"@,
            ConnectorType::GoogleDrive => "google_drive"@,
            ConnectorType::Dropbox => "dropbox"@,
            ConnectorType::Slack => "slack"@,
            ConnectorType::Notion => "notion"@,
            ConnectorType::Confluence => "confluence"@,
            ConnectorType::UrlScraper => "url_scraper"@,
        }
    }

    /// The name of the kind, as it is shown and stored.
    pub fn as_str(&self) -> (r: &'static str)
        ensures
            r@ == self.name(),
    {
        match self {
            ConnectorType::LocalFile => "local_file",
            ConnectorType::GitHub => "github",
            ConnectorType::GitLab => "gitlab",
            ConnectorType::Bitbucket => "bitbucket",
            ConnectorType::GoogleDrive => "google_drive",
            ConnectorType::Dropbox => "dropbox",
            ConnectorType::Slack => "slack",
            ConnectorType::Notion => "notion",
            ConnectorType::Confluence => "confluence",
            ConnectorType::UrlScraper => "url_scraper",
        }
    }
}

/// What kind of content a document holds.
#[derive(Debug, Clone, Copy, PartialEq, Eq, Structural)]
pub enum ContentType {
    Text,
    Code,
    Markdown,
    Html,
    Json,
    Xml,
    Yaml,
    Binary,
    Unknown,
}

impl Default for ContentType {
    fn default() -> (r: Self)
        ensures
            r == ContentType::Unknown,
    {
        ContentType::Unknown
    }
}

impl ContentType {
    /// The name of the content type in lower case.
    pub open spec fn name(self) -> Seq<char> {
        match self {
            ContentType::Text => "text"@,
            ContentType::Code => "code"@,
            ContentType::Markdown => "markdown"@,
            ContentType::Html => "html"@,
            ContentType::Json => "json"@,
            ContentType::Xml => "xml"@,
            ContentType::Yaml => "yaml"@,
            ContentType::Binary => "binary"@,
            ContentType::Unknown => "unknown"@,
        }
    }

    /// The name of the content type, as it is shown.
    pub fn label(&self) -> (r: &'static str)
        ensures
            r@ == self.name(),
    {
        match self {
            ContentType::Text => "text",
            ContentType::Code => "code",
            ContentType::Markdown => "markdown",
            ContentType::Html => "html",
            ContentType::Json => "json",
            ContentType::Xml => "xml",
            ContentType::Yaml => "yaml",
            ContentType::Binary => "binary",
            ContentType::Unknown => "unknown",
        }
    }
}

/// The coarse kind of a source, a hint for the service that splits documents.
#[derive(Debug, Clone, Copy, PartialEq, Eq, Structural)]
pub enum SourceKind {
    CodeRepo,
    Document,
    Chat,
}

/// Where a sync job, or the source it belongs to, stands in its lifecycle.
#[derive(Debug, Clone, Copy, PartialEq, Eq, Structural)]
pub enum SyncStatus {
    Pending,
    Running,
    Completed,
    Failed,
}

impl SyncStatus {
    /// A terminal status is one that a job never leaves again.
    pub open spec fn terminal(self) -> bool {
        self == SyncStatus::Completed || self == SyncStatus::Failed
    }

    /// Whether the job has come to its end, one way or the other.
    pub fn is_terminal(&self) -> (r: bool)
        ensures
            r == self.terminal(),
    {
        match self {
            SyncStatus::Completed | SyncStatus::Failed => true,
            _ => false,
        }
    }

    /// The name of the status in lower case.
    pub open spec fn name(self) -> Seq<char> {
        match self {
            SyncStatus::Pending => "pending"@,
            SyncStatus::Running => "running"@,
            SyncStatus::Completed => "completed"@,
            SyncStatus::Failed => "failed"@,
        }
    }

    /// The name of the status, as it is shown.
    pub fn label(&self) -> (r: &'static str)
        ensures
            r@ == self.name(),
    {
        match self {
            SyncStatus::Pending => "pending",
            SyncStatus::Running => "running",
            SyncStatus::Completed => "completed",
            SyncStatus::Failed => "failed",
        }
    }
}

/// A copy of a text that may be absent.
pub fn clone_text(text: &Option<String>) -> (r: Option<String>)
    ensures
        r.deep_view() == text.deep_view(),
{
    match text {
        Some(s) => Some(s.clone()),
        None => None,
    }
}

/// A copy of a list of texts.
pub fn clone_texts(texts: &Vec<String>) -> (r: Vec<String>)
    ensures
        r.deep_view() == texts.deep_view(),
{
    let mut out: Vec<String> = Vec::new();
    let mut i: usize = 0;
    while i < texts.len()
        invariant
            i <= texts.len(),
            out.len() == i,
            forall|j: int| 0 <= j < i ==> out@[j]@ == texts@[j]@,
        decreases texts.len() - i,
    {
        out.push(texts[i].clone());
        i += 1;
    }
    assert(out.deep_view() =~= texts.deep_view());
    out
}

/// A piece of a document. The service that splits documents makes the real ones.
#[derive(Debug)]
pub struct DocumentChunk {
    pub id: u128,
    pub document_id: u128,
    pub content: String,
    pub chunk_index: usize,
    pub start_offset: usize,
    pub end_offset: usize,
    pub metadata: JsonValue,
}

/// A chunk as the contracts see it.
pub struct DocumentChunkView {
    pub id: u128,
    pub document_id: u128,
    pub content: Seq<char>,
    pub chunk_index: usize,
    pub start_offset: usize,
    pub end_offset: usize,
    pub metadata: JsonModel,
}

impl View for DocumentChunk {
    type V = DocumentChunkView;

    open spec fn view(&self) -> DocumentChunkView {
        DocumentChunkView {
            id: self.id,
            document_id: self.document_id,
            content: self.content@,
            chunk_index: self.chunk_index,
            start_offset: self.start_offset,
            end_offset: self.end_offset,
            metadata: self.metadata@,
        }
    }
}

impl DeepView for DocumentChunk {
    type V = DocumentChunkView;

    open spec fn deep_view(&self) -> DocumentChunkView {
        self@
    }
}

impl Clone for DocumentChunk {
    fn clone(&self) -> (r: Self)
        ensures
            r@ == self@,
    {
        DocumentChunk {
            id: self.id,
            document_id: self.document_id,
            content: self.content.clone(),
            chunk_index: self.chunk_index,
            start_offset: self.start_offset,
            end_offset: self.end_offset,
            metadata: self.metadata.clone(),
        }
    }
}

/// A copy of a list of chunks that may be absent.
pub fn clone_chunks(chunks: &Option<Vec<DocumentChunk>>) -> (r: Option<Vec<DocumentChunk>>)
    ensures
        r.deep_view() == chunks.deep_view(),
{
    match chunks {
        Some(list) => {
            let mut out: Vec<DocumentChunk> = Vec::new();
            let mut i: usize = 0;
            while i < list.len()
                invariant
                    i <= list.len(),
                    out.len() == i,
                    forall|j: int| 0 <= j < i ==> out@[j]@ == list@[j]@,
                decreases list.len() - i,
            {
                out.push(list[i].clone());
                i += 1;
            }
            assert(out.deep_view() =~= list.deep_view());
            Some(out)
        },
        None => None,
    }
}

/// The common form of a piece of content, whatever source it came from.
#[derive(Debug)]
pub struct NormalizedDocument {
    pub id: u128,
    pub source_id: u128,
    pub connector_type: ConnectorType,
    pub external_id: String,
    pub name: String,
    pub path: Option<String>,
    pub content: String,
    pub content_type: ContentType,
    pub metadata: JsonValue,
    pub chunks: Option<Vec<DocumentChunk>>,
    pub block_type: Option<String>,
    pub language: Option<String>,
    pub created_at: Timestamp,
    pub updated_at: Timestamp,
}

/// A normalized document as the contracts see it.
pub struct NormalizedDocumentView {
    pub id: u128,
    pub source_id: u128,
    pub connector_type: ConnectorType,
    pub external_id: Seq<char>,
    pub name: Seq<char>,
    pub path: Option<Seq<char>>,
    pub content: Seq<char>,
    pub content_type: ContentType,
    pub metadata: JsonModel,
    pub chunks: Option<Seq<DocumentChunkView>>,
    pub block_type: Option<Seq<char>>,
    pub language: Option<Seq<char>>,
    pub created_at: Timestamp,
    pub updated_at: Timestamp,
}

impl View for NormalizedDocument {
    type V = NormalizedDocumentView;

    open spec fn view(&self) -> NormalizedDocumentView {
        NormalizedDocumentView {
            id: self.id,
            source_id: self.source_id,
            connector_type: self.connector_type,
            external_id: self.external_id@,
            name: self.name@,
            path: self.path.deep_view(),
            content: self.content@,
            content_type: self.content_type,
            metadata: self.metadata@,
            chunks: self.chunks.deep_view(),
            block_type: self.block_type.deep_view(),
            language: self.language.deep_view(),
            created_at: self.created_at,
            updated_at: self.updated_at,
        }
    }
}

impl DeepView for NormalizedDocument {
    type V = NormalizedDocumentView;

    open spec fn deep_view(&self) -> NormalizedDocumentView {
        self@
    }
}

impl Clone for NormalizedDocument {
    fn clone(&self) -> (r: Self)
        ensures
            r@ == self@,
    {
        NormalizedDocument {
            id: self.id,
            source_id: self.source_id,
            connector_type: self.connector_type,
            external_id: self.external_id.clone(),
            name: self.name.clone(),
            path: clone_text(&self.path),
            content: self.content.clone(),
            content_type: self.content_type,
            metadata: self.metadata.clone(),
            chunks: clone_chunks(&self.chunks),
            block_type: clone_text(&self.block_type),
            language: clone_text(&self.language),
            created_at: self.created_at,
            updated_at: self.updated_at,
        }
    }
}

impl NormalizedDocument {
    /// A document that was made at `at` under the identity `id`, with nothing known of it
    /// but where it comes from, its name and its content.
    pub open spec fn plain(
        id: u128,
        at: Timestamp,
        source_id: u128,
        connector_type: ConnectorType,
        external_id: Seq<char>,
        name: Seq<char>,
        content: Seq<char>,
    ) -> NormalizedDocumentView {
        NormalizedDocumentView {
            id,
            source_id,
            connector_type,
            external_id,
            name,
            path: None,
            content,
            content_type: ContentType::Unknown,
            metadata: JsonModel::Object(Seq::empty()),
            chunks: None,
            block_type: None,
            language: None,
            created_at: at,
            updated_at: at,
        }
    }

    /// A new document under a fresh identity, made now: no path, no language, content type
    /// unknown, empty metadata.
    pub fn new(
        source_id: u128,
        connector_type: ConnectorType,
        external_id: String,
        name: String,
        content: String,
    ) -> (doc: Self)
        ensures
            random_form(doc.id),
            doc@ == Self::plain(
                doc.id,
                doc.created_at,
                source_id,
                connector_type,
                external_id@,
                name@,
                content@,
            ),
    {
        let at = now();
        NormalizedDocument {
            id: random_id(),
            source_id,
            connector_type,
            external_id,
            name,
            path: None,
            content,
            content_type: ContentType::default(),
            metadata: JsonValue::object(),
            chunks: None,
            block_type: None,
            language: None,
            created_at: at,
            updated_at: at,
        }
    }
}

/// A configured place that content is taken from.
#[derive(Debug)]
pub struct DataSource {
    pub id: u128,
    pub user_id: u128,
    pub name: String,
    pub connector_type: ConnectorType,
    pub config: JsonValue,
    pub status: SyncStatus,
    pub sync_status: SyncStatus,
    pub documents_count: u32,
    pub last_synced_at: Option<Timestamp>,
    pub created_at: Timestamp,
    pub updated_at: Timestamp,
}

/// A source as the contracts see it.
pub struct DataSourceView {
    pub id: u128,
    pub user_id: u128,
    pub name: Seq<char>,
    pub connector_type: ConnectorType,
    pub config: JsonModel,
    pub status: SyncStatus,
    pub sync_status: SyncStatus,
    pub documents_count: u32,
    pub last_synced_at: Option<Timestamp>,
    pub created_at: Timestamp,
    pub updated_at: Timestamp,
}

impl View for DataSource {
    type V = DataSourceView;

    open spec fn view(&self) -> DataSourceView {
        DataSourceView {
            id: self.id,
            user_id: self.user_id,
            name: self.name@,
            connector_type: self.connector_type,
            config: self.config@,
            status: self.status,
            sync_status: self.sync_status,
            documents_count: self.documents_count,
            last_synced_at: self.last_synced_at,
            created_at: self.created_at,
            updated_at: self.updated_at,
        }
    }
}

impl DeepView for DataSource {
    type V = DataSourceView;

    open spec fn deep_view(&self) -> DataSourceView {
        self@
    }
}

impl Clone for DataSource {
    fn clone(&self) -> (r: Self)
        ensures
            r@ == self@,
    {
        DataSource {
            id: self.id,
            user_id: self.user_id,
            name: self.name.clone(),
            connector_type: self.connector_type,
            config: self.config.clone(),
            status: self.status,
            sync_status: self.sync_status,
            documents_count: self.documents_count,
            last_synced_at: self.last_synced_at,
            created_at: self.created_at,
            updated_at: self.updated_at,
        }
    }
}

impl DataSource {
    /// A source that was registered at `at` under the identity `id` and has not been
    /// synced yet.
    pub open spec fn registered(
        id: u128,
        at: Timestamp,
        user_id: u128,
        name: Seq<char>,
        connector_type: ConnectorType,
        config: JsonModel,
    ) -> DataSourceView {
        DataSourceView {
            id,
            user_id,
            name,
            connector_type,
            config,
            status: SyncStatus::Pending,
            sync_status: SyncStatus::Pending,
            documents_count: 0,
            last_synced_at: None,
            created_at: at,
            updated_at: at,
        }
    }

    /// A new source under a fresh identity, registered now: pending, never synced,
    /// no documents.
    pub fn new(user_id: u128, name: String, connector_type: ConnectorType, config: JsonValue) -> (source:
        Self)
        ensures
            random_form(source.id),
            source@ == Self::registered(
                source.id,
                source.created_at,
                user_id,
                name@,
                connector_type,
                config@,
            ),
    {
        let at = now();
        DataSource {
            id: random_id(),
            user_id,
            name,
            connector_type,
            config,
            status: SyncStatus::Pending,
            sync_status: SyncStatus::Pending,
            documents_count: 0,
            last_synced_at: None,
            created_at: at,
            updated_at: at,
        }
    }
}

/// One attempt to sync a source.
#[derive(Debug)]
pub struct SyncJob {
    pub id: u128,
    pub source_id: u128,
    pub user_id: u128,
    pub status: SyncStatus,
    pub items_processed: usize,
    pub items_total: Option<usize>,
    pub error: Option<String>,
    pub started_at: Timestamp,
    pub completed_at: Option<Timestamp>,
}

/// A sync job as the contracts see it.
pub struct SyncJobView {
    pub id: u128,
    pub source_id: u128,
    pub user_id: u128,
    pub status: SyncStatus,
    pub items_processed: usize,
    pub items_total: Option<usize>,
    pub error: Option<Seq<char>>,
    pub started_at: Timestamp,
    pub completed_at: Option<Timestamp>,
}

impl View for SyncJob {
    type V = SyncJobView;

    open spec fn view(&self) -> SyncJobView {
        SyncJobView {
            id: self.id,
            source_id: self.source_id,
            user_id: self.user_id,
            status: self.status,
            items_processed: self.items_processed,
            items_total: self.items_total,
            error: self.error.deep_view(),
            started_at: self.started_at,
            completed_at: self.completed_at,
        }
    }
}

impl DeepView for SyncJob {
    type V = SyncJobView;

    open spec fn deep_view(&self) -> SyncJobView {
        self@
    }
}

impl Clone for SyncJob {
    fn clone(&self) -> (r: Self)
        ensures
            r@ == self@,
    {
        SyncJob {
            id: self.id,
            source_id: self.source_id,
            user_id: self.user_id,
            status: self.status,
            items_processed: self.items_processed,
            items_total: self.items_total,
            error: clone_text(&self.error),
            started_at: self.started_at,
            completed_at: self.completed_at,
        }
    }
}

impl SyncJobView {
    /// A job keeps its completion time for the moment at which it comes to its end:
    /// while it is pending or running it has none.
    pub open spec fn well_formed(self) -> bool {
        self.completed_at is Some ==> self.status.terminal()
    }
}

impl SyncJob {
    /// A job that was started at `at` under the identity `id` and has not run yet.
    pub open spec fn pending(id: u128, at: Timestamp, source_id: u128, user_id: u128) -> SyncJobView {
        SyncJobView {
            id,
            source_id,
            user_id,
            status: SyncStatus::Pending,
            items_processed: 0,
            items_total: None,
            error: None,
            started_at: at,
            completed_at: None,
        }
    }

    /// A new job under a fresh identity, started now: pending, nothing processed, no error,
    /// not completed.
    pub fn new(source_id: u128, user_id: u128) -> (job: Self)
        ensures
            random_form(job.id),
            job@ == Self::pending(job.id, job.started_at, source_id, user_id),
            job@.well_formed(),
    {
        SyncJob {
            id: random_id(),
            source_id,
            user_id,
            status: SyncStatus::Pending,
            items_processed: 0,
            items_total: None,
            error: None,
            started_at: now(),
            completed_at: None,
        }
    }
}

/// A document that a user stored.
#[derive(Debug)]
pub struct Document {
    pub id: u128,
    pub user_id: u128,
    pub source_id: Option<u128>,
    pub name: String,
    pub content: String,
    pub content_type: ContentType,
    pub file_path: Option<String>,
    pub file_size: Option<u64>,
    pub mime_type: Option<String>,
    pub metadata: JsonValue,
    pub created_at: Timestamp,
    pub updated_at: Timestamp,
}

/// A stored document as the contracts see it.
pub struct DocumentView {
    pub id: u128,
    pub user_id: u128,
    pub source_id: Option<u128>,
    pub name: Seq<char>,
    pub content: Seq<char>,
    pub content_type: ContentType,
    pub file_path: Option<Seq<char>>,
    pub file_size: Option<u64>,
    pub mime_type: Option<Seq<char>>,
    pub metadata: JsonModel,
    pub created_at: Timestamp,
    pub updated_at: Timestamp,
}

impl View for Document {
    type V = DocumentView;

    open spec fn view(&self) -> DocumentView {
        DocumentView {
            id: self.id,
            user_id: self.user_id,
            source_id: self.source_id,
            name: self.name@,
            content: self.content@,
            content_type: self.content_type,
            file_path: self.file_path.deep_view(),
            file_size: self.file_size,
            mime_type: self.mime_type.deep_view(),
            metadata: self.metadata@,
            created_at: self.created_at,
            updated_at: self.updated_at,
        }
    }
}

impl DeepView for Document {
    type V = DocumentView;

    open spec fn deep_view(&self) -> DocumentView {
        self@
    }
}

impl Clone for Document {
    fn clone(&self) -> (r: Self)
        ensures
            r@ == self@,
    {
        Document {
            id: self.id,
            user_id: self.user_id,
            source_id: self.source_id,
            name: self.name.clone(),
            content: self.content.clone(),
            content_type: self.content_type,
            file_path: clone_text(&self.file_path),
            file_size: self.file_size,
            mime_type: clone_text(&self.mime_type),
            metadata: self.metadata.clone(),
            created_at: self.created_at,
            updated_at: self.updated_at,
        }
    }
}

impl Document {
    /// A document that was stored at `at` under the identity `id`, with nothing known of
    /// it but its owner, its name and its content.
    pub open spec fn plain(
        id: u128,
        at: Timestamp,
        user_id: u128,
        name: Seq<char>,
        content: Seq<char>,
    ) -> DocumentView {
        DocumentView {
            id,
            user_id,
            source_id: None,
            name,
            content,
            content_type: ContentType::Text,
            file_path: None,
            file_size: None,
            mime_type: None,
            metadata: JsonModel::Object(Seq::empty()),
            created_at: at,
            updated_at: at,
        }
    }

    /// A new text document under a fresh identity, stored now, that belongs to no source.
    pub fn new(user_id: u128, name: String, content: String) -> (doc: Self)
        ensures
            random_form(doc.id),
            doc@ == Self::plain(doc.id, doc.created_at, user_id, name@, content@),
    {
        let at = now();
        Document {
            id: random_id(),
            user_id,
            source_id: None,
            name,
            content,
            content_type: ContentType::Text,
            file_path: None,
            file_size: None,
            mime_type: None,
            metadata: JsonValue::object(),
            created_at: at,
            updated_at: at,
        }
    }
}

/// The record of an installation of the GitHub App.
#[derive(Debug)]
pub struct GitHubInstallation {
    pub installation_id: i64,
    pub user_id: u128,
    pub account_login: String,
    pub account_type: String,
    pub created_at: Timestamp,
}

/// An installation as the contracts see it.
pub struct GitHubInstallationView {
    pub installation_id: i64,
    pub user_id: u128,
    pub account_login: Seq<char>,
    pub account_type: Seq<char>,
    pub created_at: Timestamp,
}

impl View for GitHubInstallation {
    type V = GitHubInstallationView;

    open spec fn view(&self) -> GitHubInstallationView {
        GitHubInstallationView {
            installation_id: self.installation_id,
            user_id: self.user_id,
            account_login: self.account_login@,
            account_type: self.account_type@,
            created_at: self.created_at,
        }
    }
}

impl DeepView for GitHubInstallation {
    type V = GitHubInstallationView;

    open spec fn deep_view(&self) -> GitHubInstallationView {
        self@
    }
}

impl Clone for GitHubInstallation {
    fn clone(&self) -> (r: Self)
        ensures
            r@ == self@,
    {
        GitHubInstallation {
            installation_id: self.installation_id,
            user_id: self.user_id,
            account_login: self.account_login.clone(),
            account_type: self.account_type.clone(),
            created_at: self.created_at,
        }
    }
}

/// A repository that was chosen for syncing under an installation.
#[derive(Debug)]
pub struct GitHubRepoConfig {
    pub id: u128,
    pub installation_id: i64,
    pub user_id: u128,
    pub repo_full_name: String,
    pub branch: Option<String>,
    pub sync_enabled: bool,
    pub last_synced_at: Option<Timestamp>,
    pub created_at: Timestamp,
}

/// A repository configuration as the contracts see it.
pub struct GitHubRepoConfigView {
    pub id: u128,
    pub installation_id: i64,
    pub user_id: u128,
    pub repo_full_name: Seq<char>,
    pub branch: Option<Seq<char>>,
    pub sync_enabled: bool,
    pub last_synced_at: Option<Timestamp>,
    pub created_at: Timestamp,
}

impl View for GitHubRepoConfig {
    type V = GitHubRepoConfigView;

    open spec fn view(&self) -> GitHubRepoConfigView {
        GitHubRepoConfigView {
            id: self.id,
            installation_id: self.installation_id,
            user_id: self.user_id,
            repo_full_name: self.repo_full_name@,
            branch: self.branch.deep_view(),
            sync_enabled: self.sync_enabled,
            last_synced_at: self.last_synced_at,
            created_at: self.created_at,
        }
    }
}

impl DeepView for GitHubRepoConfig {
    type V = GitHubRepoConfigView;

    open spec fn deep_view(&self) -> GitHubRepoConfigView {
        self@
    }
}

impl Clone for GitHubRepoConfig {
    fn clone(&self) -> (r: Self)
        ensures
            r@ == self@,
    {
        GitHubRepoConfig {
            id: self.id,
            installation_id: self.installation_id,
            user_id: self.user_id,
            repo_full_name: self.repo_full_name.clone(),
            branch: clone_text(&self.branch),
            sync_enabled: self.sync_enabled,
            last_synced_at: self.last_synced_at,
            created_at: self.created_at,
        }
    }
}

impl GitHubRepoConfig {
    /// A repository that was chosen at `at` under the identity `id`: syncing enabled,
    /// no branch picked, never synced.
    pub open spec fn chosen(
        id: u128,
        at: Timestamp,
        installation_id: i64,
        user_id: u128,
        repo_full_name: Seq<char>,
    ) -> GitHubRepoConfigView {
        GitHubRepoConfigView {
            id,
            installation_id,
            user_id,
            repo_full_name,
            branch: None,
            sync_enabled: true,
            last_synced_at: None,
            created_at: at,
        }
    }

    /// A new configuration under a fresh identity, made now.
    pub fn new(installation_id: i64, user_id: u128, repo_full_name: String) -> (config: Self)
        ensures
            random_form(config.id),
            config@ == Self::chosen(
                config.id,
                config.created_at,
                installation_id,
                user_id,
                repo_full_name@,
            ),
    {
        GitHubRepoConfig {
            id: random_id(),
            installation_id,
            user_id,
            repo_full_name,
            branch: None,
            sync_enabled: true,
            last_synced_at: None,
            created_at: now(),
        }
    }
}

} // verus!
