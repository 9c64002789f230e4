//! Sources: registering them, listing them, syncing them, forgetting them.

use vstd::prelude::*;
use crate::api::authorized;
use crate::api::bad_request;
use crate::api::forbidden;
use crate::api::not_found;
use crate::api::unauthorized;
use crate::clients::http::join3;
use crate::clock::Timestamp;
use crate::domain::models::ConnectorType;
use crate::domain::models::DataSource;
use crate::domain::models::DataSourceView;
use crate::domain::models::SyncJob;
use crate::domain::sync::SyncOrchestrator;
use crate::domain::sync::SyncRun;
use crate::domain::sync::SyncRunView;
use crate::error::AppError;
use crate::error::Failure;
use crate::ids::hyphenated;
use crate::ids::id_text;
use crate::json::JsonModel;
use crate::json::JsonValue;
use crate::storage::table::found;
use crate::storage::table::lists;
use crate::storage::Storage;
use crate::storage::StorageState;
use crate::text::after_last;
use crate::text::before_last;
use crate::text::decimal;
use crate::text::decimal_text;
use crate::text::lowercase;
use crate::text::occurs_in;
use crate::text::text_contains;
use crate::text::text_split_last;
use crate::text::text_trim_end;
use crate::text::to_lowercase;
use crate::text::trim_end;

verus! {

/// What is sent to register a source.
#[derive(Debug)]
pub struct CreateSourceRequest {
    pub name: String,
    pub source_type: String,
    pub config: JsonValue,
}

/// What is sent to connect a source by its address.
#[derive(Debug)]
pub struct ConnectSourceRequest {
    pub source_type: String,
    pub url: Option<String>,
    pub credentials: Option<JsonValue>,
    pub config: Option<JsonValue>,
}

/// What is answered when a source has been registered.
#[derive(Debug)]
pub struct CreateSourceResponse {
    pub success: bool,
    pub message: String,
    pub data: CreateSourceData,
    pub sync_started: bool,
}

/// What is told of a source that has been registered.
#[derive(Debug)]
pub struct CreateSourceData {
    pub id: u128,
    pub name: String,
    pub source_type: String,
    pub url: Option<String>,
    pub status: String,
    pub default_branch: Option<String>,
    pub created_at: String,
}

/// What is told of a registered source as the contracts see it.
pub struct CreateSourceDataView {
    pub id: u128,
    pub name: Seq<char>,
    pub source_type: Seq<char>,
    pub url: Option<Seq<char>>,
    pub status: Seq<char>,
    pub default_branch: Option<Seq<char>>,
    pub created_at: Seq<char>,
}

impl View for CreateSourceData {
    type V = CreateSourceDataView;

    open spec fn view(&self) -> CreateSourceDataView {
        CreateSourceDataView {
            id: self.id,
            name: self.name@,
            source_type: self.source_type@,
            url: self.url.deep_view(),
            status: self.status@,
            default_branch: self.default_branch.deep_view(),
            created_at: self.created_at@,
        }
    }
}

/// What is told of a source in a list.
#[derive(Debug)]
pub struct SourceItem {
    pub id: u128,
    pub user_id: u128,
    pub name: String,
    pub source_type: String,
    pub url: Option<String>,
    pub status: String,
    pub default_branch: Option<String>,
    pub sync_status: String,
    pub documents_count: u32,
    pub last_synced_at: Option<String>,
    pub created_at: String,
}

/// An item of a list of sources as the contracts see it.
pub struct SourceItemView {
    pub id: u128,
    pub user_id: u128,
    pub name: Seq<char>,
    pub source_type: Seq<char>,
    pub url: Option<Seq<char>>,
    pub status: Seq<char>,
    pub default_branch: Option<Seq<char>>,
    pub sync_status: Seq<char>,
    pub documents_count: u32,
    pub last_synced_at: Option<Seq<char>>,
    pub created_at: Seq<char>,
}

impl View for SourceItem {
    type V = SourceItemView;

    open spec fn view(&self) -> SourceItemView {
        SourceItemView {
            id: self.id,
            user_id: self.user_id,
            name: self.name@,
            source_type: self.source_type@,
            url: self.url.deep_view(),
            status: self.status@,
            default_branch: self.default_branch.deep_view(),
            sync_status: self.sync_status@,
            documents_count: self.documents_count,
            last_synced_at: self.last_synced_at.deep_view(),
            created_at: self.created_at@,
        }
    }
}

impl DeepView for SourceItem {
    type V = SourceItemView;

    open spec fn deep_view(&self) -> SourceItemView {
        self@
    }
}

/// The sources of a list.
#[derive(Debug)]
pub struct ListSourcesData {
    pub data_sources: Vec<SourceItem>,
}

/// What is answered to a request for the sources of a user.
#[derive(Debug)]
pub struct ListSourcesResponse {
    pub success: bool,
    pub message: String,
    pub data: ListSourcesData,
}

/// What is answered when a sync has been started.
#[derive(Debug)]
pub struct SyncResponse {
    pub success: bool,
    pub message: String,
    pub data: SyncData,
}

/// What is told of a sync that has been started.
#[derive(Debug)]
pub struct SyncData {
    pub sync_id: String,
    pub status: String,
}

/// What is answered when a source has been forgotten.
#[derive(Debug)]
pub struct DeleteResponse {
    pub success: bool,
    pub message: String,
}

/// The kind of source that a name in lower case stands for.
pub open spec fn connector_named(name: Seq<char>) -> Option<ConnectorType> {
    if name == "github"@ {
        Some(ConnectorType::GitHub)
    } else if name == "gitlab"@ {
        Some(ConnectorType::GitLab)
    } else if name == "bitbucket"@ {
        Some(ConnectorType::Bitbucket)
    } else if name == "google_drive"@ || name == "googledrive"@ {
        Some(ConnectorType::GoogleDrive)
    } else if name == "dropbox"@ {
        Some(ConnectorType::Dropbox)
    } else if name == "slack"@ {
        Some(ConnectorType::Slack)
    } else if name == "notion"@ {
        Some(ConnectorType::Notion)
    } else if name == "confluence"@ {
        Some(ConnectorType::Confluence)
    } else if name == "url_scraper"@ || name == "urlscraper"@ || name == "url"@ {
        Some(ConnectorType::UrlScraper)
    } else if name == "local_file"@ || name == "localfile"@ || name == "local"@ {
        Some(ConnectorType::LocalFile)
    } else {
        None
    }
}

/// The kind of source that a name stands for, whatever its case; a name that stands for
/// none is a malformed request.
pub open spec fn connector_type_of(name: Seq<char>) -> Result<ConnectorType, Failure> {
    match connector_named(lowercase(name)) {
        Some(kind) => Ok(kind),
        None => Err(bad_request("Unknown source type: "@ + name)),
    }
}

/// The kind of source that a name in lower case stands for.
pub fn connector_type_named(name: &str) -> (r: Option<ConnectorType>)
    ensures
        r == connector_named(name@),
{
    if name.eq("github") {
        Some(ConnectorType::GitHub)
    } else if name.eq("gitlab") {
        Some(ConnectorType::GitLab)
    } else if name.eq("bitbucket") {
        Some(ConnectorType::Bitbucket)
    } else if name.eq("google_drive") || name.eq("googledrive") {
        Some(ConnectorType::GoogleDrive)
    } else if name.eq("dropbox") {
        Some(ConnectorType::Dropbox)
    } else if name.eq("slack") {
        Some(ConnectorType::Slack)
    } else if name.eq("notion") {
        Some(ConnectorType::Notion)
    } else if name.eq("confluence") {
        Some(ConnectorType::Confluence)
    } else if name.eq("url_scraper") || name.eq("urlscraper") || name.eq("url") {
        Some(ConnectorType::UrlScraper)
    } else if name.eq("local_file") || name.eq("localfile") || name.eq("local") {
        Some(ConnectorType::LocalFile)
    } else {
        None
    }
}

/// The kind of source that a name stands for, whatever its case.
pub fn parse_connector_type(s: &str) -> (r: Result<ConnectorType, AppError>)
    ensures
        match r {
            Ok(kind) => connector_type_of(s@) == Ok::<ConnectorType, Failure>(kind),
            Err(e) => connector_type_of(s@) == Err::<ConnectorType, Failure>(e@),
        },
{
    let lower = to_lowercase(s);
    match connector_type_named(lower.as_str()) {
        Some(kind) => Ok(kind),
        None => Err(AppError::BadRequest(String::from_str("Unknown source type: ").concat(s))),
    }
}

/// Whether an address names one of the hosts of repositories.
pub open spec fn on_known_host(url: Seq<char>) -> bool {
    occurs_in("github.com"@, url) || occurs_in("gitlab.com"@, url) || occurs_in(
        "bitbucket.org"@,
        url,
    )
}

/// The last two segments of a path, with a slash between them: the owner and the
/// repository of an address. The path must hold a slash.
pub open spec fn last_two_segments(path: Seq<char>) -> Seq<char> {
    after_last(before_last(path, '/'), '/') + "/"@ + after_last(path, '/')
}

/// The name that an address gives to a source: for an address on one of the hosts of
/// repositories, the owner and the repository; for any other, the address itself.
pub open spec fn name_from_url(url: Seq<char>) -> Seq<char> {
    if on_known_host(url) && trim_end(url, '/').contains('/') {
        last_two_segments(trim_end(url, '/'))
    } else {
        url
    }
}

/// Whether an address names one of the hosts of repositories.
pub fn is_on_known_host(url: &str) -> (r: bool)
    ensures
        r == on_known_host(url@),
{
    text_contains(url, "github.com") || text_contains(url, "gitlab.com") || text_contains(
        url,
        "bitbucket.org",
    )
}

/// The last two segments of `path`, where it holds a slash.
pub fn two_segments(path: &str) -> (r: Option<(String, String)>)
    ensures
        match r {
            Some((owner, repo)) => path@.contains('/') && owner@ == after_last(
                before_last(path@, '/'),
                '/',
            ) && repo@ == after_last(path@, '/'),
            None => !path@.contains('/'),
        },
{
    match text_split_last(path, '/') {
        Some((before, last)) => {
            let owner = crate::text::text_after_last(before.as_str(), '/');
            Some((owner, last))
        },
        None => None,
    }
}

/// The name that an address gives to a source.
pub fn extract_name_from_url(url: &str) -> (r: String)
    ensures
        r@ == name_from_url(url@),
{
    if is_on_known_host(url) {
        let trimmed = text_trim_end(url, '/');
        match two_segments(trimmed.as_str()) {
            Some((owner, repo)) => {
                return join3(owner.as_str(), "/", repo.as_str());
            },
            None => {},
        }
    }
    String::from_str(url)
}

/// What a list tells of a source.
pub open spec fn item_of(source: DataSourceView) -> SourceItemView {
    SourceItemView {
        id: source.id,
        user_id: source.user_id,
        name: source.name,
        source_type: source.connector_type.name(),
        url: source.config.text_at_either("url"@, "repository"@),
        status: source.status.name(),
        default_branch: source.config.text_at_either("branch"@, "defaultBranch"@),
        sync_status: source.sync_status.name(),
        documents_count: source.documents_count,
        last_synced_at: match source.last_synced_at {
            Some(at) => Some(at.text()),
            None => None,
        },
        created_at: source.created_at.text(),
    }
}

/// What a list tells of a source.
pub fn source_item(source: &DataSource) -> (r: SourceItem)
    ensures
        r@ == item_of(source@),
{
    SourceItem {
        id: source.id,
        user_id: source.user_id,
        name: source.name.clone(),
        source_type: String::from_str(source.connector_type.as_str()),
        url: source.config.text_at_either("url", "repository"),
        status: String::from_str(source.status.label()),
        default_branch: source.config.text_at_either("branch", "defaultBranch"),
        sync_status: String::from_str(source.sync_status.label()),
        documents_count: source.documents_count,
        last_synced_at: match source.last_synced_at {
            Some(at) => Some(at.to_rfc3339()),
            None => None,
        },
        created_at: source.created_at.to_rfc3339(),
    }
}

/// The run of a sync that may have been started, as the contracts see it.
pub open spec fn run_view(run: Option<SyncRun>) -> Option<SyncRunView> {
    match run {
        Some(run) => Some(run@),
        None => None,
    }
}

/// The storage has gone from `before` to `after` by keeping the source `source`, and, where
/// `run` is there, by keeping a pending job for it that `run` is to carry out.
pub open spec fn registered(
    before: StorageState,
    after: StorageState,
    source: DataSourceView,
    run: Option<SyncRunView>,
) -> bool {
    let kept = StorageState { sources: before.sources.insert(source.id, source), ..before };
    match run {
        Some(run) => {
            &&& run.task.source == source
            &&& run.task.user_id == source.user_id
            &&& run.stage is Scheduled
            &&& exists|at: Timestamp|
                after == (StorageState {
                    jobs: kept.jobs.insert(
                        run.task.job_id,
                        SyncJob::pending(run.task.job_id, at, source.id, source.user_id),
                    ),
                    ..kept
                })
        },
        None => after == kept,
    }
}

/// Keeps the source, and starts a sync of it where it is a source of the host; a sync
/// that cannot be started is passed over.
fn register<S: Storage>(orchestrator: &SyncOrchestrator, storage: &mut S, source: DataSource) -> (r:
    Result<(DataSource, Option<SyncRun>), AppError>)
    ensures
        match r {
            Ok((saved, run)) => {
                &&& saved@ == source@
                &&& registered(old(storage).state(), final(storage).state(), source@, run_view(run))
                &&& source@.connector_type != ConnectorType::GitHub ==> run is None
            },
            Err(_) => final(storage).state() == old(storage).state(),
        },
        final(storage).reliable() == old(storage).reliable(),
        old(storage).reliable() ==> r is Ok,
        old(storage).reliable() && source@.connector_type == ConnectorType::GitHub ==> r is Ok
            && r->Ok_0.1 is Some,
{
    let ghost before = storage.state();
    let user_id = source.user_id;
    let saved = match storage.save_source(source) {
        Ok(saved) => saved,
        Err(e) => {
            return Err(e);
        },
    };
    let run = match saved.connector_type {
        ConnectorType::GitHub => match orchestrator.start_sync(storage, saved.clone(), user_id) {
            Ok((job, run)) => {
                assert(storage.state() == (StorageState {
                    jobs: (StorageState {
                        sources: before.sources.insert(saved@.id, saved@),
                        ..before
                    }).jobs.insert(
                        run@.task.job_id,
                        SyncJob::pending(run@.task.job_id, job.started_at, saved@.id, saved@.user_id),
                    ),
                    ..(StorageState { sources: before.sources.insert(saved@.id, saved@), ..before })
                }));
                Some(run)
            },
            Err(_) => None,
        },
        _ => None,
    };
    Ok((saved, run))
}


/// What is told of a source that has just been registered.
pub open spec fn created_data(
    source: DataSourceView,
    name: Seq<char>,
    source_type: Seq<char>,
    url: Option<Seq<char>>,
    default_branch: Option<Seq<char>>,
) -> CreateSourceDataView {
    CreateSourceDataView {
        id: source.id,
        name,
        source_type,
        url,
        status: "connected"@,
        default_branch,
        created_at: source.created_at.text(),
    }
}

/// Registers a source for the user, and starts a sync of it where it is a source of the
/// host.
///
/// A request that names no user is not authorized, and one with an unknown kind of source
/// is malformed; neither changes the storage. Otherwise the source is kept as it was
/// sent, pending and never synced; where it cannot be kept, the failure of the storage is
/// passed on.
pub fn create_source<S: Storage>(
    orchestrator: &SyncOrchestrator,
    storage: &mut S,
    user: Option<u128>,
    body: &CreateSourceRequest,
) -> (r: Result<(CreateSourceResponse, Option<SyncRun>), AppError>)
    ensures
        user is None ==> r is Err && r->Err_0@ == unauthorized(),
        user is Some && connector_type_of(body.source_type@) is Err ==> r is Err && Err::<
            ConnectorType,
            Failure,
        >(r->Err_0@) == connector_type_of(body.source_type@),
        r is Err ==> final(storage).state() == old(storage).state(),
        final(storage).reliable() == old(storage).reliable(),
        old(storage).reliable() && user is Some && connector_type_of(body.source_type@) is Ok
            ==> r is Ok,
        r matches Ok((answer, run)) ==> {
            &&& user is Some
            &&& connector_type_of(body.source_type@) is Ok
            &&& exists|source: DataSourceView|
                {
                    &&& source == DataSource::registered(
                        source.id,
                        source.created_at,
                        user->0,
                        body.name@,
                        connector_type_of(body.source_type@)->Ok_0,
                        body.config@,
                    )
                    &&& registered(
                        old(storage).state(),
                        final(storage).state(),
                        source,
                        run_view(run),
                    )
                    &&& answer.data@ == created_data(
                        source,
                        body.name@,
                        body.source_type@,
                        body.config@.text_at_either("repository"@, "url"@),
                        body.config@.text_at_either("branch"@, "defaultBranch"@),
                    )
                }
            &&& answer.success
            &&& answer.message@
                == "Data source created successfully. Sync will be triggered automatically."@
            &&& answer.sync_started == run is Some
            &&& connector_type_of(body.source_type@)->Ok_0 != ConnectorType::GitHub ==> run is None
        },
{
    let user_id = match authorized(user) {
        Ok(id) => id,
        Err(e) => {
            return Err(e);
        },
    };
    let connector_type = match parse_connector_type(body.source_type.as_str()) {
        Ok(kind) => kind,
        Err(e) => {
            return Err(e);
        },
    };
    let source = DataSource::new(user_id, body.name.clone(), connector_type, body.config.clone());
    let ghost made = source@;
    let (source, run) = match register(orchestrator, storage, source) {
        Ok(pair) => pair,
        Err(e) => {
            return Err(e);
        },
    };
    let data = CreateSourceData {
        id: source.id,
        name: body.name.clone(),
        source_type: body.source_type.clone(),
        url: body.config.text_at_either("repository", "url"),
        status: String::from_str("connected"),
        default_branch: body.config.text_at_either("branch", "defaultBranch"),
        created_at: source.created_at.to_rfc3339(),
    };
    let answer = CreateSourceResponse {
        success: true,
        message: String::from_str(
            "Data source created successfully. Sync will be triggered automatically.",
        ),
        data,
        sync_started: run.is_some(),
    };
    assert(made == DataSource::registered(
        made.id,
        made.created_at,
        user->0,
        body.name@,
        connector_type_of(body.source_type@)->Ok_0,
        body.config@,
    ));
    Ok((answer, run))
}

impl ConnectSourceRequest {
    /// The token that the credentials of the request hold: what stands under
    /// `accessToken`, or under `token` where there is no `accessToken`.
    pub open spec fn token(self) -> Option<JsonModel> {
        match self.credentials {
            Some(credentials) => if credentials@.member("accessToken"@) is Some {
                credentials@.member("accessToken"@)
            } else {
                credentials@.member("token"@)
            },
            None => None,
        }
    }

    /// The configuration that the request starts from: the one it holds, or an empty one.
    pub open spec fn base(self) -> JsonModel {
        match self.config {
            Some(config) => config@,
            None => JsonModel::Object(Seq::empty()),
        }
    }

    /// Whether the request can be served: where something is to be written into the
    /// configuration that it holds, that configuration is an object or null.
    pub open spec fn writable(self) -> bool {
        self.url is Some || self.token() is Some ==> self.base() is Object || self.base() is Null
    }

    /// The configuration of the source that the request asks for: the one it holds, with
    /// the repository and the address written into it where the request has an address,
    /// and the token where the credentials hold one.
    pub open spec fn configuration(self) -> JsonModel {
        let addressed = match self.url {
            Some(url) => self.base().with("repository"@, JsonModel::Text(name_from_url(url@))).with(
                "url"@,
                JsonModel::Text(url@),
            ),
            None => self.base(),
        };
        match self.token() {
            Some(token) => addressed.with("access_token"@, token),
            None => addressed,
        }
    }

    /// The name of the source that the request asks for: the one in its configuration, or
    /// the one that its address gives, or the kind of source followed by `Source`.
    pub open spec fn source_name(self) -> Seq<char> {
        match self.configuration().text_at("name"@) {
            Some(name) => name,
            None => match self.url {
                Some(url) => name_from_url(url@),
                None => self.source_type@ + " Source"@,
            },
        }
    }

    /// Whether the request can be served, to be asked before `connect_source` of a
    /// request that names a user and a known kind of source.
    pub fn is_writable(&self) -> (r: bool)
        ensures
            r == self.writable(),
    {
        let writes = self.url.is_some() || self.held_token().is_some();
        if !writes {
            return true;
        }
        match &self.config {
            Some(config) => match config {
                JsonValue::Object(_) => true,
                JsonValue::Null => true,
                _ => false,
            },
            None => true,
        }
    }

    /// The token that the credentials of the request hold.
    pub fn held_token(&self) -> (r: Option<JsonValue>)
        ensures
            r.deep_view() == self.token(),
    {
        match &self.credentials {
            Some(credentials) => match credentials.get("accessToken") {
                Some(token) => Some(token.clone()),
                None => match credentials.get("token") {
                    Some(token) => Some(token.clone()),
                    None => None,
                },
            },
            None => None,
        }
    }

    /// The configuration of the source that the request asks for.
    pub fn build_config(&self) -> (r: JsonValue)
        ensures
            r@ == self.configuration(),
    {
        let base = match &self.config {
            Some(config) => config.clone(),
            None => JsonValue::object(),
        };
        let addressed = match &self.url {
            Some(url) => {
                let name = extract_name_from_url(url.as_str());
                base.with("repository", JsonValue::Text(name)).with(
                    "url",
                    JsonValue::text(url.as_str()),
                )
            },
            None => base,
        };
        match self.held_token() {
            Some(token) => addressed.with("access_token", token),
            None => addressed,
        }
    }
}

/// Connects a source for the user by its address, and starts a sync of it where it is a
/// source of the host.
///
/// A request that names no user is not authorized, and one with an unknown kind of source
/// is malformed; neither changes the storage. Otherwise the source is kept under the name
/// and with the configuration that the request asks for; where it cannot be kept, the
/// failure of the storage is passed on.
pub fn connect_source<S: Storage>(
    orchestrator: &SyncOrchestrator,
    storage: &mut S,
    user: Option<u128>,
    body: &ConnectSourceRequest,
) -> (r: Result<(CreateSourceResponse, Option<SyncRun>), AppError>)
    requires
        user is Some && connector_type_of(body.source_type@) is Ok ==> body.writable(),
    ensures
        user is None ==> r is Err && r->Err_0@ == unauthorized(),
        user is Some && connector_type_of(body.source_type@) is Err ==> r is Err && Err::<
            ConnectorType,
            Failure,
        >(r->Err_0@) == connector_type_of(body.source_type@),
        r is Err ==> final(storage).state() == old(storage).state(),
        final(storage).reliable() == old(storage).reliable(),
        old(storage).reliable() && user is Some && connector_type_of(body.source_type@) is Ok
            ==> r is Ok,
        r matches Ok((answer, run)) ==> {
            &&& user is Some
            &&& connector_type_of(body.source_type@) is Ok
            &&& exists|source: DataSourceView|
                {
                    &&& source == DataSource::registered(
                        source.id,
                        source.created_at,
                        user->0,
                        body.source_name(),
                        connector_type_of(body.source_type@)->Ok_0,
                        body.configuration(),
                    )
                    &&& registered(
                        old(storage).state(),
                        final(storage).state(),
                        source,
                        run_view(run),
                    )
                    &&& answer.data@ == created_data(
                        source,
                        body.source_name(),
                        body.source_type@,
                        body.url.deep_view(),
                        body.configuration().text_at_either("defaultBranch"@, "branch"@),
                    )
                }
            &&& answer.success
            &&& answer.message@ == "Repository connected successfully"@
            &&& answer.sync_started == run is Some
            &&& connector_type_of(body.source_type@)->Ok_0 != ConnectorType::GitHub ==> run is None
        },
{
    let user_id = match authorized(user) {
        Ok(id) => id,
        Err(e) => {
            return Err(e);
        },
    };
    let connector_type = match parse_connector_type(body.source_type.as_str()) {
        Ok(kind) => kind,
        Err(e) => {
            return Err(e);
        },
    };
    let config = body.build_config();
    let name = match config.text_at("name") {
        Some(name) => name,
        None => match &body.url {
            Some(url) => extract_name_from_url(url.as_str()),
            None => body.source_type.clone().concat(" Source"),
        },
    };
    let default_branch = config.text_at_either("defaultBranch", "branch");
    let source = DataSource::new(user_id, name.clone(), connector_type, config);
    let ghost made = source@;
    let (source, run) = match register(orchestrator, storage, source) {
        Ok(pair) => pair,
        Err(e) => {
            return Err(e);
        },
    };
    let data = CreateSourceData {
        id: source.id,
        name,
        source_type: body.source_type.clone(),
        url: crate::domain::models::clone_text(&body.url),
        status: String::from_str("connected"),
        default_branch,
        created_at: source.created_at.to_rfc3339(),
    };
    let answer = CreateSourceResponse {
        success: true,
        message: String::from_str("Repository connected successfully"),
        data,
        sync_started: run.is_some(),
    };
    assert(made == DataSource::registered(
        made.id,
        made.created_at,
        user->0,
        body.source_name(),
        connector_type_of(body.source_type@)->Ok_0,
        body.configuration(),
    ));
    Ok((answer, run))
}

/// The items of a list of sources, one for each source, in their order.
pub open spec fn items_of(sources: Seq<DataSourceView>) -> Seq<SourceItemView> {
    Seq::new(sources.len(), |i: int| item_of(sources[i]))
}

/// The sources of the user, each as an item of a list.
///
/// A request that names no user is not authorized. A failure of the storage is passed on.
pub fn list_sources<S: Storage>(storage: &S, user: Option<u128>) -> (r: Result<
    ListSourcesResponse,
    AppError,
>)
    ensures
        user is None ==> r is Err && r->Err_0@ == unauthorized(),
        user is Some && storage.reliable() ==> r is Ok,
        r matches Ok(answer) ==> {
            &&& user is Some
            &&& answer.success
            &&& answer.message@ == "Retrieved "@ + decimal(answer.data.data_sources.len() as nat)
                + " data sources"@
            &&& exists|sources: Seq<DataSourceView>|
                {
                    &&& lists(
                        sources,
                        storage.state().sources,
                        |s: DataSourceView| s.user_id == user->0,
                    )
                    &&& answer.data.data_sources.deep_view() == items_of(sources)
                }
        },
{
    let user_id = match authorized(user) {
        Ok(id) => id,
        Err(e) => {
            return Err(e);
        },
    };
    let sources = match storage.get_sources_by_user(user_id) {
        Ok(sources) => sources,
        Err(e) => {
            return Err(e);
        },
    };
    let mut items: Vec<SourceItem> = Vec::new();
    let mut i: usize = 0;
    while i < sources.len()
        invariant
            i <= sources.len(),
            items.len() == i,
            forall|j: int| 0 <= j < i ==> (#[trigger] items@[j])@ == item_of(sources@[j]@),
        decreases sources.len() - i,
    {
        items.push(source_item(&sources[i]));
        i += 1;
    }
    assert(items.deep_view() =~= items_of(sources.deep_view()));
    let message = join3("Retrieved ", decimal_text(items.len() as u64).as_str(), " data sources");
    Ok(ListSourcesResponse { success: true, message, data: ListSourcesData { data_sources: items } })
}

/// The source `id` as the user `user` may see it: it must exist and be theirs.
pub open spec fn source_for(state: StorageState, user: Option<u128>, id: u128) -> Result<
    DataSourceView,
    Failure,
> {
    if user is None {
        Err(unauthorized())
    } else if !state.sources.dom().contains(id) {
        Err(not_found("Data source "@ + hyphenated(id) + " not found"@))
    } else if state.sources[id].user_id != user->0 {
        Err(forbidden("You don't have access to this data source"@))
    } else {
        Ok(state.sources[id])
    }
}

/// The source `id`, where it exists and belongs to the user. A failure of the storage
/// is passed on.
pub fn owned_source<S: Storage>(storage: &S, user: Option<u128>, id: u128) -> (r: Result<
    DataSource,
    AppError,
>)
    ensures
        r matches Ok(source) ==> source_for(storage.state(), user, id) == Ok::<
            DataSourceView,
            Failure,
        >(source@),
        r matches Err(e) ==> source_for(storage.state(), user, id) == Err::<
            DataSourceView,
            Failure,
        >(e@) || (user is Some && !storage.reliable()),
{
    let user_id = match authorized(user) {
        Ok(id) => id,
        Err(e) => {
            return Err(e);
        },
    };
    let source = match storage.get_source(id) {
        Ok(Some(source)) => source,
        Ok(None) => {
            let message = join3("Data source ", id_text(id).as_str(), " not found");
            return Err(AppError::NotFound(message));
        },
        Err(e) => {
            return Err(e);
        },
    };
    if source.user_id != user_id {
        return Err(
            AppError::Forbidden(String::from_str("You don't have access to this data source")),
        );
    }
    Ok(source)
}

/// The source `id` as an item of a list, where it exists and belongs to the user.
pub fn get_source<S: Storage>(storage: &S, user: Option<u128>, id: u128) -> (r: Result<
    SourceItem,
    AppError,
>)
    ensures
        r matches Ok(item) ==> source_for(storage.state(), user, id) is Ok && item@ == item_of(
            source_for(storage.state(), user, id)->Ok_0,
        ),
        r matches Err(e) ==> source_for(storage.state(), user, id) == Err::<
            DataSourceView,
            Failure,
        >(e@) || (user is Some && !storage.reliable()),
{
    match owned_source(storage, user, id) {
        Ok(source) => Ok(source_item(&source)),
        Err(e) => Err(e),
    }
}

/// Forgets the source `id`, where it exists and belongs to the user; otherwise the
/// storage stays as it is.
pub fn delete_source<S: Storage>(storage: &mut S, user: Option<u128>, id: u128) -> (r: Result<
    DeleteResponse,
    AppError,
>)
    ensures
        final(storage).reliable() == old(storage).reliable(),
        r matches Ok(answer) ==> {
            &&& source_for(old(storage).state(), user, id) is Ok
            &&& final(storage).state() == (StorageState {
                sources: old(storage).state().sources.remove(id),
                ..old(storage).state()
            })
            &&& answer.success
            &&& answer.message@ == "Data source "@ + hyphenated(id) + " deleted successfully"@
        },
        r matches Err(e) ==> {
            &&& final(storage).state() == old(storage).state()
            &&& source_for(old(storage).state(), user, id) == Err::<DataSourceView, Failure>(e@)
                || (user is Some && !old(storage).reliable())
        },
{
    match owned_source(storage, user, id) {
        Ok(_) => {},
        Err(e) => {
            return Err(e);
        },
    }
    match storage.delete_source(id) {
        Ok(_) => {},
        Err(e) => {
            return Err(e);
        },
    }
    let message = join3("Data source ", id_text(id).as_str(), " deleted successfully");
    Ok(DeleteResponse { success: true, message })
}

/// What came of a request to sync a source.
#[derive(Debug)]
pub enum SyncOutcome {
    /// The sync has been started: the answer, and the run that is to be carried out.
    Started(SyncResponse, SyncRun),
    /// The sync could not be started; the text says why.
    NotStarted(String),
}

/// Starts a sync of the source `id`, where it exists and belongs to the user.
///
/// Where the job cannot be kept, the sync is not started, and the answer says why.
pub fn sync_source<S: Storage>(
    orchestrator: &SyncOrchestrator,
    storage: &mut S,
    user: Option<u128>,
    id: u128,
) -> (r: Result<SyncOutcome, AppError>)
    ensures
        final(storage).reliable() == old(storage).reliable(),
        r matches Err(e) ==> {
            &&& final(storage).state() == old(storage).state()
            &&& source_for(old(storage).state(), user, id) == Err::<DataSourceView, Failure>(e@)
                || (user is Some && !old(storage).reliable())
        },
        r matches Ok(outcome) ==> source_for(old(storage).state(), user, id) is Ok,
        r matches Ok(SyncOutcome::NotStarted(why)) ==> {
            &&& final(storage).state() == old(storage).state()
            &&& !old(storage).reliable()
            &&& has_lead(why@, "Failed to start sync: "@)
        },
        r matches Ok(SyncOutcome::Started(answer, run)) ==> {
            let source = source_for(old(storage).state(), user, id)->Ok_0;
            &&& run@.task.source == source
            &&& run@.task.user_id == user->0
            &&& run@.stage is Scheduled
            &&& final(storage).state() == (StorageState {
                jobs: old(storage).state().jobs.insert(
                    run@.task.job_id,
                    SyncJob::pending(
                        run@.task.job_id,
                        final(storage).state().jobs[run@.task.job_id].started_at,
                        source.id,
                        user->0,
                    ),
                ),
                ..old(storage).state()
            })
            &&& answer.success
            &&& answer.message@ == "Sync started successfully"@
            &&& answer.data.sync_id@ == hyphenated(run@.task.job_id)
            &&& answer.data.status@ == "in-progress"@
        },
{
    let source = match owned_source(storage, user, id) {
        Ok(source) => source,
        Err(e) => {
            return Err(e);
        },
    };
    let ghost before = storage.state();
    let ghost kept = source@;
    match orchestrator.start_sync(storage, source, user.unwrap()) {
        Ok((job, run)) => {
            let answer = SyncResponse {
                success: true,
                message: String::from_str("Sync started successfully"),
                data: SyncData { sync_id: id_text(job.id), status: String::from_str("in-progress") },
            };
            assert(storage.state() == (StorageState {
                jobs: before.jobs.insert(
                    run@.task.job_id,
                    SyncJob::pending(run@.task.job_id, job.started_at, kept.id, user->0),
                ),
                ..before
            }));
            Ok(SyncOutcome::Started(answer, run))
        },
        Err(e) => {
            let why = String::from_str("Failed to start sync: ").concat(e.to_text().as_str());
            assert(why@.take("Failed to start sync: "@.len() as int) =~= "Failed to start sync: "@);
            Ok(SyncOutcome::NotStarted(why))
        },
    }
}

/// `text` begins with `lead`.
pub open spec fn has_lead(text: Seq<char>, lead: Seq<char>) -> bool {
    crate::text::has_prefix(text, lead)
}

} // verus!
