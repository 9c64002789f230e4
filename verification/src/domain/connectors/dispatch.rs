//! From the kind of a source to the connector that serves it.

use vstd::prelude::*;
use crate::clients::auth::AuthClientView;
use crate::clients::AuthClient;
use crate::clients::GitHubApiClient;
use crate::domain::connectors::bitbucket;
use crate::domain::connectors::bitbucket::BitbucketConnector;
use crate::domain::connectors::dropbox;
use crate::domain::connectors::dropbox::DropboxConnector;
use crate::domain::connectors::github::GitHubConnector;
use crate::domain::connectors::github::GitHubFetch;
use crate::domain::connectors::github::GitHubFetchView;
use crate::domain::connectors::gitlab;
use crate::domain::connectors::gitlab::GitLabConnector;
use crate::domain::connectors::google_drive;
use crate::domain::connectors::google_drive::GoogleDriveConnector;
use crate::domain::connectors::local_file::missing_path;
use crate::domain::connectors::local_file::LocalFetch;
use crate::domain::connectors::local_file::LocalFetchView;
use crate::domain::connectors::local_file::LocalFileConnector;
use crate::domain::connectors::session::out_of_turn;
use crate::domain::connectors::session::unexpected_reply;
use crate::domain::connectors::session::AccessCheck;
use crate::domain::connectors::session::AccessCheckView;
use crate::domain::connectors::session::AccessStage;
use crate::domain::connectors::session::AccessStep;
use crate::domain::connectors::session::AccessStepView;
use crate::domain::connectors::session::FetchReply;
use crate::domain::connectors::session::FetchReplyView;
use crate::domain::connectors::session::FetchRequestView;
use crate::domain::connectors::session::FetchStep;
use crate::domain::connectors::session::FetchStepView;
use crate::domain::connectors::slack;
use crate::domain::connectors::slack::SlackConnector;
use crate::domain::connectors::url_scraper;
use crate::domain::connectors::url_scraper::UrlScraperConnector;
use crate::domain::models::ConnectorType;
use crate::domain::models::DataSource;
use crate::domain::models::DataSourceView;
use crate::error::Failure;

verus! {

/// A connector of any kind.
#[derive(Debug)]
pub enum Connector {
    GitHub(GitHubConnector),
    GitLab(GitLabConnector),
    Bitbucket(BitbucketConnector),
    GoogleDrive(GoogleDriveConnector),
    Dropbox(DropboxConnector),
    Slack(SlackConnector),
    UrlScraper(UrlScraperConnector),
    LocalFile(LocalFileConnector),
}

/// A fetch that is under way, of whatever connector.
#[derive(Debug)]
pub enum Fetch {
    GitHub(GitHubFetch),
    LocalFile(LocalFetch),
    /// A fetch that was over before it began: the connector fetches nothing.
    Over,
}

/// A fetch as the contracts see it.
pub enum FetchView {
    GitHub(GitHubFetchView),
    LocalFile(LocalFetchView),
    Over,
}

impl View for Fetch {
    type V = FetchView;

    open spec fn view(&self) -> FetchView {
        match self {
            Fetch::GitHub(fetch) => FetchView::GitHub(fetch@),
            Fetch::LocalFile(fetch) => FetchView::LocalFile(fetch@),
            Fetch::Over => FetchView::Over,
        }
    }
}

impl FetchView {
    /// What holds of every fetch that the library hands out.
    pub open spec fn well_formed(self) -> bool {
        match self {
            FetchView::GitHub(fetch) => fetch.well_formed(),
            FetchView::LocalFile(fetch) => fetch.well_formed(),
            FetchView::Over => true,
        }
    }

    /// Whether the fetch `self`, handed `reply`, may go on as `next` and say `out`: as
    /// the fetch of its connector may. A fetch that is over answers every reply with a
    /// failure.
    pub open spec fn step(self, reply: FetchReplyView, next: FetchView, out: FetchStepView) -> bool {
        match self {
            FetchView::GitHub(fetch) => next is GitHub && fetch.step(reply, next->GitHub_0, out),
            FetchView::LocalFile(fetch) => next is LocalFile && fetch.step(
                reply,
                next->LocalFile_0,
                out,
            ),
            FetchView::Over => next is Over && out == FetchStepView::Failed(out_of_turn()),
        }
    }
}

impl Fetch {
    /// Hands the fetch the answer to what it asked for last, and says what comes next.
    pub fn advance(self, reply: FetchReply) -> (r: (Fetch, FetchStep))
        ensures
            self@.step(reply@, r.0@, r.1@),
            r.0@.well_formed(),
    {
        match self {
            Fetch::GitHub(fetch) => {
                let (next, out) = fetch.advance(reply);
                (Fetch::GitHub(next), out)
            },
            Fetch::LocalFile(fetch) => {
                let (next, out) = fetch.advance(reply);
                (Fetch::LocalFile(next), out)
            },
            Fetch::Over => (Fetch::Over, FetchStep::Failed(unexpected_reply())),
        }
    }
}

/// The kind of connector that serves sources of the kind `kind`. Each kind has its own,
/// but for the two wikis, which the connector for pages of the web serves.
pub open spec fn served_by(kind: ConnectorType) -> ConnectorType {
    match kind {
        ConnectorType::Notion | ConnectorType::Confluence => ConnectorType::UrlScraper,
        _ => kind,
    }
}

/// The failure that every operation of the connector of the kind `kind` ends in, for
/// the kinds from which nothing is fetched yet.
pub open spec fn refusal(kind: ConnectorType) -> Failure {
    match kind {
        ConnectorType::GitLab => gitlab::not_implemented(),
        ConnectorType::Bitbucket => bitbucket::not_implemented(),
        ConnectorType::GoogleDrive => google_drive::not_implemented(),
        ConnectorType::Dropbox => dropbox::not_implemented(),
        ConnectorType::Slack => slack::not_implemented(),
        _ => url_scraper::not_implemented(),
    }
}

/// Whether something is fetched from sources that the connector of the kind `kind` serves.
pub open spec fn implemented(kind: ConnectorType) -> bool {
    kind == ConnectorType::GitHub || kind == ConnectorType::LocalFile
}

impl Connector {
    /// The kind of source that the connector serves.
    pub open spec fn kind(self) -> ConnectorType {
        match self {
            Connector::GitHub(_) => ConnectorType::GitHub,
            Connector::GitLab(_) => ConnectorType::GitLab,
            Connector::Bitbucket(_) => ConnectorType::Bitbucket,
            Connector::GoogleDrive(_) => ConnectorType::GoogleDrive,
            Connector::Dropbox(_) => ConnectorType::Dropbox,
            Connector::Slack(_) => ConnectorType::Slack,
            Connector::UrlScraper(_) => ConnectorType::UrlScraper,
            Connector::LocalFile(_) => ConnectorType::LocalFile,
        }
    }

    /// The client of the token service that the connector holds, where it holds one.
    pub open spec fn auth_client(self) -> Option<AuthClientView> {
        match self {
            Connector::GitHub(c) => Some(c.auth_client@),
            Connector::GitLab(c) => Some(c.auth_client@),
            Connector::Bitbucket(c) => Some(c.auth_client@),
            Connector::GoogleDrive(c) => Some(c.auth_client@),
            Connector::Dropbox(c) => Some(c.auth_client@),
            Connector::Slack(c) => Some(c.auth_client@),
            Connector::UrlScraper(_) => None,
            Connector::LocalFile(_) => None,
        }
    }

    /// How a fetch from `source` begins with a connector of the kind `kind`: the host's
    /// connector asks for a token, the local one asks whether the directory exists or
    /// fails where the source names none, and every other connector fails.
    pub open spec fn begins(
        kind: ConnectorType,
        source: DataSourceView,
        user_id: u128,
        fetch: FetchView,
        out: FetchStepView,
    ) -> bool {
        match kind {
            ConnectorType::GitHub => {
                &&& fetch == FetchView::GitHub(GitHubFetchView::opening(source, user_id))
                &&& out == FetchStepView::Ask(
                    FetchRequestView::Token { provider: "github"@, user_id },
                )
            },
            ConnectorType::LocalFile => {
                &&& fetch is LocalFile
                &&& fetch->LocalFile_0.source_id == source.id
                &&& match source.config.text_at("path"@) {
                    Some(path) => {
                        &&& fetch->LocalFile_0.base_path == path
                        &&& fetch->LocalFile_0.stage is AwaitingInspect
                        &&& out == FetchStepView::Ask(FetchRequestView::Inspect { path })
                    },
                    None => {
                        &&& fetch->LocalFile_0.stage is Closed
                        &&& out == FetchStepView::Failed(missing_path())
                    },
                }
            },
            _ => fetch is Over && out == FetchStepView::Failed(refusal(kind)),
        }
    }

    /// How a check of access to `source` begins with a connector of the kind `kind`.
    pub open spec fn checks(
        kind: ConnectorType,
        source: DataSourceView,
        user_id: u128,
        check: AccessCheckView,
        out: AccessStepView,
    ) -> bool {
        match kind {
            ConnectorType::GitHub => {
                &&& check == (AccessCheckView {
                    repository: source.config.text_at("repository"@),
                    stage: AccessStage::AwaitingToken,
                })
                &&& out == AccessStepView::Ask(
                    FetchRequestView::Token { provider: "github"@, user_id },
                )
            },
            ConnectorType::LocalFile => {
                &&& check.repository is None
                &&& match source.config.text_at("path"@) {
                    Some(path) => {
                        &&& check.stage == AccessStage::AwaitingInspect
                        &&& out == AccessStepView::Ask(FetchRequestView::Inspect { path })
                    },
                    None => {
                        &&& check.stage == AccessStage::Closed
                        &&& out == AccessStepView::Failed(missing_path())
                    },
                }
            },
            _ => {
                &&& check == (AccessCheckView { repository: None, stage: AccessStage::Closed })
                &&& out == AccessStepView::Failed(refusal(kind))
            },
        }
    }

    /// The kind of source that the connector serves.
    pub fn connector_type(&self) -> (r: ConnectorType)
        ensures
            r == self.kind(),
    {
        match self {
            Connector::GitHub(c) => c.connector_type(),
            Connector::GitLab(c) => c.connector_type(),
            Connector::Bitbucket(c) => c.connector_type(),
            Connector::GoogleDrive(c) => c.connector_type(),
            Connector::Dropbox(c) => c.connector_type(),
            Connector::Slack(c) => c.connector_type(),
            Connector::UrlScraper(c) => c.connector_type(),
            Connector::LocalFile(c) => c.connector_type(),
        }
    }

    /// Begins to fetch what the source holds for the user.
    pub fn fetch_content(&self, source: &DataSource, user_id: u128) -> (r: (Fetch, FetchStep))
        ensures
            Self::begins(self.kind(), source@, user_id, r.0@, r.1@),
            r.0@.well_formed(),
    {
        match self {
            Connector::GitHub(c) => {
                let (fetch, out) = c.fetch_content(source, user_id);
                (Fetch::GitHub(fetch), out)
            },
            Connector::LocalFile(c) => {
                let (fetch, out) = c.fetch_content(source, user_id);
                (Fetch::LocalFile(fetch), out)
            },
            Connector::GitLab(c) => (Fetch::Over, c.fetch_content(source, user_id)),
            Connector::Bitbucket(c) => (Fetch::Over, c.fetch_content(source, user_id)),
            Connector::GoogleDrive(c) => (Fetch::Over, c.fetch_content(source, user_id)),
            Connector::Dropbox(c) => (Fetch::Over, c.fetch_content(source, user_id)),
            Connector::Slack(c) => (Fetch::Over, c.fetch_content(source, user_id)),
            Connector::UrlScraper(c) => (Fetch::Over, c.fetch_content(source, user_id)),
        }
    }

    /// Begins to check whether the user has access to the source.
    pub fn validate_access(&self, source: &DataSource, user_id: u128) -> (r: (AccessCheck, AccessStep))
        ensures
            Self::checks(self.kind(), source@, user_id, r.0@, r.1@),
    {
        match self {
            Connector::GitHub(c) => c.validate_access(source, user_id),
            Connector::LocalFile(c) => c.validate_access(source, user_id),
            Connector::GitLab(c) => (Self::no_check(), c.validate_access(source, user_id)),
            Connector::Bitbucket(c) => (Self::no_check(), c.validate_access(source, user_id)),
            Connector::GoogleDrive(c) => (Self::no_check(), c.validate_access(source, user_id)),
            Connector::Dropbox(c) => (Self::no_check(), c.validate_access(source, user_id)),
            Connector::Slack(c) => (Self::no_check(), c.validate_access(source, user_id)),
            Connector::UrlScraper(c) => (Self::no_check(), c.validate_access(source, user_id)),
        }
    }

    /// A check that was over before it began.
    fn no_check() -> (r: AccessCheck)
        ensures
            r@ == (AccessCheckView { repository: None, stage: AccessStage::Closed }),
    {
        AccessCheck { repository: None, stage: AccessStage::Closed }
    }
}

/// Makes the connector for each kind of source, and hands it the clients that it needs.
#[derive(Debug)]
pub struct ConnectorManager {
    pub auth_client: AuthClient,
    pub github_client: GitHubApiClient,
}

/// A manager as the contracts see it.
pub struct ConnectorManagerView {
    pub auth_client: AuthClientView,
    pub github_client: GitHubApiClient,
}

impl View for ConnectorManager {
    type V = ConnectorManagerView;

    open spec fn view(&self) -> ConnectorManagerView {
        ConnectorManagerView { auth_client: self.auth_client@, github_client: self.github_client }
    }
}

impl ConnectorManager {
    pub fn new(auth_client: AuthClient, github_client: GitHubApiClient) -> (r: Self)
        ensures
            r.auth_client@ == auth_client@,
            r.github_client == github_client,
    {
        ConnectorManager { auth_client, github_client }
    }

    /// The connector for sources of the kind `connector_type`: a new one at each call.
    pub fn get_connector(&self, connector_type: ConnectorType) -> (r: Connector)
        ensures
            r.kind() == served_by(connector_type),
            r.auth_client() matches Some(client) ==> client == self.auth_client@,
            r matches Connector::GitHub(c) ==> c.github_client == self.github_client,
    {
        match connector_type {
            ConnectorType::GitHub => Connector::GitHub(
                GitHubConnector::new(self.auth_client.clone(), self.github_client),
            ),
            ConnectorType::GitLab => Connector::GitLab(
                GitLabConnector::new(self.auth_client.clone()),
            ),
            ConnectorType::Bitbucket => Connector::Bitbucket(
                BitbucketConnector::new(self.auth_client.clone()),
            ),
            ConnectorType::GoogleDrive => Connector::GoogleDrive(
                GoogleDriveConnector::new(self.auth_client.clone()),
            ),
            ConnectorType::Dropbox => Connector::Dropbox(
                DropboxConnector::new(self.auth_client.clone()),
            ),
            ConnectorType::Slack => Connector::Slack(SlackConnector::new(self.auth_client.clone())),
            ConnectorType::UrlScraper => Connector::UrlScraper(UrlScraperConnector::new()),
            ConnectorType::LocalFile => Connector::LocalFile(LocalFileConnector::new()),
            ConnectorType::Notion => Connector::UrlScraper(UrlScraperConnector::new()),
            ConnectorType::Confluence => Connector::UrlScraper(UrlScraperConnector::new()),
        }
    }
}

/// The connectors from which nothing is fetched yet fail alike: whatever the source and
/// the user, a fetch is over before it has begun and a check of access is closed, both
/// with the failure of the connector, which is a failure inside the service; nothing is
/// asked of any service.
pub proof fn lemma_unserved_kinds_fail(
    kind: ConnectorType,
    source: DataSourceView,
    user_id: u128,
    fetch: FetchView,
    out: FetchStepView,
    check: AccessCheckView,
    said: AccessStepView,
)
    requires
        !implemented(served_by(kind)),
        Connector::begins(served_by(kind), source, user_id, fetch, out),
        Connector::checks(served_by(kind), source, user_id, check, said),
    ensures
        fetch is Over,
        out == FetchStepView::Failed(refusal(served_by(kind))),
        check.stage == AccessStage::Closed,
        said == AccessStepView::Failed(refusal(served_by(kind))),
        refusal(served_by(kind)).kind == crate::error::ErrorKind::Internal,
{
}

} // verus!
