//! What passes between a connector and the code that does its input and output.

use vstd::prelude::*;
use crate::clients::github_api::TreeEntry;
use crate::clients::github_api::TreeEntryView;
use crate::domain::connectors::local_file::LocalEntry;
use crate::domain::connectors::local_file::LocalEntryView;
use crate::domain::models::NormalizedDocument;
use crate::domain::models::NormalizedDocumentView;
use crate::error::AppError;
use crate::error::Failure;

verus! {

/// What a connector needs next.
#[derive(Debug)]
pub enum FetchRequest {
    /// A bearer token of `provider` for the user.
    Token { provider: String, user_id: u128 },
    /// Whether the repository exists and the token may read it.
    Access { token: String, repository: String },
    /// The whole tree of a branch of a repository.
    Tree { token: String, repository: String, branch: String },
    /// The content of one file of a repository.
    Content { token: String, repository: String, path: String, branch: String },
    /// Whether the path exists, and whether it is a directory.
    Inspect { path: String },
    /// Every entry under the directory, links followed.
    Walk { path: String },
    /// The content of a local file, as text.
    Read { path: String },
}

/// A request as the contracts see it.
pub enum FetchRequestView {
    Token { provider: Seq<char>, user_id: u128 },
    Access { token: Seq<char>, repository: Seq<char> },
    Tree { token: Seq<char>, repository: Seq<char>, branch: Seq<char> },
    Content { token: Seq<char>, repository: Seq<char>, path: Seq<char>, branch: Seq<char> },
    Inspect { path: Seq<char> },
    Walk { path: Seq<char> },
    Read { path: Seq<char> },
}

impl View for FetchRequest {
    type V = FetchRequestView;

    open spec fn view(&self) -> FetchRequestView {
        match self {
            FetchRequest::Token { provider, user_id } => FetchRequestView::Token {
                provider: provider@,
                user_id: *user_id,
            },
            FetchRequest::Access { token, repository } => FetchRequestView::Access {
                token: token@,
                repository: repository@,
            },
            FetchRequest::Tree { token, repository, branch } => FetchRequestView::Tree {
                token: token@,
                repository: repository@,
                branch: branch@,
            },
            FetchRequest::Content { token, repository, path, branch } => FetchRequestView::Content {
                token: token@,
                repository: repository@,
                path: path@,
                branch: branch@,
            },
            FetchRequest::Inspect { path } => FetchRequestView::Inspect { path: path@ },
            FetchRequest::Walk { path } => FetchRequestView::Walk { path: path@ },
            FetchRequest::Read { path } => FetchRequestView::Read { path: path@ },
        }
    }
}

/// The answer to a request.
#[derive(Debug)]
pub enum FetchReply {
    Token(Result<String, AppError>),
    Access(Result<bool, AppError>),
    Tree(Result<Vec<TreeEntry>, AppError>),
    Content(Result<String, AppError>),
    Inspect { exists: bool, is_dir: bool },
    Walk(Vec<LocalEntry>),
    /// The text of the file, or why it could not be read as text.
    Read(Result<String, String>),
}

/// An answer as the contracts see it.
pub enum FetchReplyView {
    Token(Result<Seq<char>, Failure>),
    Access(Result<bool, Failure>),
    Tree(Result<Seq<TreeEntryView>, Failure>),
    Content(Result<Seq<char>, Failure>),
    Inspect { exists: bool, is_dir: bool },
    Walk(Seq<LocalEntryView>),
    Read(Result<Seq<char>, Seq<char>>),
}

impl View for FetchReply {
    type V = FetchReplyView;

    open spec fn view(&self) -> FetchReplyView {
        match self {
            FetchReply::Token(r) => FetchReplyView::Token(
                match r {
                    Ok(t) => Ok(t@),
                    Err(e) => Err(e@),
                },
            ),
            FetchReply::Access(r) => FetchReplyView::Access(
                match r {
                    Ok(b) => Ok(*b),
                    Err(e) => Err(e@),
                },
            ),
            FetchReply::Tree(r) => FetchReplyView::Tree(
                match r {
                    Ok(t) => Ok(t.deep_view()),
                    Err(e) => Err(e@),
                },
            ),
            FetchReply::Content(r) => FetchReplyView::Content(
                match r {
                    Ok(t) => Ok(t@),
                    Err(e) => Err(e@),
                },
            ),
            FetchReply::Inspect { exists, is_dir } => FetchReplyView::Inspect {
                exists: *exists,
                is_dir: *is_dir,
            },
            FetchReply::Walk(entries) => FetchReplyView::Walk(entries.deep_view()),
            FetchReply::Read(r) => FetchReplyView::Read(
                match r {
                    Ok(t) => Ok(t@),
                    Err(e) => Err(e@),
                },
            ),
        }
    }
}

/// Where a fetch stands after a step.
#[derive(Debug)]
pub enum FetchStep {
    /// The connector needs this answered before it can go on.
    Ask(FetchRequest),
    /// The fetch is over. `skipped` counts the files that the options of the sync left
    /// out, `failed` those whose content could not be had.
    Done { documents: Vec<NormalizedDocument>, skipped: usize, failed: usize },
    /// The fetch failed as a whole.
    Failed(AppError),
}

/// A step as the contracts see it.
pub enum FetchStepView {
    Ask(FetchRequestView),
    Done { documents: Seq<NormalizedDocumentView>, skipped: nat, failed: nat },
    Failed(Failure),
}

impl View for FetchStep {
    type V = FetchStepView;

    open spec fn view(&self) -> FetchStepView {
        match self {
            FetchStep::Ask(request) => FetchStepView::Ask(request@),
            FetchStep::Done { documents, skipped, failed } => FetchStepView::Done {
                documents: documents.deep_view(),
                skipped: *skipped as nat,
                failed: *failed as nat,
            },
            FetchStep::Failed(e) => FetchStepView::Failed(e@),
        }
    }
}

/// The failure that answers a reply which the connector did not ask for.
pub open spec fn out_of_turn() -> Failure {
    Failure { kind: crate::error::ErrorKind::Internal, message: "Unexpected reply"@ }
}

/// The failure that answers a reply which the connector did not ask for.
pub fn unexpected_reply() -> (e: AppError)
    ensures
        e@ == out_of_turn(),
{
    AppError::Internal(String::from_str("Unexpected reply"))
}

/// Where a check of access stands after a step.
#[derive(Debug)]
pub enum AccessStep {
    /// The connector needs this answered before it can go on.
    Ask(FetchRequest),
    /// The check is over: the user has access to the source, or has not.
    Decided(bool),
    /// The check failed.
    Failed(AppError),
}

/// A step of a check as the contracts see it.
pub enum AccessStepView {
    Ask(FetchRequestView),
    Decided(bool),
    Failed(Failure),
}

impl View for AccessStep {
    type V = AccessStepView;

    open spec fn view(&self) -> AccessStepView {
        match self {
            AccessStep::Ask(request) => AccessStepView::Ask(request@),
            AccessStep::Decided(b) => AccessStepView::Decided(*b),
            AccessStep::Failed(e) => AccessStepView::Failed(e@),
        }
    }
}

/// Where a check of access stands.
#[derive(Debug, Clone, Copy, PartialEq, Eq, Structural)]
pub enum AccessStage {
    /// The token has been asked for.
    AwaitingToken,
    /// The host has been asked whether the token may read the repository.
    AwaitingAccess,
    /// It has been asked whether the directory exists.
    AwaitingInspect,
    /// The check is over.
    Closed,
}

/// A check of whether a user has access to a source.
#[derive(Debug)]
pub struct AccessCheck {
    /// The repository that the source names, if it names one.
    pub repository: Option<String>,
    pub stage: AccessStage,
}

/// A check as the contracts see it.
pub struct AccessCheckView {
    pub repository: Option<Seq<char>>,
    pub stage: AccessStage,
}

impl View for AccessCheck {
    type V = AccessCheckView;

    open spec fn view(&self) -> AccessCheckView {
        AccessCheckView { repository: self.repository.deep_view(), stage: self.stage }
    }
}

/// The failure of an operation on a source that names no repository.
pub open spec fn missing_repository() -> Failure {
    Failure { kind: crate::error::ErrorKind::BadRequest, message: "Missing repository in config"@ }
}

impl AccessCheckView {
    /// The same check when it is over.
    pub open spec fn closed(self) -> AccessCheckView {
        AccessCheckView { stage: AccessStage::Closed, ..self }
    }

    /// What the check says when it is handed `reply`. A token opens the question to the
    /// host, unless the source names no repository; the host's answer decides, and so does
    /// the answer about a directory, which must exist and be a directory. A failure to get
    /// the token or the host's answer ends the check with that failure, and so does a
    /// reply that was not asked for.
    pub open spec fn says(self, reply: FetchReplyView) -> AccessStepView {
        match (self.stage, reply) {
            (AccessStage::AwaitingToken, FetchReplyView::Token(Ok(token))) => match self.repository {
                Some(repository) => AccessStepView::Ask(
                    FetchRequestView::Access { token, repository },
                ),
                None => AccessStepView::Failed(missing_repository()),
            },
            (AccessStage::AwaitingToken, FetchReplyView::Token(Err(e))) => AccessStepView::Failed(e),
            (AccessStage::AwaitingAccess, FetchReplyView::Access(Ok(granted))) => AccessStepView::Decided(
                granted,
            ),
            (AccessStage::AwaitingAccess, FetchReplyView::Access(Err(e))) => AccessStepView::Failed(
                e,
            ),
            (
                AccessStage::AwaitingInspect,
                FetchReplyView::Inspect { exists, is_dir },
            ) => AccessStepView::Decided(exists && is_dir),
            _ => AccessStepView::Failed(out_of_turn()),
        }
    }

    /// The stage that the check is at after it has said `out`.
    pub open spec fn stage_after(out: AccessStepView) -> AccessStage {
        match out {
            AccessStepView::Ask(request) => AccessStage::AwaitingAccess,
            _ => AccessStage::Closed,
        }
    }
}

impl AccessCheck {
    /// Hands the check the answer to what it asked for last, and says what comes next.
    pub fn advance(self, reply: FetchReply) -> (r: (AccessCheck, AccessStep))
        ensures
            r.1@ == self@.says(reply@),
            r.0@ == (AccessCheckView {
                repository: self@.repository,
                stage: AccessCheckView::stage_after(r.1@),
            }),
    {
        let AccessCheck { repository, stage } = self;
        let out = match (stage, reply) {
            (AccessStage::AwaitingToken, FetchReply::Token(Ok(token))) => match &repository {
                Some(name) => AccessStep::Ask(
                    FetchRequest::Access { token, repository: name.clone() },
                ),
                None => AccessStep::Failed(
                    AppError::BadRequest(String::from_str("Missing repository in config")),
                ),
            },
            (AccessStage::AwaitingToken, FetchReply::Token(Err(e))) => AccessStep::Failed(e),
            (AccessStage::AwaitingAccess, FetchReply::Access(Ok(granted))) => AccessStep::Decided(
                granted,
            ),
            (AccessStage::AwaitingAccess, FetchReply::Access(Err(e))) => AccessStep::Failed(e),
            (AccessStage::AwaitingInspect, FetchReply::Inspect { exists, is_dir }) => AccessStep::Decided(
                exists && is_dir,
            ),
            _ => AccessStep::Failed(unexpected_reply()),
        };
        let stage = match &out {
            AccessStep::Ask(_) => AccessStage::AwaitingAccess,
            _ => AccessStage::Closed,
        };
        (AccessCheck { repository, stage }, out)
    }
}

} // verus!
