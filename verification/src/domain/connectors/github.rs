//! The connector for the version-control host: which files of a repository are fetched,
//! and what document each of them becomes.

use vstd::prelude::*;
use crate::clients::github_api::TreeEntry;
use crate::clients::github_api::TreeEntryView;
use crate::clients::AuthClient;
use crate::clients::GitHubApiClient;
use crate::clock::Timestamp;
use crate::domain::connectors::filetype::content_type_for_file;
use crate::domain::connectors::filetype::file_content_type;
use crate::domain::connectors::filetype::file_is_binary;
use crate::domain::connectors::filetype::file_language;
use crate::domain::connectors::filetype::is_binary_for_file;
use crate::domain::connectors::filetype::language_for_file;
use crate::domain::connectors::limit::byte_limit;
use crate::domain::connectors::limit::byte_limit_of;
use crate::domain::connectors::session::missing_repository;
use crate::domain::connectors::session::out_of_turn;
use crate::domain::connectors::session::AccessCheck;
use crate::domain::connectors::session::AccessCheckView;
use crate::domain::connectors::session::AccessStage;
use crate::domain::connectors::session::AccessStep;
use crate::domain::connectors::session::AccessStepView;
use crate::domain::connectors::session::unexpected_reply;
use crate::domain::connectors::session::FetchReply;
use crate::domain::connectors::session::FetchReplyView;
use crate::domain::connectors::session::FetchRequest;
use crate::domain::connectors::session::FetchRequestView;
use crate::domain::connectors::session::FetchStep;
use crate::domain::connectors::session::FetchStepView;
use crate::domain::models::clone_texts;
use crate::domain::models::DataSource;
use crate::domain::models::DataSourceView;
use crate::error::AppError;
use crate::error::Failure;
use crate::domain::models::ConnectorType;
use crate::domain::models::ContentType;
use crate::domain::models::NormalizedDocument;
use crate::domain::models::NormalizedDocumentView;
use crate::ids::random_form;
use crate::json::texts;
use crate::json::JsonModel;
use crate::json::JsonNumber;
use crate::json::JsonValue;
use crate::text::after_last;
use crate::text::lowercase;
use crate::text::occurs_in;
use crate::text::text_after_last;
use crate::text::text_contains;
use crate::text::text_has_char;
use crate::text::text_split_last;
use crate::text::to_lowercase;

verus! {

/// Which files of a repository a sync takes.
#[derive(Debug)]
pub struct SyncOptions {
    /// Where this list is not empty, only files with one of these extensions are taken
    /// (`rs`, `md`, `py`; upper or lower case).
    pub include_languages: Vec<String>,
    /// Files whose path holds one of these texts are left out.
    pub exclude_paths: Vec<String>,
    /// Files larger than so many mebibytes are left out.
    pub max_file_size_mb: Option<JsonNumber>,
}

/// Sync options as the contracts see them.
pub struct SyncOptionsView {
    pub include_languages: Seq<Seq<char>>,
    pub exclude_paths: Seq<Seq<char>>,
    pub max_file_size_mb: Option<JsonNumber>,
}

impl View for SyncOptions {
    type V = SyncOptionsView;

    open spec fn view(&self) -> SyncOptionsView {
        SyncOptionsView {
            include_languages: self.include_languages.deep_view(),
            exclude_paths: self.exclude_paths.deep_view(),
            max_file_size_mb: self.max_file_size_mb,
        }
    }
}

impl Clone for SyncOptions {
    fn clone(&self) -> (r: Self)
        ensures
            r@ == self@,
    {
        SyncOptions {
            include_languages: clone_texts(&self.include_languages),
            exclude_paths: clone_texts(&self.exclude_paths),
            max_file_size_mb: self.max_file_size_mb,
        }
    }
}

impl Default for SyncOptions {
    fn default() -> (r: Self)
        ensures
            r@ == SyncOptionsView::unrestricted(),
    {
        let r = SyncOptions {
            include_languages: Vec::new(),
            exclude_paths: Vec::new(),
            max_file_size_mb: None,
        };
        assert(r@.include_languages =~= Seq::empty());
        assert(r@.exclude_paths =~= Seq::empty());
        r
    }
}

/// Whether a repository path names a file with an extension: its last dot lies in its
/// last segment. A path without a dot names a file without an extension, and so does one
/// whose dots all lie in the names of directories.
pub open spec fn has_extension(path: Seq<char>) -> bool {
    path.contains('.') && !after_last(path, '.').contains('/')
}

/// The extension of the file that a repository path names, in lower case: what follows
/// the last dot; nothing for a file without an extension.
pub open spec fn extension(path: Seq<char>) -> Option<Seq<char>> {
    if has_extension(path) {
        Some(lowercase(after_last(path, '.')))
    } else {
        None
    }
}

/// The extension of the file that a repository path names, in lower case.
pub fn path_extension(path: &str) -> (r: Option<String>)
    ensures
        r.deep_view() == extension(path@),
{
    match text_split_last(path, '.') {
        Some((_, dotted)) => {
            if text_has_char(dotted.as_str(), '/') {
                None
            } else {
                Some(to_lowercase(dotted.as_str()))
            }
        },
        None => None,
    }
}

/// The texts of a list value; nothing for a value that is no list.
pub open spec fn list_texts(value: JsonModel) -> Seq<Seq<char>> {
    match value {
        JsonModel::List(items) => texts(items),
        _ => Seq::empty(),
    }
}

/// The texts of the list that the configuration holds under `key`.
pub open spec fn listed(config: JsonModel, key: Seq<char>) -> Seq<Seq<char>> {
    match config.member(key) {
        Some(value) => list_texts(value),
        None => Seq::empty(),
    }
}

/// The options that a configuration asks for. The extensions stand under
/// `include_languages`, or under `file_extensions` where the configuration has no member
/// of the first name; the excluded texts under `exclude_paths`; the size limit under
/// `max_file_size_mb`. A member of the wrong kind counts for nothing.
pub open spec fn options_of(config: JsonModel) -> SyncOptionsView {
    SyncOptionsView {
        include_languages: if config.member("include_languages"@) is Some {
            listed(config, "include_languages"@)
        } else {
            listed(config, "file_extensions"@)
        },
        exclude_paths: listed(config, "exclude_paths"@),
        max_file_size_mb: match config.member("max_file_size_mb"@) {
            Some(value) => value.number(),
            None => None,
        },
    }
}

impl SyncOptionsView {
    /// Options that leave nothing out.
    pub open spec fn unrestricted() -> SyncOptionsView {
        SyncOptionsView {
            include_languages: Seq::empty(),
            exclude_paths: Seq::empty(),
            max_file_size_mb: None,
        }
    }

    /// A file of a known size is within the limit if there is no limit or the size does
    /// not exceed it; a file of unknown size always is.
    pub open spec fn within_limit(self, size: Option<u64>) -> bool {
        match (self.max_file_size_mb, size) {
            (Some(max), Some(bytes)) => bytes <= byte_limit(max),
            _ => true,
        }
    }

    /// No excluded text occurs in the path.
    pub open spec fn not_excluded(self, path: Seq<char>) -> bool {
        forall|i: int|
            0 <= i < self.exclude_paths.len() ==> !occurs_in(#[trigger] self.exclude_paths[i], path)
    }

    /// The file at the path has an extension, and it is one of the listed ones, whatever
    /// the case of either. A file without an extension matches no entry of the list.
    pub open spec fn language_listed(self, path: Seq<char>) -> bool {
        exists|i: int|
            0 <= i < self.include_languages.len() && Some(
                lowercase(#[trigger] self.include_languages[i]),
            ) == extension(path)
    }

    /// The file at `path`, of the size `size`, is taken: it is within the size limit,
    /// its path holds no excluded text, and where extensions are listed, its extension is
    /// among them.
    pub open spec fn admits(self, path: Seq<char>, size: Option<u64>) -> bool {
        &&& self.within_limit(size)
        &&& self.not_excluded(path)
        &&& (self.include_languages.len() > 0 ==> self.language_listed(path))
    }
}

/// The texts of a list value.
fn texts_of(value: &JsonValue) -> (r: Vec<String>)
    ensures
        r.deep_view() == list_texts(value@),
{
    match value.as_list() {
        Some(items) => JsonValue::texts_in(items),
        None => {
            let r: Vec<String> = Vec::new();
            assert(r.deep_view() =~= Seq::empty());
            r
        },
    }
}

/// The texts of the list that the configuration holds under `key`.
fn listed_in(config: &JsonValue, key: &str) -> (r: Vec<String>)
    ensures
        r.deep_view() == listed(config@, key@),
{
    match config.get(key) {
        Some(value) => texts_of(value),
        None => {
            let r: Vec<String> = Vec::new();
            assert(r.deep_view() =~= Seq::empty());
            r
        },
    }
}

impl SyncOptions {
    /// The options that the configuration of a source asks for.
    pub fn from_config(config: &JsonValue) -> (r: Self)
        ensures
            r@ == options_of(config@),
    {
        let include_languages = match config.get("include_languages") {
            Some(value) => texts_of(value),
            None => listed_in(config, "file_extensions"),
        };
        let exclude_paths = listed_in(config, "exclude_paths");
        let max_file_size_mb = match config.get("max_file_size_mb") {
            Some(value) => value.as_number(),
            None => None,
        };
        SyncOptions { include_languages, exclude_paths, max_file_size_mb }
    }

    /// Whether the file at `path`, of the size `file_size` where it is known, is taken.
    pub fn should_include(&self, path: &str, file_size: Option<u64>) -> (r: bool)
        ensures
            r == self@.admits(path@, file_size),
    {
        match (self.max_file_size_mb, file_size) {
            (Some(max), Some(size)) => {
                if size > byte_limit_of(max) {
                    return false;
                }
            },
            _ => {},
        }
        let mut i: usize = 0;
        while i < self.exclude_paths.len()
            invariant
                i <= self.exclude_paths.len(),
                forall|j: int|
                    0 <= j < i ==> !occurs_in(#[trigger] self@.exclude_paths[j], path@),
            decreases self.exclude_paths.len() - i,
        {
            if text_contains(path, self.exclude_paths[i].as_str()) {
                assert(occurs_in(self@.exclude_paths[i as int], path@));
                return false;
            }
            i += 1;
        }
        assert(self@.within_limit(file_size));
        assert(self@.not_excluded(path@));
        if self.include_languages.len() > 0 {
            let ext = match path_extension(path) {
                Some(ext) => ext,
                None => {
                    return false;
                },
            };
            let mut lowered: Vec<String> = Vec::new();
            let mut k: usize = 0;
            while k < self.include_languages.len()
                invariant
                    k <= self.include_languages.len(),
                    lowered.len() == k,
                    forall|j: int|
                        0 <= j < k ==> (#[trigger] lowered@[j])@ == lowercase(
                            self@.include_languages[j],
                        ),
                decreases self.include_languages.len() - k,
            {
                lowered.push(to_lowercase(self.include_languages[k].as_str()));
                k += 1;
            }
            let listed = Self::lists_extension(&lowered, ext.as_str());
            proof {
                if listed {
                    let i = choose|i: int| 0 <= i < lowered.len() && (#[trigger] lowered@[i])@ == ext@;
                    assert(Some(lowercase(self@.include_languages[i])) == extension(path@));
                } else {
                    assert forall|i: int| 0 <= i < self@.include_languages.len() implies Some(
                        lowercase(#[trigger] self@.include_languages[i]),
                    ) != extension(path@) by {
                        assert(lowered@[i]@ != ext@);
                    }
                }
            }
            return listed;
        }
        true
    }

    /// Whether one of `extensions` is `ext`, letter for letter.
    pub fn lists_extension(extensions: &Vec<String>, ext: &str) -> (r: bool)
        ensures
            r == exists|i: int| 0 <= i < extensions.len() && (#[trigger] extensions@[i])@ == ext@,
    {
        let mut k: usize = 0;
        while k < extensions.len()
            invariant
                k <= extensions.len(),
                forall|j: int| 0 <= j < k ==> (#[trigger] extensions@[j])@ != ext@,
            decreases extensions.len() - k,
        {
            if extensions[k].as_str().eq(ext) {
                return true;
            }
            k += 1;
        }
        false
    }
}

/// The connector for the version-control host.
#[derive(Debug)]
pub struct GitHubConnector {
    pub auth_client: AuthClient,
    pub github_client: GitHubApiClient,
}

/// Whether a tree entry is a file.
pub open spec fn is_file(entry: TreeEntryView) -> bool {
    entry.file_type == "blob"@
}

/// Whether a tree entry is left out whatever the options say: it is no file,
/// or its extension is on the list of binary and media files.
pub open spec fn never_fetched(entry: TreeEntryView) -> bool {
    !is_file(entry) || file_is_binary(extension(entry.path))
}

/// Whether the content of a tree entry is fetched under the given options.
pub open spec fn wanted(entry: TreeEntryView, options: SyncOptionsView) -> bool {
    !never_fetched(entry) && options.admits(entry.path, entry.size)
}

/// Whether a tree entry is a text file that the options leave out.
pub open spec fn filtered(entry: TreeEntryView, options: SyncOptionsView) -> bool {
    !never_fetched(entry) && !options.admits(entry.path, entry.size)
}

/// The entries of a tree whose content is fetched, in the order of the tree.
pub open spec fn selected(entries: Seq<TreeEntryView>, options: SyncOptionsView) -> Seq<
    TreeEntryView,
>
    decreases entries.len(),
{
    if entries.len() == 0 {
        Seq::empty()
    } else {
        let rest = selected(entries.drop_last(), options);
        if wanted(entries.last(), options) {
            rest.push(entries.last())
        } else {
            rest
        }
    }
}

/// How many text files of a tree the options leave out.
pub open spec fn filtered_count(entries: Seq<TreeEntryView>, options: SyncOptionsView) -> nat
    decreases entries.len(),
{
    if entries.len() == 0 {
        0
    } else {
        filtered_count(entries.drop_last(), options) + if filtered(entries.last(), options) {
            1nat
        } else {
            0nat
        }
    }
}

/// The metadata of a document of the host: where it lies, its hash and its size.
pub open spec fn metadata_of(repository: Seq<char>, branch: Seq<char>, entry: TreeEntryView) -> JsonModel {
    JsonModel::Object(
        seq![
            ("repository"@, JsonModel::Text(repository)),
            ("branch"@, JsonModel::Text(branch)),
            ("sha"@, JsonModel::Text(entry.sha)),
            (
                "size"@,
                match entry.size {
                    Some(bytes) => JsonModel::Number(JsonNumber::Unsigned(bytes)),
                    None => JsonModel::Null,
                },
            ),
        ],
    )
}

/// The document that a file of a repository becomes, made at `at` under the identity `id`:
/// it is known by its hash and named by the last segment of its path; its content type
/// and its language follow from its extension.
pub open spec fn normalized(
    id: u128,
    at: Timestamp,
    source_id: u128,
    repository: Seq<char>,
    branch: Seq<char>,
    entry: TreeEntryView,
    content: Seq<char>,
) -> NormalizedDocumentView {
    NormalizedDocumentView {
        id,
        source_id,
        connector_type: ConnectorType::GitHub,
        external_id: entry.sha,
        name: after_last(entry.path, '/'),
        path: Some(entry.path),
        content,
        content_type: file_content_type(extension(entry.path)),
        metadata: metadata_of(repository, branch, entry),
        chunks: None,
        block_type: None,
        language: file_language(extension(entry.path)),
        created_at: at,
        updated_at: at,
    }
}

/// Whether `doc` is the document of the file `entry` with the content `content`.
pub open spec fn document_of(
    doc: NormalizedDocumentView,
    source_id: u128,
    repository: Seq<char>,
    branch: Seq<char>,
    entry: TreeEntryView,
    content: Seq<char>,
) -> bool {
    doc == normalized(doc.id, doc.created_at, source_id, repository, branch, entry, content)
}

impl GitHubConnector {
    pub fn new(auth_client: AuthClient, github_client: GitHubApiClient) -> (r: Self)
        ensures
            r.auth_client@ == auth_client@,
            r.github_client == github_client,
    {
        GitHubConnector { auth_client, github_client }
    }

    /// The kind of source that this connector serves.
    pub fn connector_type(&self) -> (r: ConnectorType)
        ensures
            r == ConnectorType::GitHub,
    {
        ConnectorType::GitHub
    }

    /// Begins to fetch what the source holds for the user: reads the options, the
    /// repository and the branch from the configuration of the source, and asks for a
    /// token.
    pub fn fetch_content(&self, source: &DataSource, user_id: u128) -> (r: (GitHubFetch, FetchStep))
        ensures
            r.0@ == GitHubFetchView::opening(source@, user_id),
            r.0@.well_formed(),
            r.1@ == FetchStepView::Ask(
                FetchRequestView::Token { provider: "github"@, user_id },
            ),
    {
        let options = SyncOptions::from_config(&source.config);
        let repository = source.config.text_at("repository");
        let branch = match source.config.text_at("branch") {
            Some(branch) => branch,
            None => String::from_str("main"),
        };
        let fetch = GitHubFetch {
            source_id: source.id,
            user_id,
            repository,
            branch,
            options,
            stage: GitHubStage::AwaitingToken,
        };
        let request = FetchRequest::Token { provider: String::from_str("github"), user_id };
        (fetch, FetchStep::Ask(request))
    }

    /// Begins to check whether the user has access to the source: reads the repository
    /// from the configuration of the source, and asks for a token.
    pub fn validate_access(&self, source: &DataSource, user_id: u128) -> (r: (AccessCheck, AccessStep))
        ensures
            r.0@ == (AccessCheckView {
                repository: source@.config.text_at("repository"@),
                stage: AccessStage::AwaitingToken,
            }),
            r.1@ == AccessStepView::Ask(
                FetchRequestView::Token { provider: "github"@, user_id },
            ),
    {
        let check = AccessCheck {
            repository: source.config.text_at("repository"),
            stage: AccessStage::AwaitingToken,
        };
        let request = FetchRequest::Token { provider: String::from_str("github"), user_id };
        (check, AccessStep::Ask(request))
    }

    /// The extension of the file that a repository path names, in lower case; nothing for
    /// a file without an extension.
    pub fn extension_of(path: &str) -> (r: Option<String>)
        ensures
            r.deep_view() == extension(path@),
    {
        path_extension(path)
    }

    /// The content type of the file at `path`, told from its extension; unknown for a
    /// file without an extension.
    pub fn get_content_type(path: &str) -> (r: ContentType)
        ensures
            r == file_content_type(extension(path@)),
    {
        let ext = path_extension(path);
        content_type_for_file(&ext)
    }

    /// The language of the file at `path`, told from its extension; none for a file
    /// without an extension.
    pub fn get_language(path: &str) -> (r: Option<String>)
        ensures
            r.deep_view() == file_language(extension(path@)),
    {
        let ext = path_extension(path);
        language_for_file(&ext)
    }

    /// Whether the file at `path` is left out as a binary or media file: its extension is
    /// on the list. A file without an extension is not.
    pub fn is_binary_file(path: &str) -> (r: bool)
        ensures
            r == file_is_binary(extension(path@)),
    {
        let ext = path_extension(path);
        is_binary_for_file(&ext)
    }

    /// Whether the content of `entry` is fetched under `options`.
    pub fn wants(entry: &TreeEntry, options: &SyncOptions) -> (r: bool)
        ensures
            r == wanted(entry@, options@),
    {
        if !entry.file_type.as_str().eq("blob") {
            return false;
        }
        if Self::is_binary_file(entry.path.as_str()) {
            return false;
        }
        options.should_include(entry.path.as_str(), entry.size)
    }

    /// The entries of `tree` whose content is fetched under `options`, in the order of the
    /// tree, and the number of text files that the options leave out.
    pub fn select(tree: &Vec<TreeEntry>, options: &SyncOptions) -> (r: (Vec<TreeEntry>, usize))
        ensures
            r.0.deep_view() == selected(tree.deep_view(), options@),
            r.1 == filtered_count(tree.deep_view(), options@),
    {
        let mut chosen: Vec<TreeEntry> = Vec::new();
        let mut skipped: usize = 0;
        let mut i: usize = 0;
        assert(tree.deep_view().take(0) =~= Seq::empty());
        assert(chosen.deep_view() =~= Seq::empty());
        while i < tree.len()
            invariant
                i <= tree.len(),
                skipped <= i,
                chosen.deep_view() == selected(tree.deep_view().take(i as int), options@),
                skipped == filtered_count(tree.deep_view().take(i as int), options@),
            decreases tree.len() - i,
        {
            let ghost before = tree.deep_view().take(i as int);
            let ghost after = tree.deep_view().take(i + 1);
            assert(after.drop_last() =~= before);
            assert(after.last() == tree@[i as int]@);
            let entry = &tree[i];
            if Self::wants(entry, options) {
                let ghost old_chosen = chosen.deep_view();
                chosen.push(entry.clone());
                assert(chosen.deep_view() =~= old_chosen.push(entry@));
            } else if entry.file_type.as_str().eq("blob") && !Self::is_binary_file(
                entry.path.as_str(),
            ) {
                skipped += 1;
            }
            i += 1;
        }
        assert(tree.deep_view().take(tree.len() as int) =~= tree.deep_view());
        (chosen, skipped)
    }

    /// The document that the file `entry` of the repository becomes, with the content
    /// `content`, under a fresh identity and made now.
    pub fn document(
        source_id: u128,
        repository: &str,
        branch: &str,
        entry: &TreeEntry,
        content: String,
    ) -> (doc: NormalizedDocument)
        ensures
            random_form(doc.id),
            document_of(doc@, source_id, repository@, branch@, entry@, content@),
    {
        let name = text_after_last(entry.path.as_str(), '/');
        let mut doc = NormalizedDocument::new(
            source_id,
            ConnectorType::GitHub,
            entry.sha.clone(),
            name,
            content,
        );
        doc.path = Some(entry.path.clone());
        doc.content_type = Self::get_content_type(entry.path.as_str());
        doc.language = Self::get_language(entry.path.as_str());
        let mut members: Vec<(String, JsonValue)> = Vec::new();
        members.push((String::from_str("repository"), JsonValue::text(repository)));
        members.push((String::from_str("branch"), JsonValue::text(branch)));
        members.push((String::from_str("sha"), JsonValue::text(entry.sha.as_str())));
        members.push((String::from_str("size"), JsonValue::count(entry.size)));
        assert(members.deep_view() =~= metadata_of(repository@, branch@, entry@)->Object_0);
        doc.metadata = JsonValue::record(members);
        doc
    }
}

/// Where a fetch from the host stands.
#[derive(Debug)]
pub enum GitHubStage {
    /// The token has been asked for.
    AwaitingToken,
    /// The tree has been asked for.
    AwaitingTree { token: String },
    /// The content of `entries[at]` has been asked for. The entries are the selected
    /// ones; those before `at` have been dealt with.
    AwaitingContent {
        token: String,
        entries: Vec<TreeEntry>,
        at: usize,
        documents: Vec<NormalizedDocument>,
        skipped: usize,
        failed: usize,
    },
    /// The fetch is over.
    Closed,
}

/// A stage as the contracts see it.
pub enum GitHubStageView {
    AwaitingToken,
    AwaitingTree { token: Seq<char> },
    AwaitingContent {
        token: Seq<char>,
        entries: Seq<TreeEntryView>,
        at: nat,
        documents: Seq<NormalizedDocumentView>,
        skipped: nat,
        failed: nat,
    },
    Closed,
}

impl View for GitHubStage {
    type V = GitHubStageView;

    open spec fn view(&self) -> GitHubStageView {
        match self {
            GitHubStage::AwaitingToken => GitHubStageView::AwaitingToken,
            GitHubStage::AwaitingTree { token } => GitHubStageView::AwaitingTree { token: token@ },
            GitHubStage::AwaitingContent {
                token,
                entries,
                at,
                documents,
                skipped,
                failed,
            } => GitHubStageView::AwaitingContent {
                token: token@,
                entries: entries.deep_view(),
                at: *at as nat,
                documents: documents.deep_view(),
                skipped: *skipped as nat,
                failed: *failed as nat,
            },
            GitHubStage::Closed => GitHubStageView::Closed,
        }
    }
}

/// A fetch of the files of one repository, from the request for a token to the documents.
#[derive(Debug)]
pub struct GitHubFetch {
    source_id: u128,
    user_id: u128,
    repository: Option<String>,
    branch: String,
    options: SyncOptions,
    stage: GitHubStage,
}

/// A fetch as the contracts see it.
pub struct GitHubFetchView {
    pub source_id: u128,
    pub user_id: u128,
    /// The repository that the source names, if it names one.
    pub repository: Option<Seq<char>>,
    /// The branch that the source names; `main` where it names none.
    pub branch: Seq<char>,
    pub options: SyncOptionsView,
    pub stage: GitHubStageView,
}

impl GitHubFetchView {
    /// The fetch as it begins for a source: nothing but the token has been asked for.
    pub open spec fn opening(source: DataSourceView, user_id: u128) -> GitHubFetchView {
        GitHubFetchView {
            source_id: source.id,
            user_id,
            repository: source.config.text_at("repository"@),
            branch: match source.config.text_at("branch"@) {
                Some(branch) => branch,
                None => "main"@,
            },
            options: options_of(source.config),
            stage: GitHubStageView::AwaitingToken,
        }
    }

    /// The same fetch at another stage.
    pub open spec fn at_stage(self, stage: GitHubStageView) -> GitHubFetchView {
        GitHubFetchView { stage, ..self }
    }

    /// The request for the content of `entry`.
    pub open spec fn content_request(self, token: Seq<char>, entry: TreeEntryView) -> FetchStepView {
        FetchStepView::Ask(
            FetchRequestView::Content {
                token,
                repository: self.repository->0,
                path: entry.path,
                branch: self.branch,
            },
        )
    }

    /// What holds of every fetch that the library hands out. While contents are awaited,
    /// every entry is a wanted one, each entry before the current one has given a document
    /// or counts as failed, and each document stems from one of them.
    pub open spec fn well_formed(self) -> bool {
        match self.stage {
            GitHubStageView::AwaitingTree { token } => self.repository is Some,
            GitHubStageView::AwaitingContent { token, entries, at, documents, skipped, failed } => {
                &&& self.repository is Some
                &&& at < entries.len()
                &&& documents.len() + failed == at
                &&& forall|i: int|
                    0 <= i < entries.len() ==> wanted(#[trigger] entries[i], self.options)
                &&& forall|j: int|
                    0 <= j < documents.len() ==> self.stems_from(#[trigger] documents[j], entries)
            },
            _ => true,
        }
    }

    /// `doc` is the document of one of `entries`.
    pub open spec fn stems_from(self, doc: NormalizedDocumentView, entries: Seq<TreeEntryView>) -> bool {
        exists|i: int|
            0 <= i < entries.len() && document_of(
                doc,
                self.source_id,
                self.repository->0,
                self.branch,
                #[trigger] entries[i],
                doc.content,
            )
    }

    /// The step that follows when the content of the current entry has arrived or has
    /// failed to: `documents` and `failed` are the documents and the failures so far,
    /// this entry included.
    pub open spec fn moved_on(
        self,
        token: Seq<char>,
        entries: Seq<TreeEntryView>,
        at: nat,
        documents: Seq<NormalizedDocumentView>,
        skipped: nat,
        failed: nat,
        next: GitHubFetchView,
        out: FetchStepView,
    ) -> bool {
        if at + 1 < entries.len() {
            &&& next == self.at_stage(
                GitHubStageView::AwaitingContent {
                    token,
                    entries,
                    at: at + 1,
                    documents,
                    skipped,
                    failed,
                },
            )
            &&& out == self.content_request(token, entries[at as int + 1])
        } else {
            &&& next == self.at_stage(GitHubStageView::Closed)
            &&& out == FetchStepView::Done { documents, skipped, failed }
        }
    }

    /// Whether the fetch `self`, handed `reply`, may go on as `next` and say `out`.
    ///
    /// A token opens the request for the tree, unless the source names no repository.
    /// The tree opens the request for the content of the first selected entry, or ends
    /// the fetch where nothing is selected. Each content adds a document and each failure
    /// to get one is counted; either way the next entry is asked for, and after the last
    /// the fetch is done. A failure to get the token or the tree ends the fetch with that
    /// failure, and so does a reply that was not asked for.
    pub open spec fn step(self, reply: FetchReplyView, next: GitHubFetchView, out: FetchStepView) -> bool {
        match (self.stage, reply) {
            (GitHubStageView::AwaitingToken, FetchReplyView::Token(Ok(token))) => match self.repository {
                Some(repository) => {
                    &&& next == self.at_stage(GitHubStageView::AwaitingTree { token })
                    &&& out == FetchStepView::Ask(
                        FetchRequestView::Tree { token, repository, branch: self.branch },
                    )
                },
                None => {
                    &&& next == self.at_stage(GitHubStageView::Closed)
                    &&& out == FetchStepView::Failed(missing_repository())
                },
            },
            (GitHubStageView::AwaitingToken, FetchReplyView::Token(Err(e))) => {
                &&& next == self.at_stage(GitHubStageView::Closed)
                &&& out == FetchStepView::Failed(e)
            },
            (GitHubStageView::AwaitingTree { token }, FetchReplyView::Tree(Ok(tree))) => {
                let entries = selected(tree, self.options);
                let skipped = filtered_count(tree, self.options);
                if self.repository is Some && entries.len() > 0 {
                    &&& next == self.at_stage(
                        GitHubStageView::AwaitingContent {
                            token,
                            entries,
                            at: 0,
                            documents: Seq::empty(),
                            skipped,
                            failed: 0,
                        },
                    )
                    &&& out == self.content_request(token, entries[0])
                } else {
                    &&& next == self.at_stage(GitHubStageView::Closed)
                    &&& out == FetchStepView::Done { documents: Seq::empty(), skipped, failed: 0 }
                }
            },
            (GitHubStageView::AwaitingTree { token }, FetchReplyView::Tree(Err(e))) => {
                &&& next == self.at_stage(GitHubStageView::Closed)
                &&& out == FetchStepView::Failed(e)
            },
            (
                GitHubStageView::AwaitingContent { token, entries, at, documents, skipped, failed },
                FetchReplyView::Content(Ok(content)),
            ) => {
                exists|doc: NormalizedDocumentView|
                    {
                        &&& document_of(
                            doc,
                            self.source_id,
                            self.repository->0,
                            self.branch,
                            entries[at as int],
                            content,
                        )
                        &&& self.moved_on(
                            token,
                            entries,
                            at,
                            documents.push(doc),
                            skipped,
                            failed,
                            next,
                            out,
                        )
                    }
            },
            (
                GitHubStageView::AwaitingContent { token, entries, at, documents, skipped, failed },
                FetchReplyView::Content(Err(e)),
            ) => self.moved_on(token, entries, at, documents, skipped, failed + 1, next, out),
            _ => {
                &&& next == self.at_stage(GitHubStageView::Closed)
                &&& out == FetchStepView::Failed(out_of_turn())
            },
        }
    }
}

impl View for GitHubFetch {
    type V = GitHubFetchView;

    closed spec fn view(&self) -> GitHubFetchView {
        GitHubFetchView {
            source_id: self.source_id,
            user_id: self.user_id,
            repository: self.repository.deep_view(),
            branch: self.branch@,
            options: self.options@,
            stage: self.stage@,
        }
    }
}

impl GitHubFetch {
    #[verifier::type_invariant]
    spec fn sound(self) -> bool {
        self@.well_formed()
    }

    /// Hands the fetch the answer to what it asked for last, and says what comes next.
    pub fn advance(self, reply: FetchReply) -> (r: (GitHubFetch, FetchStep))
        ensures
            self@.step(reply@, r.0@, r.1@),
            r.0@.well_formed(),
    {
        proof {
            use_type_invariant(&self);
        }
        let ghost before = self@;
        let ghost answer = reply@;
        assert(before.well_formed());
        let GitHubFetch { source_id, user_id, repository, branch, options, stage } = self;
        assert(before.stage == stage@);
        assert(before.repository == repository.deep_view());
        match (stage, reply) {
            (GitHubStage::AwaitingToken, FetchReply::Token(Ok(token))) => {
                match &repository {
                    Some(name) => {
                        let request = FetchRequest::Tree {
                            token: token.clone(),
                            repository: name.clone(),
                            branch: branch.clone(),
                        };
                        let next = GitHubFetch {
                            source_id,
                            user_id,
                            repository,
                            branch,
                            options,
                            stage: GitHubStage::AwaitingTree { token },
                        };
                        (next, FetchStep::Ask(request))
                    },
                    None => {
                        let next = GitHubFetch {
                            source_id,
                            user_id,
                            repository,
                            branch,
                            options,
                            stage: GitHubStage::Closed,
                        };
                        let e = AppError::BadRequest(String::from_str("Missing repository in config"));
                        (next, FetchStep::Failed(e))
                    },
                }
            },
            (GitHubStage::AwaitingToken, FetchReply::Token(Err(e))) => {
                let next = GitHubFetch {
                    source_id,
                    user_id,
                    repository,
                    branch,
                    options,
                    stage: GitHubStage::Closed,
                };
                (next, FetchStep::Failed(e))
            },
            (GitHubStage::AwaitingTree { token }, FetchReply::Tree(Ok(tree))) => {
                let (entries, skipped) = GitHubConnector::select(&tree, &options);
                proof {
                    lemma_selected_are_wanted(tree.deep_view(), options@);
                }
                let request = match &repository {
                    Some(name) => if entries.len() > 0 {
                        Some(
                            FetchRequest::Content {
                                token: token.clone(),
                                repository: name.clone(),
                                path: entries[0].path.clone(),
                                branch: branch.clone(),
                            },
                        )
                    } else {
                        None
                    },
                    None => None,
                };
                match request {
                    Some(request) => {
                        let documents: Vec<NormalizedDocument> = Vec::new();
                        assert(documents.deep_view() =~= Seq::empty());
                        let next = GitHubFetch {
                            source_id,
                            user_id,
                            repository,
                            branch,
                            options,
                            stage: GitHubStage::AwaitingContent {
                                token,
                                entries,
                                at: 0,
                                documents,
                                skipped,
                                failed: 0,
                            },
                        };
                        (next, FetchStep::Ask(request))
                    },
                    None => {
                        let documents: Vec<NormalizedDocument> = Vec::new();
                        assert(documents.deep_view() =~= Seq::empty());
                        let next = GitHubFetch {
                            source_id,
                            user_id,
                            repository,
                            branch,
                            options,
                            stage: GitHubStage::Closed,
                        };
                        (next, FetchStep::Done { documents, skipped, failed: 0 })
                    },
                }
            },
            (GitHubStage::AwaitingTree { token }, FetchReply::Tree(Err(e))) => {
                let next = GitHubFetch {
                    source_id,
                    user_id,
                    repository,
                    branch,
                    options,
                    stage: GitHubStage::Closed,
                };
                (next, FetchStep::Failed(e))
            },
            (
                GitHubStage::AwaitingContent { token, entries, at, documents, skipped, failed },
                FetchReply::Content(result),
            ) => {
                let mut documents = documents;
                let mut failed = failed;
                assert(at < entries.len());
                assert(documents.len() + failed == at);
                let ghost old_documents = documents.deep_view();
                let ghost old_failed = failed as nat;
                let ghost listed = entries.deep_view();
                let ghost doc_view: NormalizedDocumentView = arbitrary();
                match result {
                    Ok(content) => {
                        let ghost content_view = content@;
                        match &repository {
                            Some(repository_name) => {
                                let doc = GitHubConnector::document(
                                    source_id,
                                    repository_name.as_str(),
                                    branch.as_str(),
                                    &entries[at],
                                    content,
                                );
                                proof {
                                    doc_view = doc@;
                                }
                                documents.push(doc);
                            },
                            None => {
                                assert(false);
                            },
                        }
                        assert(documents.deep_view() =~= old_documents.push(doc_view));
                        assert(document_of(
                            doc_view,
                            before.source_id,
                            before.repository->0,
                            before.branch,
                            listed[at as int],
                            content_view,
                        ));
                        assert(before.stems_from(doc_view, listed));
                    },
                    Err(_) => {
                        failed += 1;
                    },
                }
                let request = match &repository {
                    Some(repository_name) => if at + 1 < entries.len() {
                        Some(
                            FetchRequest::Content {
                                token: token.clone(),
                                repository: repository_name.clone(),
                                path: entries[at + 1].path.clone(),
                                branch: branch.clone(),
                            },
                        )
                    } else {
                        None
                    },
                    None => None,
                };
                let ghost new_documents = documents.deep_view();
                let ghost new_failed = failed as nat;
                let r = match request {
                    Some(request) => {
                        let next = GitHubFetch {
                            source_id,
                            user_id,
                            repository,
                            branch,
                            options,
                            stage: GitHubStage::AwaitingContent {
                                token,
                                entries,
                                at: at + 1,
                                documents,
                                skipped,
                                failed,
                            },
                        };
                        (next, FetchStep::Ask(request))
                    },
                    None => {
                        let next = GitHubFetch {
                            source_id,
                            user_id,
                            repository,
                            branch,
                            options,
                            stage: GitHubStage::Closed,
                        };
                        (next, FetchStep::Done { documents, skipped, failed })
                    },
                };
                assert(before.moved_on(
                    before.stage->AwaitingContent_token,
                    listed,
                    at as nat,
                    new_documents,
                    skipped as nat,
                    new_failed,
                    r.0@,
                    r.1@,
                ));
                proof {
                    if answer is Content && answer->Content_0 is Ok {
                        let content_view = answer->Content_0->Ok_0;
                        assert(new_documents == old_documents.push(doc_view));
                        assert(document_of(
                            doc_view,
                            before.source_id,
                            before.repository->0,
                            before.branch,
                            listed[at as int],
                            content_view,
                        ) && before.moved_on(
                            before.stage->AwaitingContent_token,
                            listed,
                            at as nat,
                            old_documents.push(doc_view),
                            skipped as nat,
                            old_failed,
                            r.0@,
                            r.1@,
                        ));
                    }
                }
                assert(before.step(answer, r.0@, r.1@));
                r
            },
            _ => {
                let next = GitHubFetch {
                    source_id,
                    user_id,
                    repository,
                    branch,
                    options,
                    stage: GitHubStage::Closed,
                };
                (next, FetchStep::Failed(unexpected_reply()))
            },
        }
    }
}

/// A file whose extension is on the list of binary and media files is never fetched,
/// whatever the options say.
pub proof fn lemma_binary_never_wanted(entry: TreeEntryView, options: SyncOptionsView)
    requires
        file_is_binary(extension(entry.path)),
    ensures
        !wanted(entry, options),
{
}

/// A file without an extension is in none of the tables, whatever its name: it is not
/// left out as binary, its content type is unknown, it has no language, and it matches no
/// entry of a list of extensions. So it is fetched exactly where no extensions are listed
/// and the other options admit it.
pub proof fn lemma_file_without_extension(path: Seq<char>, options: SyncOptionsView)
    requires
        !has_extension(path),
    ensures
        !file_is_binary(extension(path)),
        file_content_type(extension(path)) == ContentType::Unknown,
        file_language(extension(path)) is None,
        !options.language_listed(path),
        options.include_languages.len() > 0 ==> !options.admits(path, None),
{
}

/// Tighter options admit no more. Options are tighter than others where they exclude
/// every text that the others exclude, where their limit is no higher, and where they
/// list extensions that the others list too, or the others list none. Taking the last
/// entry off a list of extensions does not tighten the options: an empty list admits
/// every extension.
pub open spec fn tighter(tight: SyncOptionsView, loose: SyncOptionsView) -> bool {
    &&& forall|i: int|
        0 <= i < loose.exclude_paths.len() ==> tight.exclude_paths.contains(
            #[trigger] loose.exclude_paths[i],
        )
    &&& loose.max_file_size_mb matches Some(limit) ==> tight.max_file_size_mb is Some
        && byte_limit(tight.max_file_size_mb->0) <= byte_limit(limit)
    &&& loose.include_languages.len() > 0 ==> tight.include_languages.len() > 0 && forall|
        j: int,
    |
        0 <= j < tight.include_languages.len() ==> loose.include_languages.contains(
            #[trigger] tight.include_languages[j],
        )
}

/// What tighter options admit, the looser ones admit too.
pub proof fn lemma_tighter_options_admit_no_more(
    tight: SyncOptionsView,
    loose: SyncOptionsView,
    path: Seq<char>,
    size: Option<u64>,
)
    requires
        tighter(tight, loose),
        tight.admits(path, size),
    ensures
        loose.admits(path, size),
{
    assert(loose.not_excluded(path)) by {
        assert forall|i: int| 0 <= i < loose.exclude_paths.len() implies !occurs_in(
            #[trigger] loose.exclude_paths[i],
            path,
        ) by {
            let text = loose.exclude_paths[i];
            assert(tight.exclude_paths.contains(text));
            let k = choose|k: int| 0 <= k < tight.exclude_paths.len() && tight.exclude_paths[k] == text;
            assert(!occurs_in(tight.exclude_paths[k], path));
        }
    }
    if loose.include_languages.len() > 0 {
        let j = choose|j: int|
            0 <= j < tight.include_languages.len() && Some(
                lowercase(#[trigger] tight.include_languages[j]),
            ) == extension(path);
        let entry = tight.include_languages[j];
        assert(loose.include_languages.contains(entry));
        let i = choose|i: int| 0 <= i < loose.include_languages.len() && loose.include_languages[i] == entry;
        assert(Some(lowercase(loose.include_languages[i])) == extension(path));
    }
}

/// A path without a dot names a file without an extension.
pub proof fn lemma_no_dot_no_extension(path: Seq<char>)
    requires
        !path.contains('.'),
    ensures
        extension(path) is None,
{
}

/// Every selected entry is wanted: it is a file, its extension is not on the list of binary
/// and media files, and the options admit it. So no file of that list is ever selected,
/// and no document is made of one.
pub proof fn lemma_selected_are_wanted(entries: Seq<TreeEntryView>, options: SyncOptionsView)
    ensures
        forall|i: int|
            0 <= i < selected(entries, options).len() ==> wanted(
                #[trigger] selected(entries, options)[i],
                options,
            ),
        selected(entries, options).len() <= entries.len(),
    decreases entries.len(),
{
    if entries.len() > 0 {
        lemma_selected_are_wanted(entries.drop_last(), options);
    }
}

/// The content type and the language of a document depend on the extension of its path
/// alone: two files with the same extension get the same of both.
pub proof fn lemma_classified_by_extension(
    a: NormalizedDocumentView,
    b: NormalizedDocumentView,
    source_a: u128,
    source_b: u128,
    repository_a: Seq<char>,
    repository_b: Seq<char>,
    branch_a: Seq<char>,
    branch_b: Seq<char>,
    entry_a: TreeEntryView,
    entry_b: TreeEntryView,
    content_a: Seq<char>,
    content_b: Seq<char>,
)
    requires
        document_of(a, source_a, repository_a, branch_a, entry_a, content_a),
        document_of(b, source_b, repository_b, branch_b, entry_b, content_b),
        extension(entry_a.path) == extension(entry_b.path),
    ensures
        a.content_type == b.content_type,
        a.language == b.language,
{
}

/// A failure to get the content of one file does not end the fetch: the documents made so
/// far stay as they are, the failure is counted, and the fetch goes on to the next file
/// or is done.
pub proof fn lemma_failed_content_is_skipped(
    fetch: GitHubFetchView,
    e: Failure,
    next: GitHubFetchView,
    out: FetchStepView,
)
    requires
        fetch.stage is AwaitingContent,
        fetch.step(FetchReplyView::Content(Err(e)), next, out),
    ensures
        !(out is Failed),
        out is Done ==> out->documents == fetch.stage->AwaitingContent_documents && out->failed
            == fetch.stage->AwaitingContent_failed + 1,
        out is Ask ==> next.stage is AwaitingContent && next.stage->AwaitingContent_documents
            == fetch.stage->AwaitingContent_documents && next.stage->AwaitingContent_failed
            == fetch.stage->AwaitingContent_failed + 1,
{
}

/// When a fetch is done, every selected file is accounted for: it has given a document or
/// it counts as failed. So where one file of `n` fails, `n - 1` documents come back.
pub proof fn lemma_done_accounts_for_every_file(
    fetch: GitHubFetchView,
    reply: FetchReplyView,
    next: GitHubFetchView,
    out: FetchStepView,
)
    requires
        fetch.well_formed(),
        fetch.stage is AwaitingContent,
        fetch.step(reply, next, out),
        out is Done,
    ensures
        out->documents.len() + out->failed == fetch.stage->AwaitingContent_entries.len(),
{
}

/// A fetch that is handed out well formed stays so with every step.
pub proof fn lemma_step_keeps_well_formed(
    fetch: GitHubFetchView,
    reply: FetchReplyView,
    next: GitHubFetchView,
    out: FetchStepView,
)
    requires
        fetch.well_formed(),
        fetch.step(reply, next, out),
    ensures
        next.well_formed(),
{
    match (fetch.stage, reply) {
        (GitHubStageView::AwaitingTree { token }, FetchReplyView::Tree(Ok(tree))) => {
            lemma_selected_are_wanted(tree, fetch.options);
        },
        (
            GitHubStageView::AwaitingContent { token, entries, at, documents, skipped, failed },
            FetchReplyView::Content(Ok(content)),
        ) => {
            let doc = choose|doc: NormalizedDocumentView|
                {
                    &&& document_of(
                        doc,
                        fetch.source_id,
                        fetch.repository->0,
                        fetch.branch,
                        entries[at as int],
                        content,
                    )
                    &&& fetch.moved_on(
                        token,
                        entries,
                        at,
                        documents.push(doc),
                        skipped,
                        failed,
                        next,
                        out,
                    )
                };
            assert(fetch.stems_from(doc, entries));
            if at + 1 < entries.len() {
                let after = documents.push(doc);
                assert forall|j: int| 0 <= j < after.len() implies next.stems_from(
                    #[trigger] after[j],
                    entries,
                ) by {
                    if j < documents.len() {
                        assert(fetch.stems_from(documents[j], entries));
                    }
                }
            }
        },
        (
            GitHubStageView::AwaitingContent { token, entries, at, documents, skipped, failed },
            FetchReplyView::Content(Err(e)),
        ) => {
            if at + 1 < entries.len() {
                assert forall|j: int| 0 <= j < documents.len() implies next.stems_from(
                    #[trigger] documents[j],
                    entries,
                ) by {
                    assert(fetch.stems_from(documents[j], entries));
                }
            }
        },
        _ => {},
    }
}

/// No document comes of a file whose extension is on the list of binary and media files,
/// whatever the options of the sync say: every document of a finished fetch has the path
/// of a file that is not on that list.
pub proof fn lemma_no_document_of_a_binary_file(
    fetch: GitHubFetchView,
    reply: FetchReplyView,
    next: GitHubFetchView,
    out: FetchStepView,
)
    requires
        fetch.well_formed(),
        fetch.step(reply, next, out),
        out is Done,
    ensures
        forall|j: int|
            0 <= j < out->documents.len() ==> {
                let doc = #[trigger] out->documents[j];
                doc.path is Some && !file_is_binary(extension(doc.path->0))
            },
{
    match (fetch.stage, reply) {
        (
            GitHubStageView::AwaitingContent { token, entries, at, documents, skipped, failed },
            FetchReplyView::Content(Ok(content)),
        ) => {
            let doc = choose|doc: NormalizedDocumentView|
                {
                    &&& document_of(
                        doc,
                        fetch.source_id,
                        fetch.repository->0,
                        fetch.branch,
                        entries[at as int],
                        content,
                    )
                    &&& fetch.moved_on(
                        token,
                        entries,
                        at,
                        documents.push(doc),
                        skipped,
                        failed,
                        next,
                        out,
                    )
                };
            assert forall|j: int| 0 <= j < out->documents.len() implies {
                let d = #[trigger] out->documents[j];
                d.path is Some && !file_is_binary(extension(d.path->0))
            } by {
                if j < documents.len() {
                    assert(fetch.stems_from(documents[j], entries));
                }
            }
        },
        (
            GitHubStageView::AwaitingContent { token, entries, at, documents, skipped, failed },
            FetchReplyView::Content(Err(e)),
        ) => {
            assert forall|j: int| 0 <= j < out->documents.len() implies {
                let d = #[trigger] out->documents[j];
                d.path is Some && !file_is_binary(extension(d.path->0))
            } by {
                assert(fetch.stems_from(documents[j], entries));
            }
        },
        _ => {},
    }
}

/// A failure to get the tree of the repository ends the fetch with that failure.
pub proof fn lemma_tree_failure_is_fatal(
    fetch: GitHubFetchView,
    e: Failure,
    next: GitHubFetchView,
    out: FetchStepView,
)
    requires
        fetch.stage is AwaitingTree,
        fetch.step(FetchReplyView::Tree(Err(e)), next, out),
    ensures
        out == FetchStepView::Failed(e),
        next.stage is Closed,
{
}

} // verus!
