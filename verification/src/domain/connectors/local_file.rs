//! The connector for directories of the local file system.

use vstd::prelude::*;
use crate::clock::Timestamp;
use crate::domain::connectors::filetype::content_type_for_file;
use crate::domain::connectors::filetype::file_content_type;
use crate::domain::connectors::filetype::file_is_binary;
use crate::domain::connectors::filetype::file_language;
use crate::domain::connectors::filetype::is_binary_for_file;
use crate::domain::connectors::filetype::language_for_file;
use crate::domain::connectors::session::out_of_turn;
use crate::domain::connectors::session::AccessCheck;
use crate::domain::connectors::session::AccessStage;
use crate::domain::connectors::session::AccessStep;
use crate::domain::connectors::session::AccessStepView;
use crate::domain::connectors::session::unexpected_reply;
use crate::domain::connectors::session::FetchReply;
use crate::domain::connectors::session::FetchReplyView;
use crate::domain::connectors::session::FetchRequest;
use crate::domain::connectors::session::FetchRequestView;
use crate::domain::connectors::session::FetchStep;
use crate::domain::connectors::session::FetchStepView;
use crate::domain::models::clone_text;
use crate::domain::models::ConnectorType;
use crate::domain::models::ContentType;
use crate::domain::models::DataSource;
use crate::domain::models::NormalizedDocument;
use crate::domain::models::NormalizedDocumentView;
use crate::error::AppError;
use crate::error::ErrorKind;
use crate::error::Failure;
use crate::ids::random_form;
use crate::json::JsonModel;
use crate::json::JsonNumber;
use crate::json::JsonValue;
use crate::text::lowercase;
use crate::text::to_lowercase;

verus! {

/// One entry that a walk of a directory came upon, with what the connector reads of it.
#[derive(Debug)]
pub struct LocalEntry {
    /// The path of the entry, as text.
    pub path: String,
    /// Whether the entry is a directory.
    pub is_dir: bool,
    /// The components of the path in order, each as text where it is valid text.
    pub components: Vec<Option<String>>,
    /// The path from the directory that is walked to the entry; nothing where the entry
    /// does not lie under it.
    pub relative_path: Option<String>,
    /// The last component of the path, where it is a name and valid text.
    pub file_name: Option<String>,
    /// What follows the last dot of the file name, where the name has one that is not its
    /// first character, and where that is valid text.
    pub extension: Option<String>,
    /// The size of the file in bytes, where it could be read.
    pub size: Option<u64>,
}

/// A walked entry as the contracts see it.
pub struct LocalEntryView {
    pub path: Seq<char>,
    pub is_dir: bool,
    pub components: Seq<Option<Seq<char>>>,
    pub relative_path: Option<Seq<char>>,
    pub file_name: Option<Seq<char>>,
    pub extension: Option<Seq<char>>,
    pub size: Option<u64>,
}

impl View for LocalEntry {
    type V = LocalEntryView;

    open spec fn view(&self) -> LocalEntryView {
        LocalEntryView {
            path: self.path@,
            is_dir: self.is_dir,
            components: self.components.deep_view(),
            relative_path: self.relative_path.deep_view(),
            file_name: self.file_name.deep_view(),
            extension: self.extension.deep_view(),
            size: self.size,
        }
    }
}

impl DeepView for LocalEntry {
    type V = LocalEntryView;

    open spec fn deep_view(&self) -> LocalEntryView {
        self@
    }
}

impl Clone for LocalEntry {
    fn clone(&self) -> (r: Self)
        ensures
            r@ == self@,
    {
        let mut components: Vec<Option<String>> = Vec::new();
        let mut i: usize = 0;
        while i < self.components.len()
            invariant
                i <= self.components.len(),
                components.len() == i,
                forall|j: int|
                    0 <= j < i ==> components@[j].deep_view() == self.components@[j].deep_view(),
            decreases self.components.len() - i,
        {
            components.push(clone_text(&self.components[i]));
            i += 1;
        }
        assert(components.deep_view() =~= self.components.deep_view());
        LocalEntry {
            path: self.path.clone(),
            is_dir: self.is_dir,
            components,
            relative_path: clone_text(&self.relative_path),
            file_name: clone_text(&self.file_name),
            extension: clone_text(&self.extension),
            size: self.size,
        }
    }
}

/// The connector for directories of the local file system.
#[derive(Debug, Clone, Copy, PartialEq, Eq, Structural)]
pub struct LocalFileConnector {}

impl Default for LocalFileConnector {
    fn default() -> (r: Self)
        ensures
            r == (LocalFileConnector {  }),
    {
        LocalFileConnector {  }
    }
}

/// The extension of a walked entry, in lower case; nothing where it has none.
pub open spec fn extension(entry: LocalEntryView) -> Option<Seq<char>> {
    match entry.extension {
        Some(ext) => Some(lowercase(ext)),
        None => None,
    }
}

/// Whether a component of a path marks what lies under it as hidden: it begins with a dot.
pub open spec fn hidden_component(component: Option<Seq<char>>) -> bool {
    component matches Some(name) && name.len() > 0 && name[0] == '.'
}

/// Whether a path has a hidden component.
pub open spec fn hidden(entry: LocalEntryView) -> bool {
    exists|i: int|
        0 <= i < entry.components.len() && hidden_component(#[trigger] entry.components[i])
}

/// Whether the content of a walked entry is read: it is no directory, no component of its
/// path is hidden, and its extension is not on the list of binary and media files.
pub open spec fn taken(entry: LocalEntryView) -> bool {
    !entry.is_dir && !hidden(entry) && !file_is_binary(extension(entry))
}

/// The walked entries whose content is read, in the order of the walk.
pub open spec fn picked(entries: Seq<LocalEntryView>) -> Seq<LocalEntryView>
    decreases entries.len(),
{
    if entries.len() == 0 {
        Seq::empty()
    } else {
        let rest = picked(entries.drop_last());
        if taken(entries.last()) {
            rest.push(entries.last())
        } else {
            rest
        }
    }
}

/// The path of an entry as its document gives it: from the directory that was walked,
/// or in full where the entry does not lie under it.
pub open spec fn shown_path(entry: LocalEntryView) -> Seq<char> {
    match entry.relative_path {
        Some(path) => path,
        None => entry.path,
    }
}

/// The metadata of a document of a local file: the directory that was walked, the path
/// from there, and the size.
pub open spec fn metadata_of(base_path: Seq<char>, entry: LocalEntryView) -> JsonModel {
    JsonModel::Object(
        seq![
            ("base_path"@, JsonModel::Text(base_path)),
            ("relative_path"@, JsonModel::Text(shown_path(entry))),
            (
                "file_size"@,
                match entry.size {
                    Some(bytes) => JsonModel::Number(JsonNumber::Unsigned(bytes)),
                    None => JsonModel::Null,
                },
            ),
        ],
    )
}

/// The document that a local file becomes, made at `at` under the identity `id`: it is
/// known by its path and named by its file name; its content type and its language follow
/// from its extension.
pub open spec fn normalized(
    id: u128,
    at: Timestamp,
    source_id: u128,
    base_path: Seq<char>,
    entry: LocalEntryView,
    content: Seq<char>,
) -> NormalizedDocumentView {
    NormalizedDocumentView {
        id,
        source_id,
        connector_type: ConnectorType::LocalFile,
        external_id: entry.path,
        name: match entry.file_name {
            Some(name) => name,
            None => "unknown"@,
        },
        path: Some(shown_path(entry)),
        content,
        content_type: file_content_type(extension(entry)),
        metadata: metadata_of(base_path, entry),
        chunks: None,
        block_type: None,
        language: file_language(extension(entry)),
        created_at: at,
        updated_at: at,
    }
}

/// Whether `doc` is the document of the file `entry` with the content `content`.
pub open spec fn document_of(
    doc: NormalizedDocumentView,
    source_id: u128,
    base_path: Seq<char>,
    entry: LocalEntryView,
    content: Seq<char>,
) -> bool {
    doc == normalized(doc.id, doc.created_at, source_id, base_path, entry, content)
}

/// The failure of a fetch from a source that names no path.
pub open spec fn missing_path() -> Failure {
    Failure { kind: ErrorKind::BadRequest, message: "Missing path in config"@ }
}

/// The failure of a fetch from a directory that does not exist.
pub open spec fn no_such_path(path: Seq<char>) -> Failure {
    Failure { kind: ErrorKind::NotFound, message: "Path does not exist: "@ + path }
}

/// Where a fetch from a local directory stands.
#[derive(Debug)]
pub enum LocalStage {
    /// It has been asked whether the directory exists.
    AwaitingInspect,
    /// The walk of the directory has been asked for.
    AwaitingWalk,
    /// The content of `entries[at]` has been asked for. The entries are the picked ones;
    /// those before `at` have been dealt with.
    AwaitingRead {
        entries: Vec<LocalEntry>,
        at: usize,
        documents: Vec<NormalizedDocument>,
        failed: usize,
    },
    /// The fetch is over.
    Closed,
}

/// A stage as the contracts see it.
pub enum LocalStageView {
    AwaitingInspect,
    AwaitingWalk,
    AwaitingRead {
        entries: Seq<LocalEntryView>,
        at: nat,
        documents: Seq<NormalizedDocumentView>,
        failed: nat,
    },
    Closed,
}

impl View for LocalStage {
    type V = LocalStageView;

    open spec fn view(&self) -> LocalStageView {
        match self {
            LocalStage::AwaitingInspect => LocalStageView::AwaitingInspect,
            LocalStage::AwaitingWalk => LocalStageView::AwaitingWalk,
            LocalStage::AwaitingRead { entries, at, documents, failed } => LocalStageView::AwaitingRead {
                entries: entries.deep_view(),
                at: *at as nat,
                documents: documents.deep_view(),
                failed: *failed as nat,
            },
            LocalStage::Closed => LocalStageView::Closed,
        }
    }
}

/// A fetch of the files under one local directory.
#[derive(Debug)]
pub struct LocalFetch {
    source_id: u128,
    base_path: String,
    stage: LocalStage,
}

/// A fetch as the contracts see it.
pub struct LocalFetchView {
    pub source_id: u128,
    /// The directory that the source names.
    pub base_path: Seq<char>,
    pub stage: LocalStageView,
}

impl LocalFetchView {
    /// The same fetch at another stage.
    pub open spec fn at_stage(self, stage: LocalStageView) -> LocalFetchView {
        LocalFetchView { stage, ..self }
    }

    /// The request for the content of `entry`.
    pub open spec fn read_request(entry: LocalEntryView) -> FetchStepView {
        FetchStepView::Ask(FetchRequestView::Read { path: entry.path })
    }

    /// `doc` is the document of one of `entries`.
    pub open spec fn stems_from(self, doc: NormalizedDocumentView, entries: Seq<LocalEntryView>) -> bool {
        exists|i: int|
            0 <= i < entries.len() && document_of(
                doc,
                self.source_id,
                self.base_path,
                #[trigger] entries[i],
                doc.content,
            )
    }

    /// What holds of every fetch that the library hands out. While contents are awaited,
    /// every entry is a picked one, each entry before the current one has given a document
    /// or counts as failed, and each document stems from one of them.
    pub open spec fn well_formed(self) -> bool {
        match self.stage {
            LocalStageView::AwaitingRead { entries, at, documents, failed } => {
                &&& at < entries.len()
                &&& documents.len() + failed == at
                &&& forall|i: int| 0 <= i < entries.len() ==> taken(#[trigger] entries[i])
                &&& forall|j: int|
                    0 <= j < documents.len() ==> self.stems_from(#[trigger] documents[j], entries)
            },
            _ => true,
        }
    }

    /// The step that follows when the content of the current entry has arrived or has
    /// failed to: `documents` and `failed` are the documents and the failures so far,
    /// this entry included.
    pub open spec fn moved_on(
        self,
        entries: Seq<LocalEntryView>,
        at: nat,
        documents: Seq<NormalizedDocumentView>,
        failed: nat,
        next: LocalFetchView,
        out: FetchStepView,
    ) -> bool {
        if at + 1 < entries.len() {
            &&& next == self.at_stage(
                LocalStageView::AwaitingRead { entries, at: at + 1, documents, failed },
            )
            &&& out == Self::read_request(entries[at as int + 1])
        } else {
            &&& next == self.at_stage(LocalStageView::Closed)
            &&& out == FetchStepView::Done { documents, skipped: 0, failed }
        }
    }

    /// Whether the fetch `self`, handed `reply`, may go on as `next` and say `out`.
    ///
    /// Where the directory exists, its walk is asked for; where it does not, the fetch
    /// fails. The walk opens the request for the content of the first picked entry, or ends
    /// the fetch where nothing is picked. Each content adds a document, and each file that
    /// cannot be read as text is counted; either way the next entry is asked for, and
    /// after the last the fetch is done. A reply that was not asked for ends the fetch
    /// with a failure.
    pub open spec fn step(self, reply: FetchReplyView, next: LocalFetchView, out: FetchStepView) -> bool {
        match (self.stage, reply) {
            (LocalStageView::AwaitingInspect, FetchReplyView::Inspect { exists, is_dir }) => {
                if exists {
                    &&& next == self.at_stage(LocalStageView::AwaitingWalk)
                    &&& out == FetchStepView::Ask(FetchRequestView::Walk { path: self.base_path })
                } else {
                    &&& next == self.at_stage(LocalStageView::Closed)
                    &&& out == FetchStepView::Failed(no_such_path(self.base_path))
                }
            },
            (LocalStageView::AwaitingWalk, FetchReplyView::Walk(walked)) => {
                let entries = picked(walked);
                if entries.len() > 0 {
                    &&& next == self.at_stage(
                        LocalStageView::AwaitingRead {
                            entries,
                            at: 0,
                            documents: Seq::empty(),
                            failed: 0,
                        },
                    )
                    &&& out == Self::read_request(entries[0])
                } else {
                    &&& next == self.at_stage(LocalStageView::Closed)
                    &&& out == FetchStepView::Done { documents: Seq::empty(), skipped: 0, failed: 0 }
                }
            },
            (
                LocalStageView::AwaitingRead { entries, at, documents, failed },
                FetchReplyView::Read(Ok(content)),
            ) => {
                exists|doc: NormalizedDocumentView|
                    {
                        &&& document_of(
                            doc,
                            self.source_id,
                            self.base_path,
                            entries[at as int],
                            content,
                        )
                        &&& self.moved_on(entries, at, documents.push(doc), failed, next, out)
                    }
            },
            (
                LocalStageView::AwaitingRead { entries, at, documents, failed },
                FetchReplyView::Read(Err(e)),
            ) => self.moved_on(entries, at, documents, failed + 1, next, out),
            _ => {
                &&& next == self.at_stage(LocalStageView::Closed)
                &&& out == FetchStepView::Failed(out_of_turn())
            },
        }
    }
}

impl View for LocalFetch {
    type V = LocalFetchView;

    closed spec fn view(&self) -> LocalFetchView {
        LocalFetchView {
            source_id: self.source_id,
            base_path: self.base_path@,
            stage: self.stage@,
        }
    }
}

/// Every picked entry is taken: it is a file, no component of its path is hidden, and its
/// extension is not on the list of binary and media files.
pub proof fn lemma_picked_are_taken(entries: Seq<LocalEntryView>)
    ensures
        forall|i: int| 0 <= i < picked(entries).len() ==> taken(#[trigger] picked(entries)[i]),
        picked(entries).len() <= entries.len(),
    decreases entries.len(),
{
    if entries.len() > 0 {
        lemma_picked_are_taken(entries.drop_last());
    }
}

impl LocalFileConnector {
    pub fn new() -> (r: Self)
        ensures
            r == (LocalFileConnector {  }),
    {
        LocalFileConnector {  }
    }

    /// The kind of source that this connector serves.
    pub fn connector_type(&self) -> (r: ConnectorType)
        ensures
            r == ConnectorType::LocalFile,
    {
        ConnectorType::LocalFile
    }

    /// The extension of a walked entry, in lower case; nothing where it has none.
    pub fn extension_of(entry: &LocalEntry) -> (r: Option<String>)
        ensures
            r.deep_view() == extension(entry@),
    {
        match &entry.extension {
            Some(ext) => Some(to_lowercase(ext.as_str())),
            None => None,
        }
    }

    /// The content type of a walked entry, told from its extension; unknown for an entry
    /// without an extension.
    pub fn get_content_type(entry: &LocalEntry) -> (r: ContentType)
        ensures
            r == file_content_type(extension(entry@)),
    {
        let ext = Self::extension_of(entry);
        content_type_for_file(&ext)
    }

    /// The language of a walked entry, told from its extension; none for an entry without
    /// an extension.
    pub fn get_language(entry: &LocalEntry) -> (r: Option<String>)
        ensures
            r.deep_view() == file_language(extension(entry@)),
    {
        let ext = Self::extension_of(entry);
        language_for_file(&ext)
    }

    /// Whether a walked entry is left out as a binary or media file: its extension is on
    /// the list. An entry without an extension is not.
    pub fn should_skip(entry: &LocalEntry) -> (r: bool)
        ensures
            r == file_is_binary(extension(entry@)),
    {
        let ext = Self::extension_of(entry);
        is_binary_for_file(&ext)
    }

    /// Whether a component of the path of a walked entry is hidden.
    pub fn is_hidden(entry: &LocalEntry) -> (r: bool)
        ensures
            r == hidden(entry@),
    {
        let mut i: usize = 0;
        while i < entry.components.len()
            invariant
                i <= entry.components.len(),
                forall|j: int| 0 <= j < i ==> !hidden_component(#[trigger] entry@.components[j]),
            decreases entry.components.len() - i,
        {
            let dotted = match &entry.components[i] {
                Some(name) => name.as_str().unicode_len() > 0 && name.as_str().get_char(0) == '.',
                None => false,
            };
            assert(dotted == hidden_component(entry@.components[i as int]));
            if dotted {
                return true;
            }
            i += 1;
        }
        false
    }

    /// Whether the content of a walked entry is read.
    pub fn takes(entry: &LocalEntry) -> (r: bool)
        ensures
            r == taken(entry@),
    {
        !entry.is_dir && !Self::is_hidden(entry) && !Self::should_skip(entry)
    }

    /// The walked entries whose content is read, in the order of the walk.
    pub fn pick(walked: &Vec<LocalEntry>) -> (r: Vec<LocalEntry>)
        ensures
            r.deep_view() == picked(walked.deep_view()),
    {
        let mut chosen: Vec<LocalEntry> = Vec::new();
        let mut i: usize = 0;
        assert(walked.deep_view().take(0) =~= Seq::empty());
        assert(chosen.deep_view() =~= Seq::empty());
        while i < walked.len()
            invariant
                i <= walked.len(),
                chosen.deep_view() == picked(walked.deep_view().take(i as int)),
            decreases walked.len() - i,
        {
            let ghost before = walked.deep_view().take(i as int);
            let ghost after = walked.deep_view().take(i + 1);
            assert(after.drop_last() =~= before);
            assert(after.last() == walked@[i as int]@);
            let entry = &walked[i];
            if Self::takes(entry) {
                let ghost old_chosen = chosen.deep_view();
                chosen.push(entry.clone());
                assert(chosen.deep_view() =~= old_chosen.push(entry@));
            }
            i += 1;
        }
        assert(walked.deep_view().take(walked.len() as int) =~= walked.deep_view());
        chosen
    }

    /// The document that the file `entry` under the directory `base_path` becomes, with
    /// the content `content`, under a fresh identity and made now.
    pub fn document(source_id: u128, base_path: &str, entry: &LocalEntry, content: String) -> (doc:
        NormalizedDocument)
        ensures
            random_form(doc.id),
            document_of(doc@, source_id, base_path@, entry@, content@),
    {
        let name = match &entry.file_name {
            Some(name) => name.clone(),
            None => String::from_str("unknown"),
        };
        let shown = match &entry.relative_path {
            Some(path) => path.clone(),
            None => entry.path.clone(),
        };
        let mut doc = NormalizedDocument::new(
            source_id,
            ConnectorType::LocalFile,
            entry.path.clone(),
            name,
            content,
        );
        doc.content_type = Self::get_content_type(entry);
        doc.language = Self::get_language(entry);
        let mut members: Vec<(String, JsonValue)> = Vec::new();
        members.push((String::from_str("base_path"), JsonValue::text(base_path)));
        members.push((String::from_str("relative_path"), JsonValue::text(shown.as_str())));
        members.push((String::from_str("file_size"), JsonValue::count(entry.size)));
        assert(members.deep_view() =~= metadata_of(base_path@, entry@)->Object_0);
        doc.metadata = JsonValue::record(members);
        doc.path = Some(shown);
        doc
    }

    /// Begins to check whether the source can be read: reads the directory from the
    /// configuration of the source, and asks whether it exists and is a directory. A source
    /// that names no directory fails at once.
    pub fn validate_access(&self, source: &DataSource, user_id: u128) -> (r: (AccessCheck, AccessStep))
        ensures
            r.0@.repository is None,
            match source@.config.text_at("path"@) {
                Some(path) => {
                    &&& r.0@.stage == AccessStage::AwaitingInspect
                    &&& r.1@ == AccessStepView::Ask(FetchRequestView::Inspect { path })
                },
                None => {
                    &&& r.0@.stage == AccessStage::Closed
                    &&& r.1@ == AccessStepView::Failed(missing_path())
                },
            },
    {
        match source.config.text_at("path") {
            Some(path) => {
                let check = AccessCheck { repository: None, stage: AccessStage::AwaitingInspect };
                (check, AccessStep::Ask(FetchRequest::Inspect { path }))
            },
            None => {
                let check = AccessCheck { repository: None, stage: AccessStage::Closed };
                let e = AppError::BadRequest(String::from_str("Missing path in config"));
                (check, AccessStep::Failed(e))
            },
        }
    }

    /// Begins to fetch what the source holds: reads the directory from the configuration
    /// of the source and asks whether it exists. A source that names no directory fails
    /// at once.
    pub fn fetch_content(&self, source: &DataSource, user_id: u128) -> (r: (LocalFetch, FetchStep))
        ensures
            r.0@.source_id == source@.id,
            r.0@.well_formed(),
            match source@.config.text_at("path"@) {
                Some(path) => {
                    &&& r.0@.base_path == path
                    &&& r.0@.stage is AwaitingInspect
                    &&& r.1@ == FetchStepView::Ask(FetchRequestView::Inspect { path })
                },
                None => {
                    &&& r.0@.stage is Closed
                    &&& r.1@ == FetchStepView::Failed(missing_path())
                },
            },
    {
        match source.config.text_at("path") {
            Some(path) => {
                let request = FetchRequest::Inspect { path: path.clone() };
                let fetch = LocalFetch {
                    source_id: source.id,
                    base_path: path,
                    stage: LocalStage::AwaitingInspect,
                };
                (fetch, FetchStep::Ask(request))
            },
            None => {
                let fetch = LocalFetch {
                    source_id: source.id,
                    base_path: String::new(),
                    stage: LocalStage::Closed,
                };
                let e = AppError::BadRequest(String::from_str("Missing path in config"));
                (fetch, FetchStep::Failed(e))
            },
        }
    }
}

impl LocalFetch {
    #[verifier::type_invariant]
    spec fn sound(self) -> bool {
        self@.well_formed()
    }

    /// Hands the fetch the answer to what it asked for last, and says what comes next.
    pub fn advance(self, reply: FetchReply) -> (r: (LocalFetch, FetchStep))
        ensures
            self@.step(reply@, r.0@, r.1@),
            r.0@.well_formed(),
    {
        proof {
            use_type_invariant(&self);
        }
        let ghost before = self@;
        let ghost answer = reply@;
        assert(before.well_formed());
        let LocalFetch { source_id, base_path, stage } = self;
        assert(before.stage == stage@);
        match (stage, reply) {
            (LocalStage::AwaitingInspect, FetchReply::Inspect { exists, is_dir }) => {
                if exists {
                    let request = FetchRequest::Walk { path: base_path.clone() };
                    let next = LocalFetch { source_id, base_path, stage: LocalStage::AwaitingWalk };
                    (next, FetchStep::Ask(request))
                } else {
                    let message = String::from_str("Path does not exist: ").concat(
                        base_path.as_str(),
                    );
                    let next = LocalFetch { source_id, base_path, stage: LocalStage::Closed };
                    (next, FetchStep::Failed(AppError::NotFound(message)))
                }
            },
            (LocalStage::AwaitingWalk, FetchReply::Walk(walked)) => {
                let entries = LocalFileConnector::pick(&walked);
                proof {
                    lemma_picked_are_taken(walked.deep_view());
                }
                let documents: Vec<NormalizedDocument> = Vec::new();
                assert(documents.deep_view() =~= Seq::empty());
                if entries.len() > 0 {
                    let request = FetchRequest::Read { path: entries[0].path.clone() };
                    let next = LocalFetch {
                        source_id,
                        base_path,
                        stage: LocalStage::AwaitingRead { entries, at: 0, documents, failed: 0 },
                    };
                    (next, FetchStep::Ask(request))
                } else {
                    let next = LocalFetch { source_id, base_path, stage: LocalStage::Closed };
                    (next, FetchStep::Done { documents, skipped: 0, failed: 0 })
                }
            },
            (
                LocalStage::AwaitingRead { entries, at, documents, failed },
                FetchReply::Read(result),
            ) => {
                let mut documents = documents;
                let mut failed = failed;
                assert(at < entries.len());
                assert(documents.len() + failed == at);
                let ghost old_documents = documents.deep_view();
                let ghost old_failed = failed as nat;
                let ghost listed = entries.deep_view();
                let ghost doc_view: NormalizedDocumentView = arbitrary();
                match result {
                    Ok(content) => {
                        let ghost content_view = content@;
                        let doc = LocalFileConnector::document(
                            source_id,
                            base_path.as_str(),
                            &entries[at],
                            content,
                        );
                        proof {
                            doc_view = doc@;
                        }
                        documents.push(doc);
                        assert(documents.deep_view() =~= old_documents.push(doc_view));
                        assert(document_of(
                            doc_view,
                            before.source_id,
                            before.base_path,
                            listed[at as int],
                            content_view,
                        ));
                        assert(before.stems_from(doc_view, listed));
                    },
                    Err(_) => {
                        failed += 1;
                    },
                }
                let request = if at + 1 < entries.len() {
                    Some(FetchRequest::Read { path: entries[at + 1].path.clone() })
                } else {
                    None
                };
                let ghost new_documents = documents.deep_view();
                let ghost new_failed = failed as nat;
                let r = match request {
                    Some(request) => {
                        let next = LocalFetch {
                            source_id,
                            base_path,
                            stage: LocalStage::AwaitingRead { entries, at: at + 1, documents, failed },
                        };
                        (next, FetchStep::Ask(request))
                    },
                    None => {
                        let next = LocalFetch { source_id, base_path, stage: LocalStage::Closed };
                        (next, FetchStep::Done { documents, skipped: 0, failed })
                    },
                };
                assert(before.moved_on(listed, at as nat, new_documents, new_failed, r.0@, r.1@));
                proof {
                    if answer is Read && answer->Read_0 is Ok {
                        let content_view = answer->Read_0->Ok_0;
                        assert(new_documents == old_documents.push(doc_view));
                        assert(document_of(
                            doc_view,
                            before.source_id,
                            before.base_path,
                            listed[at as int],
                            content_view,
                        ) && before.moved_on(
                            listed,
                            at as nat,
                            old_documents.push(doc_view),
                            old_failed,
                            r.0@,
                            r.1@,
                        ));
                    }
                }
                assert(before.step(answer, r.0@, r.1@));
                r
            },
            _ => {
                let next = LocalFetch { source_id, base_path, stage: LocalStage::Closed };
                (next, FetchStep::Failed(unexpected_reply()))
            },
        }
    }
}

/// A file that cannot be read as text does not end the fetch: the documents made so far
/// stay as they are, and the fetch goes on to the next file or is done.
pub proof fn lemma_unreadable_file_is_skipped(
    fetch: LocalFetchView,
    why: Seq<char>,
    next: LocalFetchView,
    out: FetchStepView,
)
    requires
        fetch.stage is AwaitingRead,
        fetch.step(FetchReplyView::Read(Err(why)), next, out),
    ensures
        !(out is Failed),
        out is Done ==> out->documents == fetch.stage->AwaitingRead_documents,
        out is Ask ==> next.stage is AwaitingRead && next.stage->AwaitingRead_documents
            == fetch.stage->AwaitingRead_documents,
{
}

/// When a fetch is done, every picked file is accounted for: it has given a document or
/// it counts as failed.
pub proof fn lemma_done_accounts_for_every_file(
    fetch: LocalFetchView,
    reply: FetchReplyView,
    next: LocalFetchView,
    out: FetchStepView,
)
    requires
        fetch.well_formed(),
        fetch.stage is AwaitingRead,
        fetch.step(reply, next, out),
        out is Done,
    ensures
        out->documents.len() + out->failed == fetch.stage->AwaitingRead_entries.len(),
{
}

/// No document comes of a directory, of a file under a hidden component, or of a file
/// whose extension is on the list of binary and media files: every document of a finished
/// fetch is the document of a file that is taken.
pub proof fn lemma_documents_are_of_taken_files(
    fetch: LocalFetchView,
    reply: FetchReplyView,
    next: LocalFetchView,
    out: FetchStepView,
)
    requires
        fetch.well_formed(),
        fetch.step(reply, next, out),
        out is Done,
    ensures
        forall|j: int|
            0 <= j < out->documents.len() ==> exists|entry: LocalEntryView|
                taken(entry) && document_of(
                    #[trigger] out->documents[j],
                    fetch.source_id,
                    fetch.base_path,
                    entry,
                    out->documents[j].content,
                ),
{
    match (fetch.stage, reply) {
        (
            LocalStageView::AwaitingRead { entries, at, documents, failed },
            FetchReplyView::Read(Ok(content)),
        ) => {
            let doc = choose|doc: NormalizedDocumentView|
                {
                    &&& document_of(doc, fetch.source_id, fetch.base_path, entries[at as int], content)
                    &&& fetch.moved_on(entries, at, documents.push(doc), failed, next, out)
                };
            assert forall|j: int| 0 <= j < out->documents.len() implies exists|
                entry: LocalEntryView,
            |
                taken(entry) && document_of(
                    #[trigger] out->documents[j],
                    fetch.source_id,
                    fetch.base_path,
                    entry,
                    out->documents[j].content,
                ) by {
                if j < documents.len() {
                    assert(fetch.stems_from(documents[j], entries));
                    let i = choose|i: int|
                        0 <= i < entries.len() && document_of(
                            documents[j],
                            fetch.source_id,
                            fetch.base_path,
                            #[trigger] entries[i],
                            documents[j].content,
                        );
                    assert(taken(entries[i]));
                } else {
                    assert(taken(entries[at as int]));
                }
            }
        },
        (
            LocalStageView::AwaitingRead { entries, at, documents, failed },
            FetchReplyView::Read(Err(e)),
        ) => {
            assert forall|j: int| 0 <= j < out->documents.len() implies exists|
                entry: LocalEntryView,
            |
                taken(entry) && document_of(
                    #[trigger] out->documents[j],
                    fetch.source_id,
                    fetch.base_path,
                    entry,
                    out->documents[j].content,
                ) by {
                assert(fetch.stems_from(documents[j], entries));
                let i = choose|i: int|
                    0 <= i < entries.len() && document_of(
                        documents[j],
                        fetch.source_id,
                        fetch.base_path,
                        #[trigger] entries[i],
                        documents[j].content,
                    );
                assert(taken(entries[i]));
            }
        },
        _ => {},
    }
}

} // verus!
