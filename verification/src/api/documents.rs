//! Documents that users store themselves.

use vstd::prelude::*;
use vstd::utf8::decode_utf8;
use vstd::utf8::encode_utf8;
use vstd::utf8::valid_utf8;
use crate::api::authorized;
use crate::api::forbidden;
use crate::api::not_found;
use crate::api::unauthorized;
use crate::clients::http::join4;
use crate::clock::Timestamp;
use crate::codec::string_from_utf8;
use crate::domain::models::ContentType;
use crate::domain::models::Document;
use crate::domain::models::DocumentView;
use crate::error::AppError;
use crate::error::Failure;
use crate::json::JsonModel;
use crate::json::JsonValue;
use crate::storage::matches_search;
use crate::storage::table::lists;
use crate::storage::DocumentAnalytics;
use crate::storage::Storage;
use crate::storage::StorageState;
use crate::text::after_last;
use crate::text::decimal;
use crate::text::decimal_text;
use crate::text::lowercase;
use crate::text::text_after_last;
use crate::text::to_lowercase;

verus! {

/// What is sent to store a document.
#[derive(Debug)]
pub struct CreateDocumentRequest {
    pub name: String,
    pub content: String,
    pub content_type: Option<String>,
    pub metadata: Option<JsonValue>,
}

/// What is told of a stored document.
#[derive(Debug)]
pub struct DocumentResponse {
    pub id: u128,
    pub name: String,
    pub content_type: String,
    pub file_size: Option<u64>,
    pub created_at: String,
}

/// What is told of a stored document as the contracts see it.
pub struct DocumentResponseView {
    pub id: u128,
    pub name: Seq<char>,
    pub content_type: Seq<char>,
    pub file_size: Option<u64>,
    pub created_at: Seq<char>,
}

impl View for DocumentResponse {
    type V = DocumentResponseView;

    open spec fn view(&self) -> DocumentResponseView {
        DocumentResponseView {
            id: self.id,
            name: self.name@,
            content_type: self.content_type@,
            file_size: self.file_size,
            created_at: self.created_at@,
        }
    }
}

impl DeepView for DocumentResponse {
    type V = DocumentResponseView;

    open spec fn deep_view(&self) -> DocumentResponseView {
        self@
    }
}

/// What is answered to a request for the documents of a user.
#[derive(Debug)]
pub struct ListDocumentsResponse {
    pub documents: Vec<DocumentResponse>,
}

/// What a request for documents may be narrowed by.
#[derive(Debug)]
pub struct SearchQuery {
    pub search: Option<String>,
}

/// What is sent to import files from a cloud drive.
#[derive(Debug)]
pub struct ImportCloudRequest {
    pub provider: String,
    pub file_ids: Vec<String>,
}

/// What is answered to a request to import files from a cloud drive.
#[derive(Debug)]
pub struct ImportCloudResponse {
    pub imported: usize,
    pub message: String,
}

/// Which cloud drive the files are asked of.
#[derive(Debug)]
pub struct CloudFilesQuery {
    pub provider: String,
}

/// A file on a cloud drive.
#[derive(Debug)]
pub struct CloudFile {
    pub id: String,
    pub name: String,
    pub mime_type: String,
    pub size: Option<u64>,
}

/// What is answered to a request for the files on a cloud drive.
#[derive(Debug)]
pub struct CloudFilesResponse {
    pub files: Vec<CloudFile>,
}

/// A file that was sent to be stored.
#[derive(Debug)]
pub struct UploadedFile {
    /// The name that the sender gave to the file, where they gave one.
    pub filename: Option<String>,
    /// The media type that the sender gave to the file, where they gave one.
    pub mime_type: Option<String>,
    /// What the file holds.
    pub bytes: Vec<u8>,
}

/// What is answered when files have been stored.
#[derive(Debug)]
pub struct UploadResponse {
    pub uploaded: usize,
    pub documents: Vec<DocumentResponse>,
}

/// The content type that a name in lower case stands for; unknown for any other name.
pub open spec fn content_type_named(name: Seq<char>) -> ContentType {
    if name == "text"@ {
        ContentType::Text
    } else if name == "code"@ {
        ContentType::Code
    } else if name == "markdown"@ || name == "md"@ {
        ContentType::Markdown
    } else if name == "html"@ {
        ContentType::Html
    } else if name == "json"@ {
        ContentType::Json
    } else if name == "xml"@ {
        ContentType::Xml
    } else if name == "yaml"@ || name == "yml"@ {
        ContentType::Yaml
    } else {
        ContentType::Unknown
    }
}

/// The content type that a name in lower case stands for.
pub fn content_type_for_name(name: &str) -> (r: ContentType)
    ensures
        r == content_type_named(name@),
{
    if name.eq("text") {
        ContentType::Text
    } else if name.eq("code") {
        ContentType::Code
    } else if name.eq("markdown") || name.eq("md") {
        ContentType::Markdown
    } else if name.eq("html") {
        ContentType::Html
    } else if name.eq("json") {
        ContentType::Json
    } else if name.eq("xml") {
        ContentType::Xml
    } else if name.eq("yaml") || name.eq("yml") {
        ContentType::Yaml
    } else {
        ContentType::Unknown
    }
}

/// The content type that a name stands for, whatever its case.
pub fn parse_content_type(s: &str) -> (r: ContentType)
    ensures
        r == content_type_named(lowercase(s@)),
{
    let lower = to_lowercase(s);
    content_type_for_name(lower.as_str())
}

/// The content type of an uploaded file with this extension in lower case: text, unless
/// the extension says otherwise.
pub open spec fn upload_type_of(ext: Seq<char>) -> ContentType {
    if ext == "md"@ || ext == "markdown"@ {
        ContentType::Markdown
    } else if ext == "html"@ || ext == "htm"@ {
        ContentType::Html
    } else if ext == "json"@ {
        ContentType::Json
    } else if ext == "xml"@ {
        ContentType::Xml
    } else if ext == "yaml"@ || ext == "yml"@ {
        ContentType::Yaml
    } else if ext == "rs"@ || ext == "py"@ || ext == "js"@ || ext == "ts"@ || ext == "go"@ || ext
        == "java"@ || ext == "c"@ || ext == "cpp"@ {
        ContentType::Code
    } else {
        ContentType::Text
    }
}

/// The content type of an uploaded file with the extension `ext`, given in lower case.
pub fn upload_type_for(ext: &str) -> (r: ContentType)
    ensures
        r == upload_type_of(ext@),
{
    if ext.eq("md") || ext.eq("markdown") {
        ContentType::Markdown
    } else if ext.eq("html") || ext.eq("htm") {
        ContentType::Html
    } else if ext.eq("json") {
        ContentType::Json
    } else if ext.eq("xml") {
        ContentType::Xml
    } else if ext.eq("yaml") || ext.eq("yml") {
        ContentType::Yaml
    } else if ext.eq("rs") || ext.eq("py") || ext.eq("js") || ext.eq("ts") || ext.eq("go")
        || ext.eq("java") || ext.eq("c") || ext.eq("cpp") {
        ContentType::Code
    } else {
        ContentType::Text
    }
}

/// What is told of a stored document.
pub open spec fn response_of(document: DocumentView) -> DocumentResponseView {
    DocumentResponseView {
        id: document.id,
        name: document.name,
        content_type: document.content_type.name(),
        file_size: document.file_size,
        created_at: document.created_at.text(),
    }
}

/// What is told of each of some documents, in their order.
pub open spec fn responses_of(documents: Seq<DocumentView>) -> Seq<DocumentResponseView> {
    Seq::new(documents.len(), |i: int| response_of(documents[i]))
}

/// What is told of a stored document.
pub fn document_response(document: &Document) -> (r: DocumentResponse)
    ensures
        r@ == response_of(document@),
{
    DocumentResponse {
        id: document.id,
        name: document.name.clone(),
        content_type: String::from_str(document.content_type.label()),
        file_size: document.file_size,
        created_at: document.created_at.to_rfc3339(),
    }
}

/// What is told of each of some documents, in their order.
pub fn document_responses(documents: &Vec<Document>) -> (r: Vec<DocumentResponse>)
    ensures
        r.deep_view() == responses_of(documents.deep_view()),
{
    let mut out: Vec<DocumentResponse> = Vec::new();
    let mut i: usize = 0;
    while i < documents.len()
        invariant
            i <= documents.len(),
            out.len() == i,
            forall|j: int| 0 <= j < i ==> (#[trigger] out@[j])@ == response_of(documents@[j]@),
        decreases documents.len() - i,
    {
        out.push(document_response(&documents[i]));
        i += 1;
    }
    assert(out.deep_view() =~= responses_of(documents.deep_view()));
    out
}

/// The document that a request asks to be stored for the user `user_id`, made at `at`
/// under the identity `id`: its size is the number of bytes of its content.
pub open spec fn requested(id: u128, at: Timestamp, user_id: u128, body: CreateDocumentRequest) -> DocumentView {
    DocumentView {
        content_type: match body.content_type {
            Some(name) => content_type_named(lowercase(name@)),
            None => ContentType::Text,
        },
        metadata: match body.metadata {
            Some(metadata) => metadata@,
            None => JsonModel::Object(Seq::empty()),
        },
        file_size: Some((encode_utf8(body.content@).len() as usize) as u64),
        ..Document::plain(id, at, user_id, body.name@, body.content@)
    }
}

/// Stores a document for the user.
///
/// A request that names no user is not authorized. A failure of the storage is passed on;
/// the storage is then as it was.
pub fn create_document<S: Storage>(storage: &mut S, user: Option<u128>, body: &CreateDocumentRequest) -> (r:
    Result<DocumentResponse, AppError>)
    ensures
        user is None ==> r is Err && r->Err_0@ == unauthorized(),
        user is Some && old(storage).reliable() ==> r is Ok,
        final(storage).reliable() == old(storage).reliable(),
        r is Err ==> final(storage).state() == old(storage).state(),
        r matches Ok(answer) ==> user is Some && exists|document: DocumentView|
            {
                &&& document == requested(document.id, document.created_at, user->0, *body)
                &&& final(storage).state() == (StorageState {
                    documents: old(storage).state().documents.insert(document.id, document),
                    ..old(storage).state()
                })
                &&& answer@ == #[trigger] response_of(document)
            },
{
    let user_id = match authorized(user) {
        Ok(id) => id,
        Err(e) => {
            return Err(e);
        },
    };
    let mut doc = Document::new(user_id, body.name.clone(), body.content.clone());
    match &body.content_type {
        Some(name) => {
            doc.content_type = parse_content_type(name.as_str());
        },
        None => {},
    }
    match &body.metadata {
        Some(metadata) => {
            doc.metadata = metadata.clone();
        },
        None => {},
    }
    doc.file_size = Some(body.content.as_str().len() as u64);
    let ghost made = doc@;
    assert(made == requested(made.id, made.created_at, user_id, *body));
    match storage.save_document(doc) {
        Ok(saved) => {
            let answer = document_response(&saved);
            assert(answer@ == response_of(made));
            Ok(answer)
        },
        Err(e) => Err(e),
    }
}

/// The documents of the user, or those of them that match a search, each as it is told.
///
/// A request that names no user is not authorized. A failure of the storage is passed on.
pub fn list_documents<S: Storage>(storage: &S, user: Option<u128>, query: &SearchQuery) -> (r: Result<
    ListDocumentsResponse,
    AppError,
>)
    ensures
        user is None ==> r is Err && r->Err_0@ == unauthorized(),
        user is Some && storage.reliable() ==> r is Ok,
        r matches Ok(answer) ==> user is Some && exists|documents: Seq<DocumentView>|
            {
                &&& match query.search {
                    Some(search) => lists(
                        documents,
                        storage.state().documents,
                        |d: DocumentView| matches_search(d, user->0, search@),
                    ),
                    None => lists(
                        documents,
                        storage.state().documents,
                        |d: DocumentView| d.user_id == user->0,
                    ),
                }
                &&& answer.documents.deep_view() == #[trigger] responses_of(documents)
            },
{
    let user_id = match authorized(user) {
        Ok(id) => id,
        Err(e) => {
            return Err(e);
        },
    };
    let found = match &query.search {
        Some(search) => storage.search_documents(user_id, search.as_str()),
        None => storage.get_documents_by_user(user_id),
    };
    match found {
        Ok(documents) => {
            let answer = ListDocumentsResponse { documents: document_responses(&documents) };
            assert(answer.documents.deep_view() == responses_of(documents.deep_view()));
            Ok(answer)
        },
        Err(e) => Err(e),
    }
}

/// Whether the user `user` may forget the document `id`: it must exist and be theirs.
pub open spec fn may_delete(state: StorageState, user: Option<u128>, id: u128) -> Result<(), Failure> {
    if user is None {
        Err(unauthorized())
    } else if !state.documents.dom().contains(id) {
        Err(not_found("Document not found"@))
    } else if state.documents[id].user_id != user->0 {
        Err(forbidden("You don't own this document"@))
    } else {
        Ok(())
    }
}

/// Forgets the document `id`, where it exists and belongs to the user; otherwise the
/// storage stays as it is.
pub fn delete_document<S: Storage>(storage: &mut S, user: Option<u128>, id: u128) -> (r: Result<
    (),
    AppError,
>)
    ensures
        final(storage).reliable() == old(storage).reliable(),
        r is Ok ==> may_delete(old(storage).state(), user, id) is Ok && final(storage).state() == (
        StorageState {
            documents: old(storage).state().documents.remove(id),
            ..old(storage).state()
        }),
        r matches Err(e) ==> {
            &&& final(storage).state() == old(storage).state()
            &&& may_delete(old(storage).state(), user, id) == Err::<(), Failure>(e@) || (user is Some
                && !old(storage).reliable())
        },
{
    let user_id = match authorized(user) {
        Ok(id) => id,
        Err(e) => {
            return Err(e);
        },
    };
    match storage.get_document(id) {
        Ok(Some(document)) => {
            if document.user_id != user_id {
                return Err(AppError::Forbidden(String::from_str("You don't own this document")));
            }
        },
        Ok(None) => {
            return Err(AppError::NotFound(String::from_str("Document not found")));
        },
        Err(e) => {
            return Err(e);
        },
    }
    match storage.delete_document(id) {
        Ok(_) => Ok(()),
        Err(e) => Err(e),
    }
}

/// A summary of the documents of the user.
///
/// A request that names no user is not authorized. A failure of the storage is passed on.
pub fn get_analytics<S: Storage>(storage: &S, user: Option<u128>) -> (r: Result<
    DocumentAnalytics,
    AppError,
>)
    ensures
        user is None ==> r is Err && r->Err_0@ == unauthorized(),
        user is Some && storage.reliable() ==> r is Ok,
        r matches Ok(analytics) ==> user is Some && exists|documents: Seq<DocumentView>|
            {
                &&& lists(
                    documents,
                    storage.state().documents,
                    |d: DocumentView| d.user_id == user->0,
                )
                &&& analytics@ == #[trigger] crate::storage::summary(documents)
            },
{
    let user_id = match authorized(user) {
        Ok(id) => id,
        Err(e) => {
            return Err(e);
        },
    };
    storage.get_document_analytics(user_id)
}

/// The document that an uploaded file becomes for the user `user_id`, made at `at` under
/// the identity `id`: none where the file holds no text. The file is named as the sender
/// named it, or `unknown`; its content type follows from the extension of its name.
pub open spec fn uploaded(id: u128, at: Timestamp, user_id: u128, file: UploadedFile) -> Option<
    DocumentView,
> {
    if valid_utf8(file.bytes@) {
        let name = match file.filename {
            Some(name) => name@,
            None => "unknown"@,
        };
        Some(
            DocumentView {
                content_type: upload_type_of(lowercase(after_last(name, '.'))),
                file_size: Some((file.bytes@.len() as usize) as u64),
                mime_type: Some(
                    match file.mime_type {
                        Some(mime) => mime@,
                        None => "application/octet-stream"@,
                    },
                ),
                ..Document::plain(id, at, user_id, name, decode_utf8(file.bytes@))
            },
        )
    } else {
        None
    }
}

/// The document that an uploaded file becomes for the user, under a fresh identity and
/// made now; none where the file holds no text.
pub fn document_from_upload(user_id: u128, file: UploadedFile) -> (r: Option<Document>)
    ensures
        match r {
            Some(document) => uploaded(document.id, document.created_at, user_id, file) == Some(
                document@,
            ),
            None => !valid_utf8(file.bytes@),
        },
{
    let UploadedFile { filename, mime_type, bytes } = file;
    let size = bytes.len() as u64;
    let content = match string_from_utf8(bytes) {
        Ok(content) => content,
        Err(_) => {
            return None;
        },
    };
    let name = match filename {
        Some(name) => name,
        None => String::from_str("unknown"),
    };
    let ext = to_lowercase(text_after_last(name.as_str(), '.').as_str());
    let mut doc = Document::new(user_id, name, content);
    doc.file_size = Some(size);
    doc.mime_type = Some(
        match mime_type {
            Some(mime) => mime,
            None => String::from_str("application/octet-stream"),
        },
    );
    doc.content_type = upload_type_for(ext.as_str());
    Some(doc)
}

/// The uploaded files that hold text, in their order.
pub open spec fn texts_among(files: Seq<UploadedFile>) -> Seq<UploadedFile>
    decreases files.len(),
{
    if files.len() == 0 {
        Seq::empty()
    } else {
        let rest = texts_among(files.drop_last());
        if valid_utf8(files.last().bytes@) {
            rest.push(files.last())
        } else {
            rest
        }
    }
}

/// Whether `told` tells of the document that `file` has become for the user.
pub open spec fn stored_upload(told: DocumentResponseView, file: UploadedFile, user_id: u128) -> bool {
    exists|document: DocumentView|
        {
            &&& uploaded(document.id, document.created_at, user_id, file) == Some(document)
            &&& told == #[trigger] response_of(document)
        }
}

/// Stores the uploaded files that hold text as documents of the user, and tells of each
/// what was stored, in the order of the files; a file that holds no text is passed over.
///
/// A request that names no user is not authorized. Where the storage fails, the failure
/// is passed on; the files before the one that failed stay stored.
pub fn upload_document<S: Storage>(storage: &mut S, user: Option<u128>, files: Vec<UploadedFile>) -> (r:
    Result<UploadResponse, AppError>)
    ensures
        user is None ==> r is Err && r->Err_0@ == unauthorized() && final(storage).state() == old(
            storage,
        ).state(),
        user is Some && old(storage).reliable() ==> r is Ok,
        final(storage).reliable() == old(storage).reliable(),
        final(storage).state().sources == old(storage).state().sources,
        final(storage).state().jobs == old(storage).state().jobs,
        final(storage).state().installations == old(storage).state().installations,
        final(storage).state().repo_configs == old(storage).state().repo_configs,
        r matches Ok(answer) ==> {
            &&& user is Some
            &&& answer.uploaded == answer.documents.len()
            &&& answer.documents.len() == texts_among(files@).len()
            &&& forall|j: int|
                0 <= j < answer.documents.len() ==> {
                    let told = (#[trigger] answer.documents@[j])@;
                    &&& final(storage).state().documents.dom().contains(told.id)
                    &&& stored_upload(told, texts_among(files@)[j], user->0)
                }
        },
{
    let user_id = match authorized(user) {
        Ok(id) => id,
        Err(e) => {
            return Err(e);
        },
    };
    let mut told: Vec<DocumentResponse> = Vec::new();
    let ghost all = files@;
    let mut files = files;
    // The files are turned round, so that they can be taken from the end in their order.
    let mut queue: Vec<UploadedFile> = Vec::new();
    while files.len() > 0
        invariant
            queue@.len() + files@.len() == all.len(),
            forall|k: int| 0 <= k < files@.len() ==> files@[k] == all[k],
            forall|k: int| 0 <= k < queue@.len() ==> queue@[k] == all[all.len() - 1 - k],
        decreases files.len(),
    {
        match files.pop() {
            Some(file) => queue.push(file),
            None => {},
        }
    }
    let ghost mut done: int = 0;
    assert(all.take(0) =~= Seq::empty());
    while queue.len() > 0
        invariant
            user == Some(user_id),
            0 <= done <= all.len(),
            queue@.len() == all.len() - done,
            forall|k: int| 0 <= k < queue@.len() ==> queue@[k] == all[all.len() - 1 - k],
            storage.reliable() == old(storage).reliable(),
            storage.state().sources == old(storage).state().sources,
            storage.state().jobs == old(storage).state().jobs,
            storage.state().installations == old(storage).state().installations,
            storage.state().repo_configs == old(storage).state().repo_configs,
            told@.len() == texts_among(all.take(done)).len(),
            forall|j: int|
                0 <= j < told@.len() ==> storage.state().documents.dom().contains(
                    (#[trigger] told@[j])@.id,
                ) && stored_upload(told@[j]@, texts_among(all.take(done))[j], user_id),
        decreases queue.len(),
    {
        let ghost before = all.take(done);
        let ghost after = all.take(done + 1);
        let ghost listed = texts_among(before);
        let file = queue.pop().unwrap();
        proof {
            assert(file == all[done]);
            assert(after.drop_last() =~= before);
            assert(after.last() == file);
        }
        match document_from_upload(user_id, file) {
            Some(document) => {
                let ghost made = document@;
                match storage.save_document(document) {
                    Ok(saved) => {
                        told.push(document_response(&saved));
                        proof {
                            assert(texts_among(after) == listed.push(file));
                            assert(response_of(made) == told@[told@.len() - 1]@);
                            assert(stored_upload(told@[told@.len() - 1]@, file, user_id));
                        }
                    },
                    Err(e) => {
                        return Err(e);
                    },
                }
            },
            None => {},
        }
        proof {
            done = done + 1;
        }
    }
    assert(all.take(all.len() as int) =~= all);
    Ok(UploadResponse { uploaded: told.len(), documents: told })
}

/// Nothing is imported from cloud drives yet: the answer says so, and how many files
/// were asked for.
pub fn import_cloud(user: Option<u128>, body: &ImportCloudRequest) -> (r: Result<
    ImportCloudResponse,
    AppError,
>)
    ensures
        match user {
            None => r is Err && r->Err_0@ == unauthorized(),
            Some(_) => r is Ok && r->Ok_0.imported == 0 && r->Ok_0.message@
                == "Cloud import from "@ + body.provider@ + " not yet implemented. Requested "@
                + decimal(body.file_ids.len() as nat) + " files."@,
        },
{
    match authorized(user) {
        Ok(_) => {},
        Err(e) => {
            return Err(e);
        },
    }
    let message = join4(
        "Cloud import from ",
        body.provider.as_str(),
        " not yet implemented. Requested ",
        decimal_text(body.file_ids.len() as u64).as_str(),
    ).concat(" files.");
    Ok(ImportCloudResponse { imported: 0, message })
}

/// No files of cloud drives are listed yet: the answer holds none.
pub fn list_cloud_files(user: Option<u128>, query: &CloudFilesQuery) -> (r: Result<
    CloudFilesResponse,
    AppError,
>)
    ensures
        match user {
            None => r is Err && r->Err_0@ == unauthorized(),
            Some(_) => r is Ok && r->Ok_0.files.len() == 0,
        },
{
    match authorized(user) {
        Ok(_) => {},
        Err(e) => {
            return Err(e);
        },
    }
    Ok(CloudFilesResponse { files: Vec::new() })
}

} // verus!
