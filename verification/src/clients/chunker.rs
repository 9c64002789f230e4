//! The service that splits documents into chunks: what is asked of it and what its answers
//! mean.

use vstd::prelude::*;
use crate::clients::http::join4;
use crate::clients::http::service_error;
use crate::clients::http::service_failure;
use crate::clients::http::ApiReply;
use crate::clients::http::ApiRequest;
use crate::clients::http::ApiRequestView;
use crate::clients::http::HttpMethod;
use crate::domain::models::NormalizedDocument;
use crate::domain::models::NormalizedDocumentView;
use crate::domain::models::SourceKind;
use crate::error::AppError;
use crate::error::Failure;
use crate::json::JsonModel;
use crate::json::JsonValue;

verus! {

/// The client of the chunking service.
#[derive(Debug)]
pub struct ChunkerClient {
    /// Where the chunking service is reached.
    pub base_url: String,
}

impl Clone for ChunkerClient {
    fn clone(&self) -> (r: Self)
        ensures
            r.base_url@ == self.base_url@,
    {
        ChunkerClient { base_url: self.base_url.clone() }
    }
}

/// What the chunking service answers when it has taken a batch of documents.
#[derive(Debug)]
pub struct ChunkJobResponse {
    /// The identity of the job that the service has made of the batch.
    pub job_id: u128,
    /// Whether the service has accepted the batch.
    pub accepted: bool,
    /// How many documents the service counted in the batch.
    pub items_count: usize,
    pub message: Option<String>,
}

/// The answer of the chunking service as the contracts see it.
pub struct ChunkJobResponseView {
    pub job_id: u128,
    pub accepted: bool,
    pub items_count: usize,
    pub message: Option<Seq<char>>,
}

impl View for ChunkJobResponse {
    type V = ChunkJobResponseView;

    open spec fn view(&self) -> ChunkJobResponseView {
        ChunkJobResponseView {
            job_id: self.job_id,
            accepted: self.accepted,
            items_count: self.items_count,
            message: self.message.deep_view(),
        }
    }
}

impl ChunkerClient {
    pub fn new(base_url: String) -> (r: Self)
        ensures
            r.base_url@ == base_url@,
    {
        ChunkerClient { base_url }
    }
}

/// One document as it is handed to the chunking service.
#[derive(Debug)]
pub struct ChunkItem {
    pub id: u128,
    pub source_id: u128,
    pub source_kind: SourceKind,
    /// The name of the content type of the document, in lower case.
    pub content_type: String,
    pub content: String,
    pub metadata: JsonValue,
    /// When the document was made, as RFC 3339 text.
    pub created_at: Option<String>,
    /// When the document was last changed, as RFC 3339 text.
    pub updated_at: Option<String>,
}

/// An item as the contracts see it.
pub struct ChunkItemView {
    pub id: u128,
    pub source_id: u128,
    pub source_kind: SourceKind,
    pub content_type: Seq<char>,
    pub content: Seq<char>,
    pub metadata: JsonModel,
    pub created_at: Option<Seq<char>>,
    pub updated_at: Option<Seq<char>>,
}

impl View for ChunkItem {
    type V = ChunkItemView;

    open spec fn view(&self) -> ChunkItemView {
        ChunkItemView {
            id: self.id,
            source_id: self.source_id,
            source_kind: self.source_kind,
            content_type: self.content_type@,
            content: self.content@,
            metadata: self.metadata@,
            created_at: self.created_at.deep_view(),
            updated_at: self.updated_at.deep_view(),
        }
    }
}

impl DeepView for ChunkItem {
    type V = ChunkItemView;

    open spec fn deep_view(&self) -> ChunkItemView {
        self@
    }
}

/// What is handed to the chunking service: a batch of documents of one source.
#[derive(Debug)]
pub struct CreateChunkJobRequest {
    pub source_id: u128,
    pub source_kind: SourceKind,
    pub items: Vec<ChunkItem>,
}

/// The item that a document becomes in a batch of the kind `source_kind`.
pub open spec fn item_of(source_kind: SourceKind, doc: NormalizedDocumentView) -> ChunkItemView {
    ChunkItemView {
        id: doc.id,
        source_id: doc.source_id,
        source_kind,
        content_type: doc.content_type.name(),
        content: doc.content,
        metadata: doc.metadata,
        created_at: Some(doc.created_at.text()),
        updated_at: Some(doc.updated_at.text()),
    }
}

/// What the answer of the chunking service comes to: what it held, or the failure of the
/// service.
pub open spec fn chunk_job_of(reply: ApiReply<ChunkJobResponse>) -> Result<ChunkJobResponse, Failure> {
    match reply {
        ApiReply::Unreachable(why) => Err(
            service_failure("Chunker service request failed: "@ + why@),
        ),
        ApiReply::Rejected { status, body, .. } => Err(
            service_failure("Chunker service returned "@ + status@ + ": "@ + body@),
        ),
        ApiReply::Garbled(why) => Err(
            service_failure("Failed to parse chunker response: "@ + why@),
        ),
        ApiReply::Accepted(held) => Ok(held),
    }
}

impl ChunkerClient {
    /// The request that hands a batch to the chunking service.
    pub fn chunk_job_request(&self) -> (r: ApiRequest)
        ensures
            r@ == (ApiRequestView {
                method: HttpMethod::Post,
                url: self.base_url@ + "/chunk/jobs"@,
                headers: Seq::empty(),
            }),
    {
        let headers: Vec<(String, String)> = Vec::new();
        assert(headers.deep_view() =~= Seq::empty());
        ApiRequest {
            method: HttpMethod::Post,
            url: self.base_url.clone().concat("/chunk/jobs"),
            headers,
        }
    }

    /// The item that a document becomes in a batch of the kind `source_kind`.
    pub fn item(source_kind: SourceKind, doc: &NormalizedDocument) -> (r: ChunkItem)
        ensures
            r@ == item_of(source_kind, doc@),
    {
        ChunkItem {
            id: doc.id,
            source_id: doc.source_id,
            source_kind,
            content_type: String::from_str(doc.content_type.label()),
            content: doc.content.clone(),
            metadata: doc.metadata.clone(),
            created_at: Some(doc.created_at.to_rfc3339()),
            updated_at: Some(doc.updated_at.to_rfc3339()),
        }
    }

    /// The batch that hands the documents of a source to the chunking service: one item
    /// for each document, in their order.
    pub fn chunk_job(source_id: u128, source_kind: SourceKind, documents: &Vec<NormalizedDocument>) -> (r:
        CreateChunkJobRequest)
        ensures
            r.source_id == source_id,
            r.source_kind == source_kind,
            r.items.len() == documents.len(),
            forall|i: int|
                0 <= i < documents.len() ==> (#[trigger] r.items@[i])@ == item_of(
                    source_kind,
                    documents@[i]@,
                ),
    {
        let mut items: Vec<ChunkItem> = Vec::new();
        let mut i: usize = 0;
        while i < documents.len()
            invariant
                i <= documents.len(),
                items.len() == i,
                forall|j: int|
                    0 <= j < i ==> (#[trigger] items@[j])@ == item_of(source_kind, documents@[j]@),
            decreases documents.len() - i,
        {
            items.push(Self::item(source_kind, &documents[i]));
            i += 1;
        }
        CreateChunkJobRequest { source_id, source_kind, items }
    }

    /// What the chunking service has made of a batch, read from its answer. An answer
    /// that is no success, or that cannot be read, is a failure of the service, and so is
    /// a request that could not be carried out.
    pub fn create_chunk_job(reply: ApiReply<ChunkJobResponse>) -> (r: Result<
        ChunkJobResponse,
        AppError,
    >)
        ensures
            match r {
                Ok(held) => chunk_job_of(reply) == Ok::<ChunkJobResponse, Failure>(held),
                Err(e) => chunk_job_of(reply) == Err::<ChunkJobResponse, Failure>(e@),
            },
    {
        match reply {
            ApiReply::Unreachable(why) => Err(
                service_error("Chunker service request failed: ", why.as_str()),
            ),
            ApiReply::Rejected { status, body, .. } => Err(
                AppError::ExternalService(
                    join4("Chunker service returned ", status.as_str(), ": ", body.as_str()),
                ),
            ),
            ApiReply::Garbled(why) => Err(
                service_error("Failed to parse chunker response: ", why.as_str()),
            ),
            ApiReply::Accepted(held) => Ok(held),
        }
    }
}

} // verus!
