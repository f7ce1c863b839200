//! What operations produce, and the form in which results leave the bridge.

use crate::failure::{failure_message, failure_text, FailureKind};
use crate::metadata::Metadata;
use vstd::prelude::*;

verus! {

/// An embedding as the engine hands it back: one dense vector, or several
/// vectors for one input.
pub enum EmbeddingResult<E> {
    DenseVector(Vec<E>),
    MultiVector(Vec<Vec<E>>),
}

/// One embedded chunk: its embedding, the text it came from, and key/value
/// metadata.
pub struct EmbedData<E> {
    pub embedding: EmbeddingResult<E>,
    pub text: Option<String>,
    pub metadata: Option<Metadata>,
}

/// Result of embedding one text.
pub struct SingleEmbeddingResult<E> {
    pub values: Vec<E>,
}

/// Result of embedding a batch of texts, in input order.
pub struct BatchEmbeddingResult<E> {
    pub embeddings: Vec<Vec<E>>,
}

/// Result of embedding a file or a directory, one item per chunk.
pub struct FileEmbeddingResult<E> {
    pub items: Vec<EmbedData<E>>,
}

/// Result of loading a model: a handle to it.
pub struct ModelLoadResult<M> {
    pub embedder: M,
}

/// What a finished operation holds, one variant per kind of operation.
pub enum AsyncResultData<E, M> {
    SingleEmbedding(SingleEmbeddingResult<E>),
    BatchEmbedding(BatchEmbeddingResult<E>),
    FileEmbedding(FileEmbeddingResult<E>),
    ModelLoad(ModelLoadResult<M>),
}

/// The kind of a delivered result.
#[derive(Debug, Clone, Copy, PartialEq, Eq, Structural)]
pub enum AsyncResultType {
    SingleEmbedding,
    BatchEmbedding,
    FileEmbedding,
    ModelLoad,
}

impl AsyncResultType {
    pub open spec fn code_spec(self) -> i32 {
        match self {
            AsyncResultType::SingleEmbedding => 0,
            AsyncResultType::BatchEmbedding => 1,
            AsyncResultType::FileEmbedding => 2,
            AsyncResultType::ModelLoad => 3,
        }
    }

    /// The numeric code of the kind on the foreign boundary.
    pub fn code(&self) -> (r: i32)
        ensures
            r == self.code_spec(),
    {
        match self {
            AsyncResultType::SingleEmbedding => 0,
            AsyncResultType::BatchEmbedding => 1,
            AsyncResultType::FileEmbedding => 2,
            AsyncResultType::ModelLoad => 3,
        }
    }
}

/// A chunk whose embedding is one dense vector.
pub struct DenseEmbedData<E> {
    pub values: Vec<E>,
    pub text: Option<String>,
    pub metadata: Option<Metadata>,
}

/// A result handed to the caller, who owns it from then on.
pub enum ResultPayload<E, M> {
    SingleVector(Vec<E>),
    VectorBatch(Vec<Vec<E>>),
    DocumentBatch(Vec<DenseEmbedData<E>>),
    LoadedModel(M),
}

impl<E, M> ResultPayload<E, M> {
    pub open spec fn result_type_spec(&self) -> AsyncResultType {
        match self {
            ResultPayload::SingleVector(_) => AsyncResultType::SingleEmbedding,
            ResultPayload::VectorBatch(_) => AsyncResultType::BatchEmbedding,
            ResultPayload::DocumentBatch(_) => AsyncResultType::FileEmbedding,
            ResultPayload::LoadedModel(_) => AsyncResultType::ModelLoad,
        }
    }

    /// The kind of this payload.
    pub fn result_type(&self) -> (r: AsyncResultType)
        ensures
            r == self.result_type_spec(),
    {
        match self {
            ResultPayload::SingleVector(_) => AsyncResultType::SingleEmbedding,
            ResultPayload::VectorBatch(_) => AsyncResultType::BatchEmbedding,
            ResultPayload::DocumentBatch(_) => AsyncResultType::FileEmbedding,
            ResultPayload::LoadedModel(_) => AsyncResultType::ModelLoad,
        }
    }
}

/// The chunk `d` with its dense vector, or `None` when it holds several vectors.
pub open spec fn dense_of<E>(d: EmbedData<E>) -> Option<DenseEmbedData<E>> {
    match d.embedding {
        EmbeddingResult::DenseVector(v) => Some(DenseEmbedData { values: v, text: d.text, metadata: d.metadata }),
        EmbeddingResult::MultiVector(_) => None,
    }
}

/// Whether every chunk of `items` has a dense embedding.
pub open spec fn all_dense<E>(items: Seq<EmbedData<E>>) -> bool {
    forall|k: int| 0 <= k < items.len() ==> (#[trigger] items[k]).embedding is DenseVector
}

/// `docs` holds the dense form of each chunk of `items`, in order.
pub open spec fn dense_forms<E>(items: Seq<EmbedData<E>>, docs: Seq<DenseEmbedData<E>>) -> bool {
    &&& docs.len() == items.len()
    &&& forall|k: int| 0 <= k < items.len() ==> dense_of(#[trigger] items[k]) == Some(docs[k])
}

/// The dense form of every chunk, or `None` when any chunk holds several
/// vectors.
pub fn dense_items<E>(items: Vec<EmbedData<E>>) -> (r: Option<Vec<DenseEmbedData<E>>>)
    ensures
        r is Some <==> all_dense(items@),
        r matches Some(docs) ==> dense_forms(items@, docs@),
{
    let ghost orig = items@;
    let mut out: Vec<DenseEmbedData<E>> = Vec::new();
    for d in it: items.into_iter()
        invariant
            it.seq() == orig,
            out@.len() == it.index(),
            forall|k: int| 0 <= k < it.index() ==> dense_of(#[trigger] orig[k]) == Some(out@[k]),
    {
        match d.embedding {
            EmbeddingResult::DenseVector(v) => {
                out.push(DenseEmbedData { values: v, text: d.text, metadata: d.metadata });
            },
            EmbeddingResult::MultiVector(_) => {
                return None;
            },
        }
    }
    Some(out)
}

/// The message given when a file result holds a chunk with several vectors.
pub open spec fn multi_vector_file_text() -> Seq<char> {
    failure_text(FailureKind::MultiVectorNotSupported, "Multi-vector embeddings are not supported"@)
}

/// The message given when a synchronous call meets a chunk with several vectors.
pub open spec fn multi_vector_chunk_text() -> Seq<char> {
    failure_text(
        FailureKind::MultiVectorNotSupported,
        "Multi-vector embeddings are not supported in this version"@,
    )
}

/// The dense form of one chunk; a chunk with several vectors is refused.
pub fn embed_data_to_dense<E>(data: EmbedData<E>) -> (r: Result<DenseEmbedData<E>, String>)
    ensures
        r is Ok <==> data.embedding is DenseVector,
        r matches Ok(doc) ==> dense_of(data) == Some(doc),
        r matches Err(m) ==> m@ == multi_vector_chunk_text(),
{
    match data.embedding {
        EmbeddingResult::DenseVector(v) => Ok(DenseEmbedData { values: v, text: data.text, metadata: data.metadata }),
        EmbeddingResult::MultiVector(_) => Err(
            failure_message(
                FailureKind::MultiVectorNotSupported,
                "Multi-vector embeddings are not supported in this version",
            ),
        ),
    }
}

/// The dense form of every chunk of a synchronous file or directory result;
/// nothing is delivered when any chunk holds several vectors.
pub fn embed_data_vec_to_batch<E>(items: Vec<EmbedData<E>>) -> (r: Result<Vec<DenseEmbedData<E>>, String>)
    ensures
        r is Ok <==> all_dense(items@),
        r matches Ok(docs) ==> dense_forms(items@, docs@),
        r matches Err(m) ==> m@ == multi_vector_chunk_text(),
{
    match dense_items(items) {
        Some(docs) => Ok(docs),
        None => Err(
            failure_message(
                FailureKind::MultiVectorNotSupported,
                "Multi-vector embeddings are not supported in this version",
            ),
        ),
    }
}

/// The dense form of every chunk of a finished file or directory operation;
/// nothing is delivered when any chunk holds several vectors.
pub fn convert_file_result<E>(items: Vec<EmbedData<E>>) -> (r: Result<Vec<DenseEmbedData<E>>, String>)
    ensures
        r is Ok <==> all_dense(items@),
        r matches Ok(docs) ==> dense_forms(items@, docs@),
        r matches Err(m) ==> m@ == multi_vector_file_text(),
{
    match dense_items(items) {
        Some(docs) => Ok(docs),
        None => Err(
            failure_message(FailureKind::MultiVectorNotSupported, "Multi-vector embeddings are not supported"),
        ),
    }
}

} // verus!
