//! What a background worker decides: how the engine's answer becomes the final
//! state of its operation, and when a cancellation wins.

use crate::failure::{
    batch_failure_message, batch_failure_text, directory_failure_message, directory_failure_text,
    failure_message, failure_text, file_failure_message, file_failure_text, load_failure_message,
    load_failure_text, query_failure_message, query_failure_text, FailureKind,
};
use crate::payload::{
    AsyncResultData, BatchEmbeddingResult, EmbedData, EmbeddingResult, FileEmbeddingResult,
    ModelLoadResult, SingleEmbeddingResult,
};
use crate::registry::{
    store_cancelled, store_error, store_success, AsyncOperationStatus, Registry, RegistryView,
};
use crate::text::lower_of;
use vstd::prelude::*;

verus! {

/// Why an engine answer holds no usable vector.
#[derive(Debug, Clone, Copy, PartialEq, Eq, Structural)]
pub enum VectorFault {
    /// The engine answered with no embedding at all.
    NoResult,
    /// The embedding has no components.
    EmptyVector,
    /// The embedding holds several vectors.
    SeveralVectors,
}

/// The message for a vector fault. Synchronous calls add " in this version"
/// to the several-vectors message.
pub open spec fn fault_text(fault: VectorFault, synchronous: bool) -> Seq<char> {
    match fault {
        VectorFault::NoResult => failure_text(FailureKind::EmbeddingFailed, "embed_query returned empty result"@),
        VectorFault::EmptyVector => failure_text(
            FailureKind::EmbeddingFailed,
            "Generated embedding vector is empty"@,
        ),
        VectorFault::SeveralVectors => if synchronous {
            failure_text(FailureKind::MultiVector, "Multi-vector embeddings are not supported in this version"@)
        } else {
            failure_text(FailureKind::MultiVector, "Multi-vector embeddings are not supported"@)
        },
    }
}

/// Builds the message for a vector fault.
pub fn fault_message(fault: VectorFault, synchronous: bool) -> (r: String)
    ensures
        r@ == fault_text(fault, synchronous),
{
    match fault {
        VectorFault::NoResult => failure_message(FailureKind::EmbeddingFailed, "embed_query returned empty result"),
        VectorFault::EmptyVector => failure_message(
            FailureKind::EmbeddingFailed,
            "Generated embedding vector is empty",
        ),
        VectorFault::SeveralVectors => if synchronous {
            failure_message(FailureKind::MultiVector, "Multi-vector embeddings are not supported in this version")
        } else {
            failure_message(FailureKind::MultiVector, "Multi-vector embeddings are not supported")
        },
    }
}

/// A single dense vector with at least one component.
pub open spec fn usable<E>(e: EmbeddingResult<E>) -> bool {
    e matches EmbeddingResult::DenseVector(v) && v.len() > 0
}

/// Why `e` is not usable.
pub open spec fn fault_of<E>(e: EmbeddingResult<E>) -> VectorFault {
    match e {
        EmbeddingResult::DenseVector(_) => VectorFault::EmptyVector,
        EmbeddingResult::MultiVector(_) => VectorFault::SeveralVectors,
    }
}

/// `i` is the first position of `s` that holds no usable vector.
pub open spec fn first_unusable<E>(s: Seq<EmbeddingResult<E>>, i: int) -> bool {
    &&& 0 <= i < s.len()
    &&& !usable(s[i])
    &&& forall|j: int| 0 <= j < i ==> usable(#[trigger] s[j])
}

/// The vector of one embedding.
pub fn single_vector<E>(e: EmbeddingResult<E>) -> (r: Result<Vec<E>, VectorFault>)
    ensures
        r is Ok <==> usable(e),
        r matches Ok(v) ==> e == EmbeddingResult::DenseVector(v),
        r matches Err(f) ==> f == fault_of(e),
{
    match e {
        EmbeddingResult::DenseVector(v) => if v.len() == 0 {
            Err(VectorFault::EmptyVector)
        } else {
            Ok(v)
        },
        EmbeddingResult::MultiVector(_) => Err(VectorFault::SeveralVectors),
    }
}

/// The vector of the first chunk a query answer holds.
pub fn first_vector<E>(items: Vec<EmbedData<E>>) -> (r: Result<Vec<E>, VectorFault>)
    ensures
        items.len() == 0 ==> r == Err::<Vec<E>, VectorFault>(VectorFault::NoResult),
        items.len() > 0 ==> (r is Ok <==> usable(items@[0].embedding)),
        items.len() > 0 && r is Ok ==> items@[0].embedding == EmbeddingResult::DenseVector(r->Ok_0),
        items.len() > 0 && r is Err ==> r->Err_0 == fault_of(items@[0].embedding),
{
    let mut items = items;
    if items.len() == 0 {
        return Err(VectorFault::NoResult);
    }
    let first = items.swap_remove(0);
    single_vector(first.embedding)
}

/// The vectors of a batch answer, in order; the first unusable one decides the
/// fault.
pub fn dense_vectors<E>(results: Vec<EmbeddingResult<E>>) -> (r: Result<Vec<Vec<E>>, VectorFault>)
    ensures
        r is Ok <==> forall|k: int| 0 <= k < results.len() ==> usable(#[trigger] results@[k]),
        r matches Ok(vs) ==> vs.len() == results.len() && forall|k: int|
            0 <= k < results.len() ==> #[trigger] results@[k] == EmbeddingResult::DenseVector(vs@[k]),
        r matches Err(f) ==> exists|i: int| first_unusable(results@, i) && f == fault_of(results@[i]),
{
    let ghost orig = results@;
    let mut out: Vec<Vec<E>> = Vec::new();
    for e in it: results.into_iter()
        invariant
            it.seq() == orig,
            out@.len() == it.index(),
            forall|k: int| 0 <= k < it.index() ==> usable(#[trigger] orig[k]),
            forall|k: int| 0 <= k < it.index() ==> #[trigger] orig[k] == EmbeddingResult::DenseVector(out@[k]),
    {
        let ghost i = it.index();
        match single_vector(e) {
            Ok(v) => {
                out.push(v);
            },
            Err(f) => {
                assert(first_unusable(orig, i as int));
                return Err(f);
            },
        }
    }
    Ok(out)
}

/// What a worker concluded from the engine's answer.
pub enum Verdict<E, M> {
    Success(AsyncResultData<E, M>),
    Failure(String),
}

/// `r` is a failure with the message `text`.
pub open spec fn fails_with<E, M>(r: Verdict<E, M>, text: Seq<char>) -> bool {
    r matches Verdict::Failure(m) && m@ == text
}

/// The verdict on loading the model `model_id`: the model handle, or the
/// classified engine error.
pub fn load_verdict<E, M>(model_id: &str, outcome: Result<M, String>) -> (r: Verdict<E, M>)
    ensures
        outcome matches Ok(m) ==> r == Verdict::<E, M>::Success(
            AsyncResultData::ModelLoad(ModelLoadResult { embedder: m }),
        ),
        outcome matches Err(e) ==> fails_with(r, load_failure_text(model_id@, e@, lower_of(e@))),
{
    match outcome {
        Ok(m) => Verdict::Success(AsyncResultData::ModelLoad(ModelLoadResult { embedder: m })),
        Err(e) => Verdict::Failure(load_failure_message(model_id, e.as_str())),
    }
}

/// `r` is the verdict on a query answered with the chunks `items`.
pub open spec fn text_outcome<E, M>(items: Seq<EmbedData<E>>, r: Verdict<E, M>) -> bool {
    if items.len() == 0 {
        fails_with(r, fault_text(VectorFault::NoResult, false))
    } else if usable(items[0].embedding) {
        r == Verdict::<E, M>::Success(
            AsyncResultData::SingleEmbedding(SingleEmbeddingResult { values: items[0].embedding->DenseVector_0 }),
        )
    } else {
        fails_with(r, fault_text(fault_of(items[0].embedding), false))
    }
}

/// The verdict on embedding one text: the first chunk's vector, which must be
/// a non-empty dense vector.
pub fn text_verdict<E, M>(outcome: Result<Vec<EmbedData<E>>, String>) -> (r: Verdict<E, M>)
    ensures
        outcome matches Err(e) ==> fails_with(r, query_failure_text(e@, lower_of(e@))),
        outcome matches Ok(items) ==> text_outcome(items@, r),
{
    match outcome {
        Err(e) => Verdict::Failure(query_failure_message(e.as_str())),
        Ok(items) => match first_vector(items) {
            Ok(values) => Verdict::Success(AsyncResultData::SingleEmbedding(SingleEmbeddingResult { values })),
            Err(f) => Verdict::Failure(fault_message(f, false)),
        },
    }
}

/// `r` is the verdict on a batch answered with `rs`.
pub open spec fn batch_outcome<E, M>(rs: Seq<EmbeddingResult<E>>, r: Verdict<E, M>) -> bool {
    &&& (forall|k: int| 0 <= k < rs.len() ==> usable(#[trigger] rs[k])) ==> (r matches Verdict::Success(
        AsyncResultData::BatchEmbedding(b),
    ) && b.embeddings.len() == rs.len() && forall|k: int|
        0 <= k < rs.len() ==> #[trigger] rs[k] == EmbeddingResult::DenseVector(b.embeddings@[k]))
    &&& forall|i: int| first_unusable(rs, i) ==> fails_with(r, fault_text(fault_of(#[trigger] rs[i]), false))
}

/// The verdict on embedding a batch of `count` texts: every answer must be a
/// non-empty dense vector; the first that is not decides the failure.
pub fn batch_verdict<E, M>(count: usize, outcome: Result<Vec<EmbeddingResult<E>>, String>) -> (r: Verdict<E, M>)
    ensures
        outcome matches Err(e) ==> fails_with(r, batch_failure_text(count as nat, e@, lower_of(e@))),
        outcome matches Ok(rs) ==> batch_outcome(rs@, r),
{
    match outcome {
        Err(e) => Verdict::Failure(batch_failure_message(count, e.as_str())),
        Ok(results) => {
            let ghost rs = results@;
            match dense_vectors(results) {
                Ok(embeddings) => Verdict::Success(AsyncResultData::BatchEmbedding(BatchEmbeddingResult { embeddings })),
                Err(f) => {
                    assert forall|i: int| first_unusable(rs, i) implies f == fault_of(rs[i]) by {
                        let w = choose|w: int| first_unusable(rs, w) && f == fault_of(rs[w]);
                        if w < i {
                            assert(usable(rs[w]));
                        } else if i < w {
                            assert(usable(rs[i]));
                        }
                    }
                    Verdict::Failure(fault_message(f, false))
                },
            }
        },
    }
}

/// The verdict on embedding the file `path`.
pub fn file_verdict<E, M>(path: &str, outcome: Result<Option<Vec<EmbedData<E>>>, String>) -> (r: Verdict<E, M>)
    ensures
        outcome matches Ok(Some(items)) ==> r == Verdict::<E, M>::Success(
            AsyncResultData::FileEmbedding(FileEmbeddingResult { items }),
        ),
        outcome matches Ok(None) ==> fails_with(
            r,
            failure_text(FailureKind::EmbeddingFailed, "embed_file returned None"@),
        ),
        outcome matches Err(e) ==> fails_with(r, file_failure_text(path@, e@, lower_of(e@))),
{
    match outcome {
        Ok(Some(items)) => Verdict::Success(AsyncResultData::FileEmbedding(FileEmbeddingResult { items })),
        Ok(None) => Verdict::Failure(failure_message(FailureKind::EmbeddingFailed, "embed_file returned None")),
        Err(e) => Verdict::Failure(file_failure_message(path, e.as_str())),
    }
}

/// The verdict on embedding the directory `dir`.
pub fn directory_verdict<E, M>(dir: &str, outcome: Result<Option<Vec<EmbedData<E>>>, String>) -> (r: Verdict<E, M>)
    ensures
        outcome matches Ok(Some(items)) ==> r == Verdict::<E, M>::Success(
            AsyncResultData::FileEmbedding(FileEmbeddingResult { items }),
        ),
        outcome matches Ok(None) ==> fails_with(
            r,
            failure_text(FailureKind::EmbeddingFailed, "embed_directory_stream returned None"@),
        ),
        outcome matches Err(e) ==> fails_with(r, directory_failure_text(dir@, e@, lower_of(e@))),
{
    match outcome {
        Ok(Some(items)) => Verdict::Success(AsyncResultData::FileEmbedding(FileEmbeddingResult { items })),
        Ok(None) => Verdict::Failure(
            failure_message(FailureKind::EmbeddingFailed, "embed_directory_stream returned None"),
        ),
        Err(e) => Verdict::Failure(directory_failure_message(dir, e.as_str())),
    }
}

/// The verdict when the engine call broke down without an answer.
pub fn engine_fault_verdict<E, M>() -> (r: Verdict<E, M>)
    ensures
        fails_with(r, failure_text(FailureKind::EmbeddingFailed, "engine call aborted"@)),
{
    Verdict::Failure(failure_message(FailureKind::EmbeddingFailed, "engine call aborted"))
}

impl<E, M> RegistryView<E, M> {
    /// The state after the worker of `id` writes its final state: cancelled
    /// when its token was found set, else what the verdict says.
    pub open spec fn finished(self, id: i64, cancelled: bool, verdict: Verdict<E, M>) -> Self {
        if cancelled {
            self.completed(id, AsyncOperationStatus::Cancelled, None)
        } else {
            match verdict {
                Verdict::Success(data) => self.completed(id, AsyncOperationStatus::Success, Some(data)),
                Verdict::Failure(m) => self.completed(id, AsyncOperationStatus::Error(m), None),
            }
        }
    }
}

/// A worker's checkpoint: when the token was found set, the operation is
/// recorded as cancelled and the worker stops (`true`); otherwise nothing
/// changes and the worker goes on.
pub fn worker_checkpoint<E, M>(registry: &mut Registry<E, M>, op_id: i64, cancelled: bool) -> (stop: bool)
    requires
        old(registry).wf(),
    ensures
        final(registry).wf(),
        stop == cancelled,
        final(registry)@ == (if cancelled {
            old(registry)@.completed(op_id, AsyncOperationStatus::Cancelled, None)
        } else {
            old(registry)@
        }),
        old(registry)@.step_to(final(registry)@, None),
{
    if cancelled {
        store_cancelled(registry, op_id);
        true
    } else {
        false
    }
}

/// The worker's last step, after the engine answered: a cancellation seen at
/// this checkpoint discards the verdict; otherwise the verdict is written.
pub fn worker_finish<E, M>(registry: &mut Registry<E, M>, op_id: i64, cancelled: bool, verdict: Verdict<E, M>)
    requires
        old(registry).wf(),
    ensures
        final(registry).wf(),
        final(registry)@ == old(registry)@.finished(op_id, cancelled, verdict),
        old(registry)@.step_to(final(registry)@, None),
{
    if cancelled {
        store_cancelled(registry, op_id);
    } else {
        match verdict {
            Verdict::Success(data) => store_success(registry, op_id, data),
            Verdict::Failure(m) => store_error(registry, op_id, m),
        }
    }
}

} // verus!
