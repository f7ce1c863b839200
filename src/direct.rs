//! Result processing for the synchronous calls, which answer the caller
//! directly instead of through the registry.

use crate::failure::{
    batch_failure_message, batch_failure_text, directory_failure_message, directory_failure_text,
    failure_message, failure_text, file_failure_message, file_failure_text, load_failure_message,
    load_failure_text, query_failure_message, query_failure_text, FailureKind,
};
use crate::payload::{
    all_dense, dense_forms, embed_data_vec_to_batch, multi_vector_chunk_text, DenseEmbedData,
    EmbedData, EmbeddingResult,
};
use crate::metadata::Metadata;
use crate::text::lower_of;
use crate::worker::{
    dense_vectors, fault_message, fault_of, fault_text, first_unusable, first_vector, usable,
    VectorFault,
};
use vstd::prelude::*;

verus! {

/// `r` failed with the message `text`.
pub open spec fn errs_with<T>(r: Result<T, String>, text: Seq<char>) -> bool {
    r matches Err(m) && m@ == text
}

/// The loaded model, or the classified engine error.
pub fn loaded_model<M>(model_id: &str, outcome: Result<M, String>) -> (r: Result<M, String>)
    ensures
        outcome matches Ok(m) ==> r == Ok::<M, String>(m),
        outcome matches Err(e) ==> errs_with(r, load_failure_text(model_id@, e@, lower_of(e@))),
{
    match outcome {
        Ok(m) => Ok(m),
        Err(e) => Err(load_failure_message(model_id, e.as_str())),
    }
}

/// `r` is the answer to a query answered with the chunks `items`.
pub open spec fn query_answer<E>(items: Seq<EmbedData<E>>, r: Result<Vec<E>, String>) -> bool {
    if items.len() == 0 {
        errs_with(r, fault_text(VectorFault::NoResult, true))
    } else if usable(items[0].embedding) {
        r == Ok::<Vec<E>, String>(items[0].embedding->DenseVector_0)
    } else {
        errs_with(r, fault_text(fault_of(items[0].embedding), true))
    }
}

/// The vector of one embedded text: the first chunk's, which must be a
/// non-empty dense vector.
pub fn query_embedding<E>(outcome: Result<Vec<EmbedData<E>>, String>) -> (r: Result<Vec<E>, String>)
    ensures
        outcome matches Err(e) ==> errs_with(r, query_failure_text(e@, lower_of(e@))),
        outcome matches Ok(items) ==> query_answer(items@, r),
{
    match outcome {
        Err(e) => Err(query_failure_message(e.as_str())),
        Ok(items) => match first_vector(items) {
            Ok(v) => Ok(v),
            Err(f) => Err(fault_message(f, true)),
        },
    }
}

/// `r` is the answer to a batch answered with `rs`.
pub open spec fn batch_answer<E>(rs: Seq<EmbeddingResult<E>>, r: Result<Vec<Vec<E>>, String>) -> bool {
    &&& (forall|k: int| 0 <= k < rs.len() ==> usable(#[trigger] rs[k])) ==> (r matches Ok(vs) && vs.len()
        == rs.len() && forall|k: int| 0 <= k < rs.len() ==> #[trigger] rs[k] == EmbeddingResult::DenseVector(vs@[k]))
    &&& forall|i: int| first_unusable(rs, i) ==> errs_with(r, fault_text(fault_of(#[trigger] rs[i]), true))
}

/// The vectors of a batch of `count` texts, in order; the first answer that is
/// not a non-empty dense vector decides the failure.
pub fn batch_embeddings<E>(count: usize, outcome: Result<Vec<EmbeddingResult<E>>, String>) -> (r: Result<Vec<Vec<E>>, String>)
    ensures
        outcome matches Err(e) ==> errs_with(r, batch_failure_text(count as nat, e@, lower_of(e@))),
        outcome matches Ok(rs) ==> batch_answer(rs@, r),
{
    match outcome {
        Err(e) => Err(batch_failure_message(count, e.as_str())),
        Ok(results) => {
            let ghost rs = results@;
            match dense_vectors(results) {
                Ok(vs) => Ok(vs),
                Err(f) => {
                    assert forall|i: int| first_unusable(rs, i) implies f == fault_of(rs[i]) by {
                        let w = choose|w: int| first_unusable(rs, w) && f == fault_of(rs[w]);
                        if w < i {
                            assert(usable(rs[w]));
                        } else if i < w {
                            assert(usable(rs[i]));
                        }
                    }
                    Err(fault_message(f, true))
                },
            }
        },
    }
}

/// `after` is `before` with metadata filled in from `extracted` where a chunk
/// had none.
pub open spec fn metadata_filled<E>(
    before: Seq<EmbedData<E>>,
    after: Seq<EmbedData<E>>,
    extracted: Option<Metadata>,
) -> bool {
    &&& after.len() == before.len()
    &&& forall|k: int|
        0 <= k < before.len() ==> {
            &&& (#[trigger] after[k]).embedding == before[k].embedding
            &&& after[k].text == before[k].text
            &&& (before[k].metadata is Some ==> after[k].metadata == before[k].metadata)
            &&& (before[k].metadata is None ==> match extracted {
                None => after[k].metadata is None,
                Some(md) => after[k].metadata is Some && after[k].metadata->0@ == md@,
            })
        }
}

/// Gives every chunk without metadata a copy of the metadata read from the
/// file, when there is any.
pub fn inject_metadata<E>(items: Vec<EmbedData<E>>, extracted: &Option<Metadata>) -> (r: Vec<EmbedData<E>>)
    ensures
        metadata_filled(items@, r@, *extracted),
{
    let ghost orig = items@;
    let mut out: Vec<EmbedData<E>> = Vec::new();
    for d in it: items.into_iter()
        invariant
            it.seq() == orig,
            out@.len() == it.index(),
            metadata_filled(orig.subrange(0, it.index() as int), out@, *extracted),
    {
        let ghost i = it.index() as int;
        let metadata = match d.metadata {
            Some(m) => Some(m),
            None => match extracted {
                Some(md) => Some(md.copy()),
                None => None,
            },
        };
        out.push(EmbedData { embedding: d.embedding, text: d.text, metadata });
        proof {
            let pre = orig.subrange(0, i + 1);
            assert forall|k: int| 0 <= k < pre.len() implies pre[k] == orig[k] by {}
            assert(metadata_filled(pre, out@, *extracted)) by {
                assert forall|k: int| 0 <= k < i implies pre[k] == orig.subrange(0, i)[k] by {}
            }
        }
    }
    assert(orig.subrange(0, orig.len() as int) =~= orig);
    out
}

/// `r` is the dense form of `items`, or the several-vectors failure.
pub open spec fn documents_answer<E>(items: Seq<EmbedData<E>>, r: Result<Vec<DenseEmbedData<E>>, String>) -> bool {
    if all_dense(items) {
        r matches Ok(docs) && dense_forms(items, docs@)
    } else {
        errs_with(r, multi_vector_chunk_text())
    }
}

/// The chunks of an embedded file, each with its dense vector, filling in
/// metadata read from the file where the engine gave none.
pub fn file_documents<E>(
    path: &str,
    outcome: Result<Option<Vec<EmbedData<E>>>, String>,
    extracted: Option<Metadata>,
) -> (r: Result<Vec<DenseEmbedData<E>>, String>)
    ensures
        outcome matches Ok(Some(items)) ==> (r is Ok <==> all_dense(items@)),
        outcome matches Ok(Some(items)) ==> exists|filled: Seq<EmbedData<E>>|
            metadata_filled(items@, filled, extracted) && #[trigger] documents_answer(filled, r),
        outcome matches Ok(None) ==> errs_with(
            r,
            failure_text(FailureKind::EmbeddingFailed, "embed_file returned None"@),
        ),
        outcome matches Err(e) ==> errs_with(r, file_failure_text(path@, e@, lower_of(e@))),
{
    match outcome {
        Ok(Some(items)) => {
            let ghost before = items@;
            let filled = inject_metadata(items, &extracted);
            proof {
                assert(all_dense(before) == all_dense(filled@)) by {
                    assert forall|k: int| 0 <= k < before.len() implies before[k].embedding
                        == filled@[k].embedding by {
                        assert(filled@[k].embedding == before[k].embedding);
                    }
                }
            }
            let ghost after = filled@;
            let r = embed_data_vec_to_batch(filled);
            assert(documents_answer(after, r));
            r
        },
        Ok(None) => Err(failure_message(FailureKind::EmbeddingFailed, "embed_file returned None")),
        Err(e) => Err(file_failure_message(path, e.as_str())),
    }
}

/// The chunks of an embedded directory, each with its dense vector.
pub fn directory_documents<E>(dir: &str, outcome: Result<Option<Vec<EmbedData<E>>>, String>) -> (r: Result<Vec<DenseEmbedData<E>>, String>)
    ensures
        outcome matches Ok(Some(items)) ==> documents_answer(items@, r),
        outcome matches Ok(None) ==> errs_with(
            r,
            failure_text(FailureKind::EmbeddingFailed, "embed_directory_stream returned None"@),
        ),
        outcome matches Err(e) ==> errs_with(r, directory_failure_text(dir@, e@, lower_of(e@))),
{
    match outcome {
        Ok(Some(items)) => embed_data_vec_to_batch(items),
        Ok(None) => Err(failure_message(FailureKind::EmbeddingFailed, "embed_directory_stream returned None")),
        Err(e) => Err(directory_failure_message(dir, e.as_str())),
    }
}

} // verus!
