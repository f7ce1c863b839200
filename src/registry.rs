//! The operation registry: the single source of truth for the state of every
//! operation that was started and not yet collected.

use crate::payload::{
    all_dense, convert_file_result, dense_forms, multi_vector_file_text, AsyncResultData,
    ResultPayload,
};
use crate::text::{decimal_text, signed_decimal};
use std::collections::HashMap;
use tokio_util::sync::CancellationToken;
use vstd::prelude::*;

verus! {

broadcast use vstd::std_specs::hash::group_hash_axioms;

#[verifier::external_type_specification]
#[verifier::external_body]
pub struct ExCancellationToken(CancellationToken);

/// Relies on tokio_util's CancellationToken::new, which makes a token in the
/// non-cancelled state.
pub assume_specification[ CancellationToken::new ]() -> CancellationToken;

/// Relies on tokio_util's CancellationToken::cancel, which sets the flag shared
/// by the token and its clones. It takes the token's internal lock briefly,
/// the same lock its readers take, and does not panic.
pub assume_specification[ CancellationToken::cancel ](token: &CancellationToken);

/// Relies on tokio_util's Clone for CancellationToken: a second handle on the
/// same flag.
pub assume_specification[ <CancellationToken as Clone>::clone ](token: &CancellationToken) -> CancellationToken;

/// Where an operation stands.
pub enum AsyncOperationStatus {
    InProgress,
    Success,
    Error(String),
    Cancelled,
}

/// The registry's record of one operation.
pub struct AsyncOperation<E, M> {
    pub status: AsyncOperationStatus,
    /// The result, present exactly when the status is `Success`.
    pub result: Option<AsyncResultData<E, M>>,
    /// Shared with the operation's worker.
    pub cancel_token: CancellationToken,
}

impl<E, M> AsyncOperation<E, M> {
    /// A result is held exactly when the operation succeeded.
    pub open spec fn wf(&self) -> bool {
        (self.status is Success) <==> (self.result is Some)
    }

    /// The operation has reached its final state.
    pub open spec fn is_terminal(&self) -> bool {
        !(self.status is InProgress)
    }
}

/// What a poll hands back.
pub enum PollOutcome<E, M> {
    /// The operation is still running; nothing was removed.
    Pending,
    /// The operation succeeded; the payload now belongs to the caller.
    Succeeded(ResultPayload<E, M>),
    /// The operation failed with this message.
    Failed(String),
    /// The operation was cancelled.
    Cancelled,
    /// No operation has this id: never issued, or already collected.
    InvalidId,
}

impl<E, M> PollOutcome<E, M> {
    pub open spec fn status_code_spec(&self) -> i32 {
        match self {
            PollOutcome::Pending => 0i32,
            PollOutcome::Succeeded(_) => 1i32,
            PollOutcome::Failed(_) => -1i32,
            PollOutcome::Cancelled => -2i32,
            PollOutcome::InvalidId => -1i32,
        }
    }

    /// The status code on the foreign boundary: 0 pending, 1 success, -1
    /// failure or unknown id, -2 cancelled.
    pub fn status_code(&self) -> (r: i32)
        ensures
            r == self.status_code_spec(),
    {
        match self {
            PollOutcome::Pending => 0,
            PollOutcome::Succeeded(_) => 1,
            PollOutcome::Failed(_) => -1,
            PollOutcome::Cancelled => -2,
            PollOutcome::InvalidId => -1,
        }
    }
}

/// The abstract state of a registry: the next id to issue and the records.
pub struct RegistryView<E, M> {
    pub next_id: i64,
    pub ops: Map<i64, AsyncOperation<E, M>>,
}

impl<E, M> RegistryView<E, M> {
    /// Ids are positive and below the next id; every record is well formed.
    pub open spec fn wf(self) -> bool {
        &&& 0 < self.next_id
        &&& forall|k: i64| #[trigger] self.ops.contains_key(k) ==> 0 < k < self.next_id && self.ops[k].wf()
    }

    /// `next` follows from `self` by one registry operation, which issued the
    /// id `issued` if any: the counter never goes back, and the only record
    /// that can appear is the one for a freshly issued id.
    pub open spec fn step_to(self, next: Self, issued: Option<i64>) -> bool {
        &&& self.next_id <= next.next_id
        &&& forall|k: i64|
            #[trigger] next.ops.contains_key(k) && !self.ops.contains_key(k) ==> issued == Some(k)
        &&& (issued matches Some(id) ==> id == self.next_id && next.next_id == id + 1)
    }

    /// `next` is `self` with a fresh pending record under `id`.
    pub open spec fn registers(self, next: Self, id: i64) -> bool {
        &&& id == self.next_id
        &&& next.next_id == id + 1
        &&& !self.ops.contains_key(id)
        &&& next.ops == self.ops.insert(id, next.ops[id])
        &&& next.ops[id].status is InProgress
        &&& next.ops[id].result is None
    }

    /// The records after the worker of `id` writes its final state. Only a
    /// pending record is written; a final state is never overwritten.
    pub open spec fn completed(
        self,
        id: i64,
        status: AsyncOperationStatus,
        result: Option<AsyncResultData<E, M>>,
    ) -> Self {
        if self.ops.contains_key(id) && self.ops[id].status is InProgress {
            RegistryView {
                next_id: self.next_id,
                ops: self.ops.insert(
                    id,
                    AsyncOperation { status, result, cancel_token: self.ops[id].cancel_token },
                ),
            }
        } else {
            self
        }
    }

    /// The state after a poll of `id`: a record in a final state is removed.
    pub open spec fn polled(self, id: i64) -> Self {
        if self.ops.contains_key(id) && self.ops[id].is_terminal() {
            RegistryView { next_id: self.next_id, ops: self.ops.remove(id) }
        } else {
            self
        }
    }
}

/// `r` is what a poll hands back for the record `rec` (`None`: no record).
pub open spec fn delivers<E, M>(rec: Option<AsyncOperation<E, M>>, r: PollOutcome<E, M>) -> bool {
    match rec {
        None => r is InvalidId,
        Some(op) => match op.status {
            AsyncOperationStatus::InProgress => r is Pending,
            AsyncOperationStatus::Error(msg) => r == PollOutcome::<E, M>::Failed(msg),
            AsyncOperationStatus::Cancelled => r is Cancelled,
            AsyncOperationStatus::Success => match op.result {
                None => r is InvalidId,
                Some(data) => delivers_data(data, r),
            },
        },
    }
}

/// `r` is the boundary form of the result `data`.
pub open spec fn delivers_data<E, M>(data: AsyncResultData<E, M>, r: PollOutcome<E, M>) -> bool {
    match data {
        AsyncResultData::SingleEmbedding(s) => r == PollOutcome::<E, M>::Succeeded(
            ResultPayload::SingleVector(s.values),
        ),
        AsyncResultData::BatchEmbedding(b) => r == PollOutcome::<E, M>::Succeeded(
            ResultPayload::VectorBatch(b.embeddings),
        ),
        AsyncResultData::ModelLoad(m) => r == PollOutcome::<E, M>::Succeeded(
            ResultPayload::LoadedModel(m.embedder),
        ),
        AsyncResultData::FileEmbedding(f) => if all_dense(f.items@) {
            r matches PollOutcome::Succeeded(ResultPayload::DocumentBatch(docs)) && dense_forms(
                f.items@,
                docs@,
            )
        } else {
            r matches PollOutcome::Failed(m) && m@ == multi_vector_file_text()
        },
    }
}

/// The table of operations in flight, keyed by operation id.
pub struct Registry<E, M> {
    next_id: i64,
    operations: HashMap<i64, AsyncOperation<E, M>>,
}

impl<E, M> View for Registry<E, M> {
    type V = RegistryView<E, M>;

    closed spec fn view(&self) -> RegistryView<E, M> {
        RegistryView { next_id: self.next_id, ops: self.operations@ }
    }
}

impl<E, M> Registry<E, M> {
    pub open spec fn wf(&self) -> bool {
        self@.wf()
    }

    /// An empty registry whose first id is 1.
    pub fn new() -> (r: Self)
        ensures
            r.wf(),
            r@.next_id == 1,
            r@.ops == Map::<i64, AsyncOperation<E, M>>::empty(),
    {
        Registry { next_id: 1, operations: HashMap::new() }
    }

    /// The number of operations in the registry.
    pub fn len(&self) -> (r: usize)
        ensures
            r == self@.ops.len(),
    {
        self.operations.len()
    }

    /// Whether an operation with this id is in the registry.
    pub fn contains(&self, op_id: i64) -> (r: bool)
        ensures
            r == self@.ops.contains_key(op_id),
    {
        self.operations.contains_key(&op_id)
    }

    /// The status of the operation with this id, if it is in the registry.
    pub fn status(&self, op_id: i64) -> (r: Option<&AsyncOperationStatus>)
        ensures
            r is Some <==> self@.ops.contains_key(op_id),
            r matches Some(s) ==> *s == self@.ops[op_id].status,
    {
        match self.operations.get(&op_id) {
            Some(op) => Some(&op.status),
            None => None,
        }
    }

    /// Writes the final state of a pending operation; does nothing to an
    /// unknown id or to one already in a final state.
    fn complete(&mut self, op_id: i64, status: AsyncOperationStatus, result: Option<AsyncResultData<E, M>>)
        requires
            old(self).wf(),
            (status is Success) <==> (result is Some),
        ensures
            final(self).wf(),
            final(self)@ == old(self)@.completed(op_id, status, result),
            old(self)@.step_to(final(self)@, None),
    {
        match self.operations.remove(&op_id) {
            None => {
                assert(self.operations@ =~= old(self)@.ops);
            },
            Some(op) => {
                if matches!(op.status, AsyncOperationStatus::InProgress) {
                    let ghost token = op.cancel_token;
                    self.operations.insert(op_id, AsyncOperation { status, result, cancel_token: op.cancel_token });
                    assert(self.operations@ =~= old(self)@.ops.insert(
                        op_id,
                        AsyncOperation { status, result, cancel_token: token },
                    ));
                } else {
                    self.operations.insert(op_id, op);
                    assert(self.operations@ =~= old(self)@.ops);
                }
            },
        }
    }
}

/// The id a registration handed out, if any.
pub open spec fn issued_id(r: Option<(i64, CancellationToken)>) -> Option<i64> {
    match r {
        Some((id, _)) => Some(id),
        None => None,
    }
}

/// Issues a fresh id and records a pending operation under it, with a fresh
/// cancellation token; hands back the id and a second handle on the token.
/// `None` when the id space is used up, and then nothing changes.
pub fn register_operation<E, M>(registry: &mut Registry<E, M>) -> (r: Option<(i64, CancellationToken)>)
    requires
        old(registry).wf(),
    ensures
        final(registry).wf(),
        r is None <==> old(registry)@.next_id == i64::MAX,
        r is None ==> final(registry)@ == old(registry)@,
        r matches Some((id, _)) ==> old(registry)@.registers(final(registry)@, id),
        old(registry)@.step_to(final(registry)@, issued_id(r)),
{
    if registry.next_id == i64::MAX {
        return None;
    }
    let op_id = registry.next_id;
    let cancel_token = CancellationToken::new();
    let record = AsyncOperation {
        status: AsyncOperationStatus::InProgress,
        result: None,
        cancel_token: cancel_token.clone(),
    };
    registry.operations.insert(op_id, record);
    registry.next_id = op_id + 1;
    assert forall|k: i64| #[trigger] registry@.ops.contains_key(k) implies 0 < k < registry@.next_id
        && registry@.ops[k].wf() by {
        if k != op_id {
            assert(old(registry)@.ops.contains_key(k));
        }
    }
    Some((op_id, cancel_token))
}

/// Records that the operation succeeded with `result`.
pub fn store_success<E, M>(registry: &mut Registry<E, M>, op_id: i64, result: AsyncResultData<E, M>)
    requires
        old(registry).wf(),
    ensures
        final(registry).wf(),
        final(registry)@ == old(registry)@.completed(op_id, AsyncOperationStatus::Success, Some(result)),
        old(registry)@.step_to(final(registry)@, None),
{
    registry.complete(op_id, AsyncOperationStatus::Success, Some(result));
}

/// Records that the operation failed with the message `error`.
pub fn store_error<E, M>(registry: &mut Registry<E, M>, op_id: i64, error: String)
    requires
        old(registry).wf(),
    ensures
        final(registry).wf(),
        final(registry)@ == old(registry)@.completed(op_id, AsyncOperationStatus::Error(error), None),
        old(registry)@.step_to(final(registry)@, None),
{
    registry.complete(op_id, AsyncOperationStatus::Error(error), None);
}

/// Records that the operation was cancelled.
pub fn store_cancelled<E, M>(registry: &mut Registry<E, M>, op_id: i64)
    requires
        old(registry).wf(),
    ensures
        final(registry).wf(),
        final(registry)@ == old(registry)@.completed(op_id, AsyncOperationStatus::Cancelled, None),
        old(registry)@.step_to(final(registry)@, None),
{
    registry.complete(op_id, AsyncOperationStatus::Cancelled, None);
}

/// The boundary form of a finished operation's result.
fn deliver<E, M>(data: AsyncResultData<E, M>) -> (r: PollOutcome<E, M>)
    ensures
        delivers_data(data, r),
{
    match data {
        AsyncResultData::SingleEmbedding(s) => PollOutcome::Succeeded(ResultPayload::SingleVector(s.values)),
        AsyncResultData::BatchEmbedding(b) => PollOutcome::Succeeded(ResultPayload::VectorBatch(b.embeddings)),
        AsyncResultData::FileEmbedding(f) => match convert_file_result(f.items) {
            Ok(docs) => PollOutcome::Succeeded(ResultPayload::DocumentBatch(docs)),
            Err(m) => PollOutcome::Failed(m),
        },
        AsyncResultData::ModelLoad(m) => PollOutcome::Succeeded(ResultPayload::LoadedModel(m.embedder)),
    }
}

/// Polls the operation `op_id`. A pending operation is left as it is; one in a
/// final state is removed and its outcome handed over, exactly once.
pub fn poll_async_result<E, M>(registry: &mut Registry<E, M>, op_id: i64) -> (r: PollOutcome<E, M>)
    requires
        old(registry).wf(),
    ensures
        final(registry).wf(),
        final(registry)@ == old(registry)@.polled(op_id),
        delivers(old(registry)@.ops.get(op_id), r),
        old(registry)@.step_to(final(registry)@, None),
{
    let pending = match registry.operations.get(&op_id) {
        None => {
            return PollOutcome::InvalidId;
        },
        Some(op) => matches!(op.status, AsyncOperationStatus::InProgress),
    };
    if pending {
        return PollOutcome::Pending;
    }
    match registry.operations.remove(&op_id) {
        None => PollOutcome::InvalidId,
        Some(op) => match op.status {
            AsyncOperationStatus::InProgress => PollOutcome::Pending,
            AsyncOperationStatus::Success => match op.result {
                Some(data) => deliver(data),
                None => PollOutcome::InvalidId,
            },
            AsyncOperationStatus::Error(msg) => PollOutcome::Failed(msg),
            AsyncOperationStatus::Cancelled => PollOutcome::Cancelled,
        },
    }
}

/// Requests cancellation of `op_id`: 0 when the operation is in the registry
/// and its token was set, -1 when no such operation exists. Advisory only: the
/// worker notices at its next checkpoint.
pub fn cancel_async_operation<E, M>(registry: &Registry<E, M>, op_id: i64) -> (r: i32)
    ensures
        r == (if registry@.ops.contains_key(op_id) { 0i32 } else { -1i32 }),
{
    match registry.operations.get(&op_id) {
        Some(op) => {
            op.cancel_token.cancel();
            0
        },
        None => -1,
    }
}

/// The message for an id that names no operation.
pub open spec fn invalid_id_text(op_id: i64) -> Seq<char> {
    "Invalid operation ID: "@ + decimal_text(op_id as int)
}

/// Builds the message for an id that names no operation.
pub fn invalid_id_message(op_id: i64) -> (r: String)
    ensures
        r@ == invalid_id_text(op_id),
{
    let digits = signed_decimal(op_id);
    String::from_str("Invalid operation ID: ").concat(digits.as_str())
}

} // verus!
