//! Properties of the registry protocol that span several calls.

use crate::failure::{
    directory_failure_kind, engine_failure_kind, failure_class, file_failure_kind, says_denied,
    says_missing, says_unsupported, FailureClass, FailureKind,
};
use crate::payload::AsyncResultData;
use crate::registry::{delivers, AsyncOperationStatus, PollOutcome, RegistryView};
use crate::text::has_substring;
use crate::worker::Verdict;
use vstd::prelude::*;

verus! {

/// `states` is a run of registry operations: each state follows from the one
/// before by an operation that issued `issued[k]`.
pub open spec fn is_run<E, M>(states: Seq<RegistryView<E, M>>, issued: Seq<Option<i64>>) -> bool {
    &&& states.len() == issued.len() + 1
    &&& forall|k: int| 0 <= k < issued.len() ==> #[trigger] states[k].step_to(states[k + 1], issued[k])
}

proof fn lemma_counter_grows<E, M>(states: Seq<RegistryView<E, M>>, issued: Seq<Option<i64>>, a: int, b: int)
    requires
        is_run(states, issued),
        0 <= a <= b < states.len(),
    ensures
        states[a].next_id <= states[b].next_id,
    decreases b - a,
{
    if a < b {
        lemma_counter_grows(states, issued, a, b - 1);
        let k = b - 1;
        assert(states[k].step_to(states[k + 1], issued[k]));
    }
}

/// Ids are unique: along any run of registry operations (the registry's lock
/// puts concurrent calls in some order), an id issued by one registration is
/// smaller than, hence different from, every id issued after it.
pub proof fn lemma_issued_ids_distinct<E, M>(states: Seq<RegistryView<E, M>>, issued: Seq<Option<i64>>, i: int, j: int)
    requires
        is_run(states, issued),
        0 <= i < j < issued.len(),
        issued[i] is Some,
        issued[j] is Some,
    ensures
        issued[i]->0 < issued[j]->0,
        issued[i]->0 != issued[j]->0,
{
    assert(states[i].step_to(states[i + 1], issued[i]));
    assert(states[j].step_to(states[j + 1], issued[j]));
    lemma_counter_grows(states, issued, i + 1, j);
}

/// At-most-once delivery: after a poll hands over the final outcome of `id`,
/// the record is gone for good. Along any later run of registry operations,
/// every poll of `id` answers that no such operation exists.
pub proof fn lemma_delivered_at_most_once<E, M>(
    states: Seq<RegistryView<E, M>>,
    issued: Seq<Option<i64>>,
    id: i64,
    j: int,
)
    requires
        is_run(states, issued),
        1 <= j < states.len(),
        states[0].wf(),
        states[0].ops.contains_key(id),
        states[0].ops[id].is_terminal(),
        states[1] == states[0].polled(id),
    ensures
        !states[j].ops.contains_key(id),
        forall|r: PollOutcome<E, M>| delivers(states[j].ops.get(id), r) ==> r is InvalidId,
{
    lemma_gone_after_poll(states, issued, id, j);
}

proof fn lemma_gone_after_poll<E, M>(states: Seq<RegistryView<E, M>>, issued: Seq<Option<i64>>, id: i64, j: int)
    requires
        is_run(states, issued),
        1 <= j < states.len(),
        states[0].wf(),
        states[0].ops.contains_key(id),
        states[0].ops[id].is_terminal(),
        states[1] == states[0].polled(id),
    ensures
        !states[j].ops.contains_key(id),
        id < states[j].next_id,
    decreases j,
{
    if j == 1 {
        assert(states[0].ops.remove(id).dom() =~= states[0].ops.dom().remove(id));
    } else {
        lemma_gone_after_poll(states, issued, id, j - 1);
        let k = j - 1;
        assert(states[k].step_to(states[k + 1], issued[k]));
        if states[j].ops.contains_key(id) {
            assert(issued[k] == Some(id));
        }
    }
}

/// The state after `n` polls of `id`.
pub open spec fn polled_times<E, M>(s: RegistryView<E, M>, id: i64, n: nat) -> RegistryView<E, M>
    decreases n,
{
    if n == 0 {
        s
    } else {
        polled_times(s, id, (n - 1) as nat).polled(id)
    }
}

/// Pending stability: before the worker writes a final state, polling the
/// operation any number of times hands back `Pending` and changes nothing.
pub proof fn lemma_pending_stable<E, M>(s: RegistryView<E, M>, id: i64, n: nat)
    requires
        s.ops.contains_key(id),
        s.ops[id].status is InProgress,
    ensures
        polled_times(s, id, n) == s,
        forall|r: PollOutcome<E, M>| delivers(polled_times(s, id, n).ops.get(id), r) ==> r is Pending,
    decreases n,
{
    if n > 0 {
        lemma_pending_stable(s, id, (n - 1) as nat);
    }
}

/// The state after the worker of `id` has run: stopped at the first
/// checkpoint when the token was set there, else finished with the engine's
/// verdict unless the token was set by the second checkpoint.
pub open spec fn worker_run<E, M>(
    s: RegistryView<E, M>,
    id: i64,
    first: bool,
    second: bool,
    verdict: Verdict<E, M>,
) -> RegistryView<E, M> {
    if first {
        s.completed(id, AsyncOperationStatus::Cancelled, None)
    } else {
        s.finished(id, second, verdict)
    }
}

/// Cancellation race-safety: whatever the token showed at the worker's two
/// checkpoints (a cancel request changes no record, so any interleaving of
/// requests comes down to these two readings) and whatever the engine
/// answered, the operation ends in exactly one final state. A cancellation
/// seen at either checkpoint wins; a further final write changes nothing; one
/// poll hands the outcome over as succeeded, failed or cancelled, and leaves
/// nothing for a second poll.
pub proof fn lemma_cancellation_race_safe<E, M>(
    s: RegistryView<E, M>,
    id: i64,
    first: bool,
    second: bool,
    verdict: Verdict<E, M>,
    late_status: AsyncOperationStatus,
    late_result: Option<AsyncResultData<E, M>>,
)
    requires
        s.wf(),
        s.ops.contains_key(id),
        s.ops[id].status is InProgress,
    ensures
        ({
            let after = worker_run(s, id, first, second, verdict);
            &&& after.wf()
            &&& after.ops.contains_key(id)
            &&& after.ops[id].is_terminal()
            &&& (first || second) ==> after.ops[id].status is Cancelled
            &&& after.completed(id, late_status, late_result) == after
            &&& forall|r: PollOutcome<E, M>|
                delivers(after.ops.get(id), r) ==> (r is Succeeded || r is Failed || r is Cancelled)
            &&& !after.polled(id).ops.contains_key(id)
        }),
{
    let after = worker_run(s, id, first, second, verdict);
    assert forall|k: i64| #[trigger] after.ops.contains_key(k) implies 0 < k < after.next_id
        && after.ops[k].wf() by {
        assert(s.ops.contains_key(k));
    }
    assert forall|r: PollOutcome<E, M>| delivers(after.ops.get(id), r) implies (r is Succeeded || r is Failed
        || r is Cancelled) by {}
}

/// Classification is fixed by the lower-cased error text, for every kind of
/// operation: "404" means not found, "permission" a read failure, and a text
/// with neither a general failure. Loading a model and embedding texts go by
/// these two words alone ("404" first). For files and directories the words
/// about files ("not found", "no such file", "access denied", and for files
/// "unsupported" and "format") are looked at first and win where they
/// disagree.
pub proof fn lemma_failure_classification(lower: Seq<char>)
    ensures
        has_substring(lower, "404"@) ==> failure_class(lower) == FailureClass::NotFound,
        !has_substring(lower, "404"@) && has_substring(lower, "permission"@) ==> failure_class(lower)
            == FailureClass::ReadFailure,
        !has_substring(lower, "404"@) && !has_substring(lower, "permission"@) ==> failure_class(lower)
            == FailureClass::Generic,
        has_substring(lower, "404"@) ==> engine_failure_kind(lower) == FailureKind::ModelNotFound,
        !has_substring(lower, "404"@) && has_substring(lower, "permission"@) ==> engine_failure_kind(lower)
            == FailureKind::FileReadError,
        !has_substring(lower, "404"@) && !has_substring(lower, "permission"@) ==> engine_failure_kind(lower)
            == FailureKind::EmbeddingFailed,
        has_substring(lower, "404"@) && !says_unsupported(lower) && !says_denied(lower) ==> file_failure_kind(
            lower,
        ) == FailureKind::FileNotFound,
        has_substring(lower, "permission"@) && !says_missing(lower) && !says_unsupported(lower)
            ==> file_failure_kind(lower) == FailureKind::FileReadError,
        !has_substring(lower, "404"@) && !says_missing(lower) && !says_unsupported(lower) && !says_denied(lower)
            ==> file_failure_kind(lower) == FailureKind::EmbeddingFailed,
        has_substring(lower, "404"@) && !says_denied(lower) ==> directory_failure_kind(lower)
            == FailureKind::FileNotFound,
        has_substring(lower, "permission"@) && !says_missing(lower) ==> directory_failure_kind(lower)
            == FailureKind::FileReadError,
        !has_substring(lower, "404"@) && !says_missing(lower) && !says_denied(lower) ==> directory_failure_kind(
            lower,
        ) == FailureKind::EmbeddingFailed,
{
}

} // verus!
