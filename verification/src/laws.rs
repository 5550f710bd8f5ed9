//! What holds of the coordinator across calls, stated over the models that
//! the contracts of its operations use.

use std::time::Instant;
use tokio::sync::mpsc::UnboundedSender;
use vstd::prelude::*;

use crate::error::CoordinatorError;
use crate::events::AppEvent;
use crate::job::{
    distinct_ids, has_job, head_job, is_first_with_id, job_position, lemma_job_position,
    matching_job, outcome_of, without_job, Job, JobStatus,
};
use crate::server::{
    first_step_of, job_done, next_step_of, poll_reply_of, registration_reply_of, JobDoneEvent,
    JobDoneStep, KeyUpdate,
};
use crate::state::{next_id_after, WorkerStateView};
use crate::worker::IpAddress;

verus! {

/// Whether the worker under `id` has a job at place `i` of its queue.
pub open spec fn is_pending(state: WorkerStateView, id: Seq<char>, i: int) -> bool {
    state.workers.contains_key(id) && 0 <= i < state.workers[id].jobs.len()
}

/// Whether no two pending jobs, of one worker or of two, share an id.
pub open spec fn pending_ids_distinct(state: WorkerStateView) -> bool {
    forall|a: Seq<char>, i: int, b: Seq<char>, j: int|
        #![trigger state.workers[a].jobs[i], state.workers[b].jobs[j]]
        is_pending(state, a, i) && is_pending(state, b, j) && (a != b || i != j)
            ==> state.workers[a].jobs[i].id != state.workers[b].jobs[j].id
}

/// Whether every pending job has an id below the counter.
pub open spec fn pending_ids_below_counter(state: WorkerStateView) -> bool {
    forall|a: Seq<char>, i: int|
        #![trigger state.workers[a].jobs[i]]
        is_pending(state, a, i) ==> state.workers[a].jobs[i].id < state.next_job_id
}

/// Whether the pending jobs are as the allocator leaves them while it has not
/// wrapped: all ids below the counter, no id twice.
pub open spec fn ids_in_order(state: WorkerStateView) -> bool {
    pending_ids_distinct(state) && pending_ids_below_counter(state)
}

/// A second registration under the same id is refused and changes nothing:
/// the worker's queue, address and liveness are those that the first
/// registration and whatever followed it left.
pub proof fn law_duplicate_registration(
    state: WorkerStateView,
    id: Seq<char>,
    first: Instant,
    second: Instant,
)
    ensures
        state.register(id, first).workers.contains_key(id),
        registration_reply_of(state.register(id, first), id) == Err::<(), CoordinatorError>(
            CoordinatorError::DuplicateRegistration,
        ),
        state.register(id, first).register(id, second) == state.register(id, first),
{
}

/// A registration under a taken id is refused and leaves the whole state as
/// it is.
pub proof fn law_registration_of_taken_id(state: WorkerStateView, id: Seq<char>, at: Instant)
    requires
        state.workers.contains_key(id),
    ensures
        registration_reply_of(state, id) == Err::<(), CoordinatorError>(
            CoordinatorError::DuplicateRegistration,
        ),
        state.register(id, at) == state,
{
}

/// Creating a job for an unknown worker yields `0` and creates no job: the
/// state, with every queue and the counter, stays as it is.
pub proof fn law_job_for_unknown_worker(state: WorkerStateView, id: Seq<char>, job: Job)
    requires
        !state.workers.contains_key(id),
    ensures
        state.created_id(id) == 0,
        state.create_job(id, job) == state,
{
}

/// Two jobs created one after the other, for any two registered workers, get
/// consecutive ids: the second is the first plus one, wrapping at the width
/// of the counter, and so larger unless the counter wrapped in between.
pub proof fn law_ids_follow_each_other(
    state: WorkerStateView,
    first_worker: Seq<char>,
    first_job: Job,
    second_worker: Seq<char>,
)
    requires
        state.workers.contains_key(first_worker),
        state.workers.contains_key(second_worker),
    ensures
        state.create_job(first_worker, first_job).created_id(second_worker) == next_id_after(
            state.created_id(first_worker),
        ),
        state.created_id(first_worker) < u32::MAX ==> state.create_job(
            first_worker,
            first_job,
        ).created_id(second_worker) > state.created_id(first_worker),
{
}

/// A coordinator starts with its pending ids in order.
pub proof fn law_ids_in_order_initially(sink: UnboundedSender<AppEvent>, first_job_id: u32)
    ensures
        ids_in_order(WorkerStateView::initial(sink)),
        ids_in_order(WorkerStateView::starting_at(sink, first_job_id)),
{
}

/// While the counter does not wrap, creating a job keeps the pending ids in
/// order: the new job's id is below the new counter and differs from every
/// other pending id.
pub proof fn law_create_job_keeps_ids_in_order(state: WorkerStateView, id: Seq<char>, job: Job)
    requires
        ids_in_order(state),
        state.next_job_id < u32::MAX,
        job.id == state.created_id(id),
    ensures
        ids_in_order(state.create_job(id, job)),
{
    let after = state.create_job(id, job);
    if state.workers.contains_key(id) {
        let n = state.workers[id].jobs.len() as int;
        assert forall|a: Seq<char>, i: int| is_pending(after, a, i) implies (a == id && i == n
            && after.workers[a].jobs[i] == job) || (is_pending(state, a, i)
            && after.workers[a].jobs[i] == state.workers[a].jobs[i]) by {}
        assert forall|a: Seq<char>, i: int|
            #![trigger after.workers[a].jobs[i]]
            is_pending(after, a, i) implies after.workers[a].jobs[i].id < after.next_job_id by {
            if is_pending(state, a, i) && after.workers[a].jobs[i] == state.workers[a].jobs[i] {
                assert(state.workers[a].jobs[i].id < state.next_job_id);
            }
        }
        assert forall|a: Seq<char>, i: int, b: Seq<char>, j: int|
            #![trigger after.workers[a].jobs[i], after.workers[b].jobs[j]]
            is_pending(after, a, i) && is_pending(after, b, j) && (a != b || i != j)
                implies after.workers[a].jobs[i].id != after.workers[b].jobs[j].id by {
            let old_a = is_pending(state, a, i) && after.workers[a].jobs[i]
                == state.workers[a].jobs[i];
            let old_b = is_pending(state, b, j) && after.workers[b].jobs[j]
                == state.workers[b].jobs[j];
            if old_a && old_b {
                assert(state.workers[a].jobs[i].id != state.workers[b].jobs[j].id);
            } else if old_a {
                assert(state.workers[a].jobs[i].id < state.next_job_id);
            } else if old_b {
                assert(state.workers[b].jobs[j].id < state.next_job_id);
            }
        }
    }
}

/// Registering a worker keeps the pending ids in order.
pub proof fn law_register_keeps_ids_in_order(state: WorkerStateView, id: Seq<char>, at: Instant)
    requires
        ids_in_order(state),
    ensures
        ids_in_order(state.register(id, at)),
{
    let after = state.register(id, at);
    assert forall|a: Seq<char>, i: int| is_pending(after, a, i) implies is_pending(state, a, i)
        && after.workers[a].jobs[i] == state.workers[a].jobs[i] by {}
    assert forall|a: Seq<char>, i: int|
        #![trigger after.workers[a].jobs[i]]
        is_pending(after, a, i) implies after.workers[a].jobs[i].id < after.next_job_id by {
        assert(state.workers[a].jobs[i].id < state.next_job_id);
    }
    assert forall|a: Seq<char>, i: int, b: Seq<char>, j: int|
        #![trigger after.workers[a].jobs[i], after.workers[b].jobs[j]]
        is_pending(after, a, i) && is_pending(after, b, j) && (a != b || i != j)
            implies after.workers[a].jobs[i].id != after.workers[b].jobs[j].id by {
        assert(state.workers[a].jobs[i].id != state.workers[b].jobs[j].id);
    }
}

/// A poll keeps the pending ids in order.
pub proof fn law_poll_keeps_ids_in_order(
    state: WorkerStateView,
    id: Seq<char>,
    ip: IpAddress,
    at: Instant,
)
    requires
        ids_in_order(state),
    ensures
        ids_in_order(state.poll(id, ip, at)),
{
    let after = state.poll(id, ip, at);
    assert forall|a: Seq<char>, i: int| is_pending(after, a, i) implies is_pending(state, a, i)
        && after.workers[a].jobs[i] == state.workers[a].jobs[i] by {}
    assert forall|a: Seq<char>, i: int|
        #![trigger after.workers[a].jobs[i]]
        is_pending(after, a, i) implies after.workers[a].jobs[i].id < after.next_job_id by {
        assert(state.workers[a].jobs[i].id < state.next_job_id);
    }
    assert forall|a: Seq<char>, i: int, b: Seq<char>, j: int|
        #![trigger after.workers[a].jobs[i], after.workers[b].jobs[j]]
        is_pending(after, a, i) && is_pending(after, b, j) && (a != b || i != j)
            implies after.workers[a].jobs[i].id != after.workers[b].jobs[j].id by {
        assert(state.workers[a].jobs[i].id != state.workers[b].jobs[j].id);
    }
}

/// Removing a worker keeps the pending ids in order.
pub proof fn law_unregister_keeps_ids_in_order(state: WorkerStateView, id: Seq<char>)
    requires
        ids_in_order(state),
    ensures
        ids_in_order(state.unregister(id)),
{
    let after = state.unregister(id);
    assert forall|a: Seq<char>, i: int| is_pending(after, a, i) implies is_pending(state, a, i)
        && after.workers[a].jobs[i] == state.workers[a].jobs[i] by {}
    assert forall|a: Seq<char>, i: int|
        #![trigger after.workers[a].jobs[i]]
        is_pending(after, a, i) implies after.workers[a].jobs[i].id < after.next_job_id by {
        assert(state.workers[a].jobs[i].id < state.next_job_id);
    }
    assert forall|a: Seq<char>, i: int, b: Seq<char>, j: int|
        #![trigger after.workers[a].jobs[i], after.workers[b].jobs[j]]
        is_pending(after, a, i) && is_pending(after, b, j) && (a != b || i != j)
            implies after.workers[a].jobs[i].id != after.workers[b].jobs[j].id by {
        assert(state.workers[a].jobs[i].id != state.workers[b].jobs[j].id);
    }
}

/// The place in `state` of the job that stands at place `i` of the queue of
/// `a` once a report of `job_id` by the worker under `id` has been served.
spec fn origin(state: WorkerStateView, id: Seq<char>, job_id: u32, a: Seq<char>, i: int) -> int {
    if a == id && has_job(state.workers[id].jobs, job_id) && i >= job_position(
        state.workers[id].jobs,
        job_id,
    ) {
        i + 1
    } else {
        i
    }
}

/// A completion report keeps the pending ids in order, whether or not a job
/// matched and whatever outcome is recorded.
pub proof fn law_job_done_keeps_ids_in_order(state: WorkerStateView, status: JobStatus, at: Instant)
    requires
        ids_in_order(state),
    ensures
        ids_in_order(state.complete(status.id@, status.job_id, at)),
        ids_in_order(job_done(state, status, at)),
{
    let id = status.id@;
    let after = state.complete(id, status.job_id, at);
    if state.workers.contains_key(id) && has_job(state.workers[id].jobs, status.job_id) {
        let jobs = state.workers[id].jobs;
        lemma_job_position(jobs, status.job_id);
        let p = job_position(jobs, status.job_id);
        assert(after.workers[id].jobs == jobs.remove(p));
    }
    let job_id = status.job_id;
    assert forall|a: Seq<char>, i: int| is_pending(after, a, i) implies is_pending(
        state,
        a,
        origin(state, id, job_id, a, i),
    ) && after.workers[a].jobs[i] == state.workers[a].jobs[origin(state, id, job_id, a, i)] by {}
    assert forall|a: Seq<char>, i: int|
        #![trigger after.workers[a].jobs[i]]
        is_pending(after, a, i) implies after.workers[a].jobs[i].id < after.next_job_id by {
        assert(state.workers[a].jobs[origin(state, id, job_id, a, i)].id < state.next_job_id);
    }
    assert forall|a: Seq<char>, i: int, b: Seq<char>, j: int|
        #![trigger after.workers[a].jobs[i], after.workers[b].jobs[j]]
        is_pending(after, a, i) && is_pending(after, b, j) && (a != b || i != j)
            implies after.workers[a].jobs[i].id != after.workers[b].jobs[j].id by {
        assert(state.workers[a].jobs[origin(state, id, job_id, a, i)].id != state.workers[b].jobs[origin(state, id, job_id, b, j)].id);
    }
    let done = job_done(state, status, at);
    assert(done.workers == after.workers);
    assert(done.next_job_id == after.next_job_id);
}

/// While the pending ids are in order, no two jobs in one queue share an id.
pub proof fn law_queue_ids_distinct(state: WorkerStateView, id: Seq<char>)
    requires
        pending_ids_distinct(state),
    ensures
        distinct_ids(state.pending(id)),
{
    let jobs = state.pending(id);
    assert forall|i: int, j: int| 0 <= i < j < jobs.len() implies jobs[i].id != jobs[j].id by {
        assert(is_pending(state, id, i) && is_pending(state, id, j));
        assert(state.workers[id].jobs[i].id != state.workers[id].jobs[j].id);
    }
}

/// A poll does not change what the next poll of the same worker returns: it
/// leaves every queue as it is, so two polls in a row give the same answer.
pub proof fn law_poll_is_idempotent(
    state: WorkerStateView,
    id: Seq<char>,
    first_ip: IpAddress,
    first: Instant,
    second_ip: IpAddress,
    second: Instant,
)
    ensures
        state.poll(id, first_ip, first).pending(id) == state.pending(id),
        poll_reply_of(state.poll(id, first_ip, first), id) == poll_reply_of(state, id),
        state.poll(id, first_ip, first).poll(id, second_ip, second).pending(id) == state.pending(
            id,
        ),
        state.poll(id, first_ip, first).outcomes == state.outcomes,
        state.poll(id, first_ip, first).next_job_id == state.next_job_id,
{
}

/// A poll of one worker leaves every other worker as it is.
pub proof fn law_poll_touches_one_worker(
    state: WorkerStateView,
    id: Seq<char>,
    ip: IpAddress,
    at: Instant,
    other: Seq<char>,
)
    requires
        other != id,
    ensures
        state.poll(id, ip, at).workers.contains_key(other) == state.workers.contains_key(other),
        state.poll(id, ip, at).workers[other] == state.workers[other],
{
}

/// A completion report that matches takes exactly one job out of the
/// reporting worker's queue: the first with the reported id. The other jobs
/// keep their order, the queues of other workers are untouched, and the job
/// taken out is the one that is returned.
pub proof fn law_completion_removes_the_match(
    state: WorkerStateView,
    id: Seq<char>,
    job_id: u32,
    at: Instant,
)
    requires
        has_job(state.pending(id), job_id),
    ensures
        is_first_with_id(state.pending(id), job_id, job_position(state.pending(id), job_id)),
        matching_job(state.pending(id), job_id) == Some(
            state.pending(id)[job_position(state.pending(id), job_id)],
        ),
        state.complete(id, job_id, at).pending(id) == state.pending(id).remove(
            job_position(state.pending(id), job_id),
        ),
        state.complete(id, job_id, at).pending(id).len() == state.pending(id).len() - 1,
        forall|other: Seq<char>|
            other != id ==> #[trigger] state.complete(id, job_id, at).pending(other)
                == state.pending(other),
{
    lemma_job_position(state.pending(id), job_id);
}

/// Once a job has been reported complete, a poll of that worker does not
/// return it again, provided no other job in the queue shares its id: no job
/// with that id is left, and the poll returns the head of what remains, or
/// fails when nothing remains.
pub proof fn law_completed_job_is_not_polled_again(
    state: WorkerStateView,
    id: Seq<char>,
    job_id: u32,
    at: Instant,
)
    requires
        has_job(state.pending(id), job_id),
        distinct_ids(state.pending(id)),
    ensures
        !has_job(state.complete(id, job_id, at).pending(id), job_id),
        match head_job(state.complete(id, job_id, at).pending(id)) {
            Some(job) => job.id != job_id && state.pending(id).contains(job),
            None => state.pending(id).len() == 1,
        },
{
    let jobs = state.pending(id);
    lemma_job_position(jobs, job_id);
    let p = job_position(jobs, job_id);
    let rest = jobs.remove(p);
    assert(state.complete(id, job_id, at).pending(id) == rest);
    assert forall|i: int| 0 <= i < rest.len() implies rest[i].id != job_id by {
        if i < p {
            assert(rest[i] == jobs[i]);
        } else {
            assert(rest[i] == jobs[i + 1]);
            assert(jobs[p].id != jobs[i + 1].id);
        }
    }
    if rest.len() > 0 {
        if 0 < p {
            assert(rest[0] == jobs[0]);
        } else {
            assert(rest[0] == jobs[1]);
        }
    }
}

/// A completion report that matches no queued job takes nothing out of any
/// queue and records no outcome.
pub proof fn law_unmatched_report_records_nothing(
    state: WorkerStateView,
    status: JobStatus,
    at: Instant,
)
    requires
        !has_job(state.pending(status.id@), status.job_id),
    ensures
        matching_job(state.pending(status.id@), status.job_id).is_none(),
        job_done(state, status, at).outcomes == state.outcomes,
        forall|other: Seq<char>| #[trigger]
            job_done(state, status, at).pending(other) == state.pending(other),
{
    assert forall|other: Seq<char>| #[trigger]
        job_done(state, status, at).pending(other) == state.pending(other) by {
        assert(without_job(state.pending(status.id@), status.job_id) == state.pending(status.id@));
    }
}

/// After a completion report that matched a queued job, the outcome kept for
/// the reported job id holds the fields of that report and the username of
/// the job, whether the report tells of success or of failure.
pub proof fn law_outcome_holds_the_report(state: WorkerStateView, status: JobStatus, at: Instant)
    requires
        has_job(state.pending(status.id@), status.job_id),
    ensures
        job_done(state, status, at).outcomes.contains_key(status.job_id),
        job_done(state, status, at).outcomes[status.job_id] == outcome_of(
            status,
            matching_job(state.pending(status.id@), status.job_id).unwrap().username,
        ),
        job_done(state, status, at).outcomes[status.job_id].success == status.success,
        job_done(state, status, at).outcomes[status.job_id].ssh_key == status.ssh_key,
        job_done(state, status, at).outcomes[status.job_id].pgp_key == status.public_key,
        job_done(state, status, at).outcomes[status.job_id].pgp_cert_id == status.fingerprint,
        job_done(state, status, at).outcomes[status.job_id].error == status.error,
{
}

/// An outcome, once recorded, stays through every later operation but a
/// second report for the same job id.
pub proof fn law_outcomes_are_kept(
    state: WorkerStateView,
    job_id: u32,
    id: Seq<char>,
    ip: IpAddress,
    at: Instant,
    job: Job,
    report: JobStatus,
)
    requires
        state.outcomes.contains_key(job_id),
    ensures
        state.register(id, at).outcomes == state.outcomes,
        state.create_job(id, job).outcomes == state.outcomes,
        state.poll(id, ip, at).outcomes == state.outcomes,
        state.unregister(id).outcomes == state.outcomes,
        job_done(state, report, at).outcomes.contains_key(job_id),
        report.job_id != job_id ==> job_done(state, report, at).outcomes[job_id]
            == state.outcomes[job_id],
{
}

/// Removing a worker discards its pending jobs and records no outcome for
/// them: the worker is gone with its queue, the outcomes are as they were,
/// and so are the counter and every other worker.
pub proof fn law_unregister_discards_jobs(state: WorkerStateView, id: Seq<char>)
    ensures
        !state.unregister(id).workers.contains_key(id),
        state.unregister(id).pending(id) == Seq::<Job>::empty(),
        state.unregister(id).outcomes == state.outcomes,
        state.unregister(id).next_job_id == state.next_job_id,
        forall|other: Seq<char>|
            other != id ==> #[trigger] state.unregister(id).pending(other) == state.pending(other),
{
}

/// Whether `step` answers the worker with a failure.
pub open spec fn fails_the_call(step: JobDoneStep) -> bool {
    step matches JobDoneStep::Reply { result, .. } && result.is_err()
}

/// Once the critical section of a completion report has gone through,
/// nothing that the persistence layer reports turns the answer into a
/// failure: not a missing user, not a failing lookup, not a failing store.
pub proof fn law_persistence_never_fails_the_call(
    done: Result<Option<KeyUpdate>, CoordinatorError>,
    first: JobDoneEvent,
    second: JobDoneEvent,
)
    requires
        done != Err::<Option<KeyUpdate>, CoordinatorError>(
            CoordinatorError::NotificationChannelFailure,
        ),
    ensures
        !fails_the_call(first_step_of(done)),
        !fails_the_call(next_step_of(first_step_of(done), first)),
        !fails_the_call(next_step_of(next_step_of(first_step_of(done), first), second)),
{
}

/// The keys that are stored are those of the report, and they are stored
/// only for a user who was found.
pub proof fn law_keys_are_stored_for_a_found_user(update: KeyUpdate, event: JobDoneEvent)
    ensures
        next_step_of(JobDoneStep::FindUser { update }, event) matches JobDoneStep::SaveKeys {
            keys,
        } ==> event == JobDoneEvent::UserFound && keys == update.keys,
        next_step_of(JobDoneStep::FindUser { update }, JobDoneEvent::UserFound)
            == (JobDoneStep::SaveKeys { keys: update.keys }),
{
}

} // verus!
