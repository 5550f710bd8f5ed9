//! The coordinator's state: registered workers, the job counter, and the
//! outcomes of completed jobs.

use std::collections::HashMap;
use std::time::Instant;
use tokio::sync::mpsc::UnboundedSender;
use vstd::prelude::*;

use crate::error::CoordinatorError;
use crate::events::AppEvent;
use crate::job::{head_job, matching_job, outcome_of, Job, JobResponse, JobStatus};
use crate::registry::WorkerRegistry;
use crate::worker::{IpAddress, WorkerInfo, WorkerInfoView};

verus! {

broadcast use vstd::std_specs::hash::group_hash_axioms;

/// One line of the diagnostic listing of workers.
#[derive(Debug, PartialEq, Eq)]
pub struct WorkerDetail {
    pub id: String,
    pub ip: IpAddress,
    pub connected: bool,
}

/// Registry of workers, allocator of job ids, and history of outcomes.
pub struct WorkerState {
    current_job_id: u32,
    workers: WorkerRegistry,
    job_status: HashMap<u32, JobResponse>,
    webhook_tx: UnboundedSender<AppEvent>,
}

/// What a `WorkerState` holds.
pub struct WorkerStateView {
    /// The id that the next created job gets.
    pub next_job_id: u32,
    /// The registered workers, by id.
    pub workers: Map<Seq<char>, WorkerInfoView>,
    /// The outcomes of completed jobs, by job id.
    pub outcomes: Map<u32, JobResponse>,
    /// The handle of the notification sink.
    pub sink: UnboundedSender<AppEvent>,
}

/// The id that follows `id` in the allocator, which wraps at the width of
/// the counter.
pub open spec fn next_id_after(id: u32) -> u32 {
    if id == u32::MAX {
        0
    } else {
        (id + 1) as u32
    }
}

impl WorkerStateView {
    /// The state of a coordinator without workers and outcomes whose first
    /// job gets the id `first_job_id`.
    pub open spec fn starting_at(
        sink: UnboundedSender<AppEvent>,
        first_job_id: u32,
    ) -> WorkerStateView {
        WorkerStateView {
            next_job_id: first_job_id,
            workers: Map::empty(),
            outcomes: Map::empty(),
            sink,
        }
    }

    /// The state of a coordinator that has just started.
    pub open spec fn initial(sink: UnboundedSender<AppEvent>) -> WorkerStateView {
        WorkerStateView::starting_at(sink, 1)
    }

    /// When the worker under `id` was last heard of.
    pub open spec fn last_seen(self, id: Seq<char>) -> Instant {
        self.workers[id].last_seen
    }

    /// The pending jobs of the worker under `id`; none for an unknown worker.
    pub open spec fn pending(self, id: Seq<char>) -> Seq<Job> {
        if self.workers.contains_key(id) {
            self.workers[id].jobs
        } else {
            Seq::empty()
        }
    }

    /// The state after a registration of `id` at `at`: a fresh record under a
    /// free id, no change under a taken one.
    pub open spec fn register(self, id: Seq<char>, at: Instant) -> WorkerStateView {
        if self.workers.contains_key(id) {
            self
        } else {
            WorkerStateView { workers: self.workers.insert(id, WorkerInfoView::fresh(at)), ..self }
        }
    }

    /// The id that a job created now for the worker under `id` gets: the
    /// counter's value, or `0` for an unknown worker.
    pub open spec fn created_id(self, id: Seq<char>) -> u32 {
        if self.workers.contains_key(id) {
            self.next_job_id
        } else {
            0
        }
    }

    /// The state after `job` was created for the worker under `id`: the job
    /// at the end of that worker's queue and the counter moved on, or no
    /// change for an unknown worker.
    pub open spec fn create_job(self, id: Seq<char>, job: Job) -> WorkerStateView {
        if self.workers.contains_key(id) {
            WorkerStateView {
                next_job_id: next_id_after(self.next_job_id),
                workers: self.workers.insert(id, self.workers[id].with_job(job)),
                ..self
            }
        } else {
            self
        }
    }

    /// The state after the worker under `id` polled from `ip` at `at`:
    /// liveness and address renewed, queues as they were.
    pub open spec fn poll(self, id: Seq<char>, ip: IpAddress, at: Instant) -> WorkerStateView {
        if self.workers.contains_key(id) {
            WorkerStateView {
                workers: self.workers.insert(id, self.workers[id].seen_at(at).at_address(ip)),
                ..self
            }
        } else {
            self
        }
    }

    /// The state after the worker under `id` reported job `job_id` at `at`:
    /// liveness renewed, the first job with that id gone from its queue.
    pub open spec fn complete(self, id: Seq<char>, job_id: u32, at: Instant) -> WorkerStateView {
        if self.workers.contains_key(id) {
            WorkerStateView {
                workers: self.workers.insert(
                    id,
                    self.workers[id].seen_at(at).without_job(job_id),
                ),
                ..self
            }
        } else {
            self
        }
    }

    /// The state after the outcome of `status` was recorded for `username`.
    pub open spec fn record(self, status: JobStatus, username: String) -> WorkerStateView {
        WorkerStateView {
            outcomes: self.outcomes.insert(status.job_id, outcome_of(status, username)),
            ..self
        }
    }

    /// The state after the worker under `id` was removed with all it held.
    pub open spec fn unregister(self, id: Seq<char>) -> WorkerStateView {
        WorkerStateView { workers: self.workers.remove(id), ..self }
    }
}

/// Whether `details` lists the workers of `workers`: each worker once, under
/// its id and with its address, in any order.
pub open spec fn lists_workers(
    details: Seq<WorkerDetail>,
    workers: Map<Seq<char>, WorkerInfoView>,
) -> bool {
    &&& forall|i: int|
        0 <= i < details.len() ==> workers.contains_key(#[trigger] details[i].id@)
            && details[i].ip == workers[details[i].id@].ip
    &&& forall|i: int, j: int|
        0 <= i < j < details.len() ==> details[i].id@ != details[j].id@
    &&& forall|id: Seq<char>|
        workers.contains_key(id) ==> exists|i: int|
            0 <= i < details.len() && #[trigger] details[i].id@ == id
}

impl View for WorkerState {
    type V = WorkerStateView;

    closed spec fn view(&self) -> WorkerStateView {
        WorkerStateView {
            next_job_id: self.current_job_id,
            workers: self.workers@,
            outcomes: self.job_status@,
            sink: self.webhook_tx,
        }
    }
}

impl WorkerState {
    /// Whether the state is well formed: its registry is.
    pub closed spec fn wf(&self) -> bool {
        self.workers.wf()
    }

    /// The state of a coordinator that has just started: no worker, no
    /// outcome, and `1` as the first job id.
    pub fn new(webhook_tx: UnboundedSender<AppEvent>) -> (state: Self)
        ensures
            state.wf(),
            state@ == WorkerStateView::initial(webhook_tx),
    {
        WorkerState::starting_at(webhook_tx, 1)
    }

    /// The state of a coordinator without workers and outcomes whose job
    /// counter stands at `first_job_id`, as when it takes up the count of an
    /// earlier run.
    pub fn starting_at(webhook_tx: UnboundedSender<AppEvent>, first_job_id: u32) -> (state: Self)
        ensures
            state.wf(),
            state@ == WorkerStateView::starting_at(webhook_tx, first_job_id),
    {
        WorkerState {
            current_job_id: first_job_id,
            workers: WorkerRegistry::new(),
            job_status: HashMap::new(),
            webhook_tx,
        }
    }

    /// Registers a worker under `id` unless the id is taken; returns whether
    /// it did. A taken id keeps its worker as it is.
    pub fn register_worker(&mut self, id: String) -> (added: bool)
        requires
            old(self).wf(),
        ensures
            final(self).wf(),
            added == !old(self)@.workers.contains_key(id@),
            final(self)@ == old(self)@.register(id@, final(self)@.last_seen(id@)),
    {
        if self.workers.contains_key(id.as_str()) {
            false
        } else {
            let ghost key = id@;
            let added = self.workers.insert_new(id, WorkerInfo::new());
            assert(self@.workers[key] == WorkerInfoView::fresh(self@.last_seen(key)));
            added
        }
    }

    /// Creates a job for the worker under `worker_id` and returns its id, or
    /// returns `0` and changes nothing when no such worker is registered. The
    /// id comes from the counter, which then moves on and wraps at its width.
    pub fn create_job(
        &mut self,
        worker_id: &str,
        first_name: String,
        last_name: String,
        email: String,
        username: String,
    ) -> (id: u32)
        requires
            old(self).wf(),
        ensures
            final(self).wf(),
            id == old(self)@.created_id(worker_id@),
            final(self)@ == old(self)@.create_job(
                worker_id@,
                (Job { id, first_name, last_name, email, username }),
            ),
    {
        match self.workers.get_mut(worker_id) {
            Some(worker) => {
                let id = self.current_job_id;
                self.current_job_id = id.wrapping_add(1);
                worker.add_job(Job { id, first_name, last_name, email, username });
                id
            },
            None => 0,
        }
    }

    /// Takes the first job with id `job_id` out of the queue of the worker
    /// under `id` and returns it. Renews that worker's liveness either way.
    /// Returns `None` for an unknown worker or an id that no queued job has.
    pub fn remove_job(&mut self, id: &str, job_id: u32) -> (removed: Option<Job>)
        requires
            old(self).wf(),
        ensures
            final(self).wf(),
            removed == matching_job(old(self)@.pending(id@), job_id),
            final(self)@ == old(self)@.complete(id@, job_id, final(self)@.last_seen(id@)),
    {
        match self.workers.get_mut(id) {
            Some(worker) => {
                worker.refresh_status();
                worker.remove_job_with_id(job_id)
            },
            None => None,
        }
    }

    /// Renews liveness and address of the worker under `id` and returns the
    /// job at the head of its queue, which stays queued. Returns `None` for
    /// an unknown worker or an empty queue.
    pub fn get_job(&mut self, id: &str, ip: IpAddress) -> (job: Option<&Job>)
        requires
            old(self).wf(),
        ensures
            final(self).wf(),
            final(self)@ == old(self)@.poll(id@, ip, final(self)@.last_seen(id@)),
            match job {
                Some(j) => head_job(old(self)@.pending(id@)) == Some(*j),
                None => head_job(old(self)@.pending(id@)).is_none(),
            },
    {
        match self.workers.get_mut(id) {
            Some(worker) => {
                worker.refresh_status();
                worker.set_ip(ip);
                worker.get_job()
            },
            None => None,
        }
    }

    /// Lists the registered workers, each once, in no particular order. The
    /// `connected` flag of a line depends on the clock at the time of the
    /// call.
    pub fn list_workers(&self) -> (details: Vec<WorkerDetail>)
        requires
            self.wf(),
        ensures
            lists_workers(details@, self@.workers),
    {
        let mut details: Vec<WorkerDetail> = Vec::new();
        let count: usize = self.workers.len();
        let mut i: usize = 0;
        while i < count
            invariant
                self.wf(),
                count == self.workers.order().len(),
                i <= count,
                details@.len() == i,
                forall|k: int| 0 <= k < i ==> (#[trigger] details@[k]).id@ == self.workers.order()[k],
                forall|k: int|
                    0 <= k < i ==> (#[trigger] details@[k]).ip == self.workers@[self.workers.order()[k]].ip,
            decreases count - i,
        {
            let worker = self.workers.info_at(i);
            let detail = WorkerDetail {
                id: self.workers.id_at(i).clone(),
                ip: worker.ip(),
                connected: worker.connected(),
            };
            details.push(detail);
            i += 1;
        }
        proof {
            let order = self.workers.order();
            assert forall|id: Seq<char>| self@.workers.contains_key(id) implies exists|k: int|
                0 <= k < details@.len() && #[trigger] details@[k].id@ == id by {
                assert(order.contains(id));
                let k = choose|k: int| 0 <= k < order.len() && order[k] == id;
                assert(details@[k].id@ == id);
            }
            assert forall|k: int| 0 <= k < details@.len() implies self@.workers.contains_key(
                #[trigger] details@[k].id@,
            ) by {
                assert(order.contains(order[k]));
            }
        }
        details
    }

    /// Removes the worker under `id` with its pending jobs, for which no
    /// outcome is recorded. Returns whether there was such a worker.
    pub fn remove_worker(&mut self, id: &str) -> (removed: bool)
        requires
            old(self).wf(),
        ensures
            final(self).wf(),
            removed == old(self)@.workers.contains_key(id@),
            final(self)@ == old(self)@.unregister(id@),
    {
        self.workers.remove(id).is_some()
    }

    /// Records the outcome that `status` reports for a job of `username`,
    /// in place of any outcome kept for the same job id.
    pub fn set_job_status(&mut self, status: JobStatus, username: String)
        requires
            old(self).wf(),
        ensures
            final(self).wf(),
            final(self)@ == old(self)@.record(status, username),
    {
        self.job_status.insert(
            status.job_id,
            JobResponse {
                success: status.success,
                pgp_key: status.public_key,
                pgp_cert_id: status.fingerprint,
                ssh_key: status.ssh_key,
                error: status.error,
                username,
            },
        );
    }

    /// The outcome kept for `job_id`.
    pub fn get_job_status(&self, job_id: u32) -> (outcome: Option<&JobResponse>)
        ensures
            match outcome {
                Some(kept) => self@.outcomes.contains_key(job_id) && self@.outcomes[job_id]
                    == *kept,
                None => !self@.outcomes.contains_key(job_id),
            },
    {
        self.job_status.get(&job_id)
    }

    /// Hands `event` to the notification sink. Fails exactly when the sink
    /// refuses it, which is when its receiving half is gone.
    pub fn notify(&self, event: AppEvent) -> (sent: Result<(), CoordinatorError>)
        ensures
            sent.is_err() ==> sent == Err::<(), CoordinatorError>(
                CoordinatorError::NotificationChannelFailure,
            ),
    {
        WorkerState::notified(self.webhook_tx.send(event))
    }

    /// What `notify` returns for what the sink answered: success where the
    /// sink took the event, `NotificationChannelFailure` where it gave the
    /// event back.
    pub fn notified(
        answer: Result<(), tokio::sync::mpsc::error::SendError<AppEvent>>,
    ) -> (sent: Result<(), CoordinatorError>)
        ensures
            sent == match answer {
                Ok(_) => Ok::<(), CoordinatorError>(()),
                Err(_) => Err::<(), CoordinatorError>(
                    CoordinatorError::NotificationChannelFailure,
                ),
            },
    {
        match answer {
            Ok(()) => Ok(()),
            Err(_) => Err(CoordinatorError::NotificationChannelFailure),
        }
    }
}

} // verus!
