//! The record that the coordinator keeps of one worker.

use std::time::Instant;
use vstd::prelude::*;

use crate::clock::within_threshold;
use crate::job::{
    has_job, head_job, is_first_with_id, job_position, lemma_first_with_id_unique, matching_job,
    without_job, Job,
};

verus! {

/// A network origin, as the transport reports it: the bits of an IPv4 or of
/// an IPv6 address.
#[derive(Clone, Copy, Debug, PartialEq, Eq, Structural)]
pub enum IpAddress {
    V4(u32),
    V6(u128),
}

impl IpAddress {
    /// The address that stands for "not known": IPv4 `0.0.0.0`.
    pub open spec fn unspecified_spec() -> IpAddress {
        IpAddress::V4(0)
    }

    /// The address that stands for "not known": IPv4 `0.0.0.0`.
    #[verifier::when_used_as_spec(unspecified_spec)]
    pub fn unspecified() -> (ip: IpAddress)
        ensures
            ip == IpAddress::unspecified_spec(),
    {
        IpAddress::V4(0)
    }
}

/// Liveness, last address and pending jobs of one worker.
pub struct WorkerInfo {
    last_seen: Instant,
    ip: IpAddress,
    jobs: Vec<Job>,
}

/// What a `WorkerInfo` holds: when the worker was last heard of, where from,
/// and its pending jobs, oldest first.
pub struct WorkerInfoView {
    pub last_seen: Instant,
    pub ip: IpAddress,
    pub jobs: Seq<Job>,
}

impl WorkerInfoView {
    /// The record of a worker that has just registered at `at`.
    pub open spec fn fresh(at: Instant) -> WorkerInfoView {
        WorkerInfoView { last_seen: at, ip: IpAddress::unspecified_spec(), jobs: Seq::empty() }
    }

    /// This record with its liveness moved to `at`.
    pub open spec fn seen_at(self, at: Instant) -> WorkerInfoView {
        WorkerInfoView { last_seen: at, ..self }
    }

    /// This record with its address replaced.
    pub open spec fn at_address(self, ip: IpAddress) -> WorkerInfoView {
        WorkerInfoView { ip, ..self }
    }

    /// This record with `job` appended to its queue.
    pub open spec fn with_job(self, job: Job) -> WorkerInfoView {
        WorkerInfoView { jobs: self.jobs.push(job), ..self }
    }

    /// This record once the first job with id `job_id` has left its queue.
    pub open spec fn without_job(self, job_id: u32) -> WorkerInfoView {
        WorkerInfoView { jobs: without_job(self.jobs, job_id), ..self }
    }
}

impl View for WorkerInfo {
    type V = WorkerInfoView;

    closed spec fn view(&self) -> WorkerInfoView {
        WorkerInfoView { last_seen: self.last_seen, ip: self.ip, jobs: self.jobs@ }
    }
}

impl Default for WorkerInfo {
    fn default() -> (worker: Self)
        ensures
            worker@ == WorkerInfoView::fresh(worker@.last_seen),
    {
        WorkerInfo::new()
    }
}

impl WorkerInfo {
    /// The record of a worker that registers now: no address known yet, no
    /// job queued.
    pub fn new() -> (worker: Self)
        ensures
            worker@ == WorkerInfoView::fresh(worker@.last_seen),
    {
        WorkerInfo::new_at(Instant::now())
    }

    /// Moves the liveness timestamp to the present. Address and queue stay.
    pub fn refresh_status(&mut self)
        ensures
            final(self)@ == old(self)@.seen_at(final(self)@.last_seen),
    {
        self.refresh_status_at(Instant::now());
    }

    /// Whether the worker was heard of less than `CONNECTED_THRESHOLD_SECS`
    /// whole seconds ago. The answer depends on the clock at the time of the
    /// call; `within_threshold` is the rule applied to the elapsed seconds.
    pub fn connected(&self) -> (connected: bool) {
        within_threshold(self.last_seen.elapsed().as_secs())
    }

    /// The record of a worker that registered at `at`: no address known yet,
    /// no job queued.
    pub fn new_at(at: Instant) -> (worker: Self)
        ensures
            worker@ == WorkerInfoView::fresh(at),
    {
        WorkerInfo { last_seen: at, ip: IpAddress::unspecified(), jobs: Vec::new() }
    }

    /// Moves the liveness timestamp to `at`. Address and queue stay.
    pub fn refresh_status_at(&mut self, at: Instant)
        ensures
            final(self)@ == old(self)@.seen_at(at),
    {
        self.last_seen = at;
    }

    /// The job at the head of the queue, which stays queued.
    pub fn get_job(&self) -> (job: Option<&Job>)
        ensures
            match job {
                Some(j) => head_job(self@.jobs) == Some(*j),
                None => head_job(self@.jobs).is_none(),
            },
    {
        if self.jobs.len() > 0 {
            Some(&self.jobs[0])
        } else {
            None
        }
    }

    /// The last observed address of the worker.
    pub fn ip(&self) -> (ip: IpAddress)
        ensures
            ip == self@.ip,
    {
        self.ip
    }

    /// Records the address that the worker was last observed at.
    pub fn set_ip(&mut self, ip: IpAddress)
        ensures
            final(self)@ == old(self)@.at_address(ip),
    {
        self.ip = ip;
    }

    /// Appends `job` to the queue.
    pub fn add_job(&mut self, job: Job)
        ensures
            final(self)@ == old(self)@.with_job(job),
    {
        self.jobs.push(job);
    }

    /// Takes the first job with id `job_id` out of the queue and returns it;
    /// leaves the queue as it is when no job has that id.
    pub fn remove_job_with_id(&mut self, job_id: u32) -> (removed: Option<Job>)
        ensures
            removed == matching_job(old(self)@.jobs, job_id),
            final(self)@ == old(self)@.without_job(job_id),
    {
        let mut index: usize = 0;
        while index < self.jobs.len()
            invariant
                index <= self.jobs@.len(),
                *self == *old(self),
                forall|j: int| 0 <= j < index ==> self.jobs@[j].id != job_id,
            decreases self.jobs@.len() - index,
        {
            if self.jobs[index].id == job_id {
                proof {
                    let jobs = self.jobs@;
                    assert(is_first_with_id(jobs, job_id, index as int));
                    assert(has_job(jobs, job_id));
                    lemma_first_with_id_unique(
                        jobs,
                        job_id,
                        index as int,
                        job_position(jobs, job_id),
                    );
                }
                let job = self.jobs.remove(index);
                return Some(job);
            }
            index += 1;
        }
        assert(!has_job(self.jobs@, job_id));
        None
    }
}

} // verus!
