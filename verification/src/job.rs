//! Jobs, the reports that complete them, and the outcomes kept afterwards.

use vstd::prelude::*;

verus! {

/// One unit of key-provisioning work for a user account.
#[derive(Debug, PartialEq, Eq)]
pub struct Job {
    pub id: u32,
    pub first_name: String,
    pub last_name: String,
    pub email: String,
    pub username: String,
}

impl Clone for Job {
    fn clone(&self) -> (copy: Self)
        ensures
            copy == *self,
    {
        Job {
            id: self.id,
            first_name: self.first_name.clone(),
            last_name: self.last_name.clone(),
            email: self.email.clone(),
            username: self.username.clone(),
        }
    }
}

/// A worker's report that it has finished a job.
#[derive(Debug, PartialEq, Eq)]
pub struct JobStatus {
    pub id: String,
    pub job_id: u32,
    pub success: bool,
    pub public_key: String,
    pub ssh_key: String,
    pub fingerprint: String,
    pub error: String,
}

impl Clone for JobStatus {
    fn clone(&self) -> (copy: Self)
        ensures
            copy == *self,
    {
        JobStatus {
            id: self.id.clone(),
            job_id: self.job_id,
            success: self.success,
            public_key: self.public_key.clone(),
            ssh_key: self.ssh_key.clone(),
            fingerprint: self.fingerprint.clone(),
            error: self.error.clone(),
        }
    }
}

/// The outcome kept for a completed job.
#[derive(Debug, PartialEq, Eq)]
pub struct JobResponse {
    pub success: bool,
    pub pgp_key: String,
    pub pgp_cert_id: String,
    pub ssh_key: String,
    pub error: String,
    pub username: String,
}

impl Clone for JobResponse {
    fn clone(&self) -> (copy: Self)
        ensures
            copy == *self,
    {
        JobResponse {
            success: self.success,
            pgp_key: self.pgp_key.clone(),
            pgp_cert_id: self.pgp_cert_id.clone(),
            ssh_key: self.ssh_key.clone(),
            error: self.error.clone(),
            username: self.username.clone(),
        }
    }
}

/// The outcome that a report leaves behind for a job of `username`.
pub open spec fn outcome_of(status: JobStatus, username: String) -> JobResponse {
    JobResponse {
        success: status.success,
        pgp_key: status.public_key,
        pgp_cert_id: status.fingerprint,
        ssh_key: status.ssh_key,
        error: status.error,
        username,
    }
}

/// Whether `i` is the first position in `jobs` that holds a job with id
/// `job_id`.
pub open spec fn is_first_with_id(jobs: Seq<Job>, job_id: u32, i: int) -> bool {
    &&& 0 <= i < jobs.len()
    &&& jobs[i].id == job_id
    &&& forall|j: int| 0 <= j < i ==> jobs[j].id != job_id
}

/// Whether some job in `jobs` has id `job_id`.
pub open spec fn has_job(jobs: Seq<Job>, job_id: u32) -> bool {
    exists|i: int| 0 <= i < jobs.len() && jobs[i].id == job_id
}

/// The first position in `jobs` that holds a job with id `job_id`; meaningful
/// when `has_job(jobs, job_id)`.
pub open spec fn job_position(jobs: Seq<Job>, job_id: u32) -> int {
    choose|i: int| is_first_with_id(jobs, job_id, i)
}

/// The job that a completion report for `job_id` takes out of `jobs`.
pub open spec fn matching_job(jobs: Seq<Job>, job_id: u32) -> Option<Job> {
    if has_job(jobs, job_id) {
        Some(jobs[job_position(jobs, job_id)])
    } else {
        None
    }
}

/// `jobs` once a completion report for `job_id` has taken its job out: the
/// first job with that id is gone, the others keep their order.
pub open spec fn without_job(jobs: Seq<Job>, job_id: u32) -> Seq<Job> {
    if has_job(jobs, job_id) {
        jobs.remove(job_position(jobs, job_id))
    } else {
        jobs
    }
}

/// The job at the head of `jobs`, which a poll hands out.
pub open spec fn head_job(jobs: Seq<Job>) -> Option<Job> {
    if jobs.len() > 0 {
        Some(jobs[0])
    } else {
        None
    }
}

/// Whether no two positions of `jobs` hold the same job id.
pub open spec fn distinct_ids(jobs: Seq<Job>) -> bool {
    forall|i: int, j: int| 0 <= i < j < jobs.len() ==> jobs[i].id != jobs[j].id
}

/// Among positions that are first for `job_id`, there is only one.
pub proof fn lemma_first_with_id_unique(jobs: Seq<Job>, job_id: u32, i: int, j: int)
    requires
        is_first_with_id(jobs, job_id, i),
        is_first_with_id(jobs, job_id, j),
    ensures
        i == j,
{
    if i < j {
        assert(jobs[i].id != job_id);
    } else if j < i {
        assert(jobs[j].id != job_id);
    }
}

/// A queue that holds a job with id `job_id` has a first such job, and
/// `job_position` is its place.
pub proof fn lemma_job_position(jobs: Seq<Job>, job_id: u32)
    requires
        has_job(jobs, job_id),
    ensures
        is_first_with_id(jobs, job_id, job_position(jobs, job_id)),
{
    let k = choose|i: int| 0 <= i < jobs.len() && jobs[i].id == job_id;
    lemma_first_below(jobs, job_id, k);
}

/// Below any position that holds `job_id` lies a first one.
proof fn lemma_first_below(jobs: Seq<Job>, job_id: u32, k: int)
    requires
        0 <= k < jobs.len(),
        jobs[k].id == job_id,
    ensures
        exists|i: int| is_first_with_id(jobs, job_id, i),
    decreases k,
{
    if forall|j: int| 0 <= j < k ==> jobs[j].id != job_id {
        assert(is_first_with_id(jobs, job_id, k));
    } else {
        let j = choose|j: int| 0 <= j < k && jobs[j].id == job_id;
        lemma_first_below(jobs, job_id, j);
    }
}

} // verus!
