//! The three calls that workers make, mapped onto the coordinator's state.

use std::time::Instant;
use vstd::prelude::*;

use crate::error::CoordinatorError;
use crate::events::provision_event;
use crate::job::{head_job, matching_job, Job, JobStatus};
use crate::state::{WorkerState, WorkerStateView};
use crate::worker::IpAddress;

verus! {

/// The message by which a worker names itself.
#[derive(Debug, PartialEq, Eq)]
pub struct Worker {
    pub id: String,
}

/// The answer to a poll: whom the job is for, and its id.
#[derive(Debug, PartialEq, Eq)]
pub struct GetJobResponse {
    pub first_name: String,
    pub last_name: String,
    pub email: String,
    pub job_id: u32,
}

/// The keys kept in a user's record.
#[derive(Debug, PartialEq, Eq)]
pub struct UserKeys {
    pub ssh_key: Option<String>,
    pub pgp_key: Option<String>,
    pub pgp_cert_id: Option<String>,
}

/// The keys to store for a user once a job has succeeded.
#[derive(Debug, PartialEq, Eq)]
pub struct KeyUpdate {
    pub username: String,
    pub keys: UserKeys,
}

/// What the persistence layer reports while a completion is followed up.
#[derive(Clone, Copy, Debug, PartialEq, Eq, Structural)]
pub enum JobDoneEvent {
    /// The user of the job has a record.
    UserFound,
    /// No record carries the job's username.
    UserMissing,
    /// The lookup itself failed.
    LookupFailed,
    /// The record was stored with the new keys.
    Saved,
    /// Storing the record failed.
    SaveFailed,
}

/// What remains to be done for a completion report.
#[derive(Debug, PartialEq, Eq)]
pub enum JobDoneStep {
    /// Look up the record of the user that `update` names.
    FindUser { update: KeyUpdate },
    /// Put `keys` in the record that was found and store it.
    SaveKeys { keys: UserKeys },
    /// Answer the worker with `result`. `absorbed` is a failure that is
    /// logged and kept from the worker.
    Reply { result: Result<(), CoordinatorError>, absorbed: Option<CoordinatorError> },
}

/// The address recorded for a poll: the one that the transport observed, or
/// the unspecified address when it observed none.
pub open spec fn observed_address(remote_addr: Option<IpAddress>) -> IpAddress {
    match remote_addr {
        Some(ip) => ip,
        None => IpAddress::unspecified_spec(),
    }
}

/// The answer to a registration under `id`: a failure exactly when the id
/// is taken.
pub open spec fn registration_reply_of(state: WorkerStateView, id: Seq<char>) -> Result<
    (),
    CoordinatorError,
> {
    if state.workers.contains_key(id) {
        Err(CoordinatorError::DuplicateRegistration)
    } else {
        Ok(())
    }
}

/// The answer to a poll of the worker under `id`: the job at the head of its
/// queue, or a failure when the worker is unknown or its queue is empty.
pub open spec fn poll_reply_of(state: WorkerStateView, id: Seq<char>) -> Result<
    GetJobResponse,
    CoordinatorError,
> {
    match head_job(state.pending(id)) {
        Some(job) => Ok(job_response_of(job)),
        None => Err(CoordinatorError::NoJobAvailable),
    }
}

/// The answer to a poll that found `job`.
pub open spec fn job_response_of(job: Job) -> GetJobResponse {
    GetJobResponse {
        first_name: job.first_name,
        last_name: job.last_name,
        email: job.email,
        job_id: job.id,
    }
}

/// The keys to store for the user of `job` after the successful report
/// `status`.
pub open spec fn key_update_of(job: Job, status: JobStatus) -> KeyUpdate {
    KeyUpdate {
        username: job.username,
        keys: UserKeys {
            ssh_key: Some(status.ssh_key),
            pgp_key: Some(status.public_key),
            pgp_cert_id: Some(status.fingerprint),
        },
    }
}

/// The state that the report `status`, received at `at`, leaves behind: the
/// reporting worker's liveness renewed and, where a queued job matched, that
/// job gone and its outcome recorded under the job's username.
pub open spec fn job_done(state: WorkerStateView, status: JobStatus, at: Instant) -> WorkerStateView {
    let completed = state.complete(status.id@, status.job_id, at);
    match matching_job(state.pending(status.id@), status.job_id) {
        Some(job) => completed.record(status, job.username),
        None => completed,
    }
}

/// The step that follows the critical section of a completion report.
/// A successful job sends the handler to the user's record. A closed
/// notification sink fails the call. Everything else is answered with
/// success.
pub open spec fn first_step_of(done: Result<Option<KeyUpdate>, CoordinatorError>) -> JobDoneStep {
    match done {
        Ok(Some(update)) => JobDoneStep::FindUser { update },
        Ok(None) => JobDoneStep::Reply { result: Ok(()), absorbed: None },
        Err(CoordinatorError::NotificationChannelFailure) => JobDoneStep::Reply {
            result: Err(CoordinatorError::NotificationChannelFailure),
            absorbed: None,
        },
        Err(other) => JobDoneStep::Reply { result: Ok(()), absorbed: Some(other) },
    }
}

/// The step that follows `step` once the persistence layer has reported
/// `event`. Only a record that was found is written to; a missing user, a
/// failing lookup and a failing store are absorbed, and the worker is
/// answered with success. An event that does not belong to the step leaves
/// the step as it is.
pub open spec fn next_step_of(step: JobDoneStep, event: JobDoneEvent) -> JobDoneStep {
    match (step, event) {
        (JobDoneStep::FindUser { update }, JobDoneEvent::UserFound) => JobDoneStep::SaveKeys {
            keys: update.keys,
        },
        (JobDoneStep::FindUser { .. }, JobDoneEvent::UserMissing) => JobDoneStep::Reply {
            result: Ok(()),
            absorbed: None,
        },
        (JobDoneStep::FindUser { .. }, JobDoneEvent::LookupFailed) => JobDoneStep::Reply {
            result: Ok(()),
            absorbed: Some(CoordinatorError::PersistenceFailure),
        },
        (JobDoneStep::SaveKeys { .. }, JobDoneEvent::Saved) => JobDoneStep::Reply {
            result: Ok(()),
            absorbed: None,
        },
        (JobDoneStep::SaveKeys { .. }, JobDoneEvent::SaveFailed) => JobDoneStep::Reply {
            result: Ok(()),
            absorbed: Some(CoordinatorError::PersistenceFailure),
        },
        (unchanged, _) => unchanged,
    }
}

/// The handlers of the worker protocol, over the state they serve.
pub struct WorkerServer {
    state: WorkerState,
}

impl View for WorkerServer {
    type V = WorkerStateView;

    closed spec fn view(&self) -> WorkerStateView {
        self.state@
    }
}

impl WorkerServer {
    /// Whether the server is well formed: its state is.
    pub closed spec fn wf(&self) -> bool {
        self.state.wf()
    }

    /// A server over `state`.
    pub fn new(state: WorkerState) -> (server: Self)
        requires
            state.wf(),
        ensures
            server.wf(),
            server@ == state@,
    {
        WorkerServer { state }
    }

    /// The state that the server works on.
    pub fn state(&self) -> (state: &WorkerState)
        ensures
            state@ == self@,
            self.wf() ==> state.wf(),
    {
        &self.state
    }

    /// The state that the server works on, for the operations that are no
    /// calls of the protocol, such as creating a job.
    pub fn state_mut(&mut self) -> (state: &mut WorkerState)
        ensures
            state@ == old(self)@,
            old(self).wf() ==> state.wf(),
            final(self)@ == final(state)@,
            final(state).wf() ==> final(self).wf(),
    {
        &mut self.state
    }

    /// Registers the worker named in `request`. Fails with
    /// `DuplicateRegistration`, and changes nothing, when the id is taken.
    pub fn register_worker(&mut self, request: Worker) -> (reply: Result<(), CoordinatorError>)
        requires
            old(self).wf(),
        ensures
            final(self).wf(),
            final(self)@ == old(self)@.register(request.id@, final(self)@.last_seen(request.id@)),
            reply == registration_reply_of(old(self)@, request.id@),
    {
        if self.state.register_worker(request.id) {
            Ok(())
        } else {
            Err(CoordinatorError::DuplicateRegistration)
        }
    }

    /// Serves a poll of the worker named in `request`, seen at `remote_addr`:
    /// renews its liveness and address and answers with the job at the head
    /// of its queue, which stays queued. Fails with `NoJobAvailable` when the
    /// worker is unknown or its queue is empty.
    pub fn get_job(&mut self, request: &Worker, remote_addr: Option<IpAddress>) -> (reply: Result<
        GetJobResponse,
        CoordinatorError,
    >)
        requires
            old(self).wf(),
        ensures
            final(self).wf(),
            final(self)@ == old(self)@.poll(
                request.id@,
                observed_address(remote_addr),
                final(self)@.last_seen(request.id@),
            ),
            reply == poll_reply_of(old(self)@, request.id@),
    {
        let ip = match remote_addr {
            Some(ip) => ip,
            None => IpAddress::unspecified(),
        };
        match self.state.get_job(request.id.as_str(), ip) {
            Some(job) => Ok(
                GetJobResponse {
                    first_name: job.first_name.clone(),
                    last_name: job.last_name.clone(),
                    email: job.email.clone(),
                    job_id: job.id,
                },
            ),
            None => Err(CoordinatorError::NoJobAvailable),
        }
    }

    /// The critical section of a completion report: takes the reported job
    /// out of the worker's queue, records its outcome and, for a success,
    /// hands the provisioned keys to the notification sink.
    ///
    /// Returns `JobNotFound` when no queued job matched, and then only the
    /// worker's liveness has changed. For a failed job returns `Ok(None)`.
    /// For a successful job returns the keys to store for its user, unless
    /// the sink is closed: then `NotificationChannelFailure`, with the job
    /// gone and its outcome recorded all the same.
    pub fn set_job_done(&mut self, request: &JobStatus) -> (done: Result<
        Option<KeyUpdate>,
        CoordinatorError,
    >)
        requires
            old(self).wf(),
        ensures
            final(self).wf(),
            final(self)@ == job_done(old(self)@, *request, final(self)@.last_seen(request.id@)),
            match matching_job(old(self)@.pending(request.id@), request.job_id) {
                None => done == Err::<Option<KeyUpdate>, CoordinatorError>(
                    CoordinatorError::JobNotFound,
                ),
                Some(job) => if request.success {
                    ||| done == Ok::<Option<KeyUpdate>, CoordinatorError>(
                        Some(key_update_of(job, *request)),
                    )
                    ||| done == Err::<Option<KeyUpdate>, CoordinatorError>(
                        CoordinatorError::NotificationChannelFailure,
                    )
                } else {
                    done == Ok::<Option<KeyUpdate>, CoordinatorError>(None)
                },
            },
    {
        match self.state.remove_job(request.id.as_str(), request.job_id) {
            Some(job) => {
                self.state.set_job_status(request.clone(), job.username.clone());
                if request.success {
                    let event = provision_event(&job, request);
                    match self.state.notify(event) {
                        Ok(()) => Ok(
                            Some(
                                KeyUpdate {
                                    username: job.username,
                                    keys: UserKeys {
                                        ssh_key: Some(request.ssh_key.clone()),
                                        pgp_key: Some(request.public_key.clone()),
                                        pgp_cert_id: Some(request.fingerprint.clone()),
                                    },
                                },
                            ),
                        ),
                        Err(failure) => Err(failure),
                    }
                } else {
                    Ok(None)
                }
            },
            None => Err(CoordinatorError::JobNotFound),
        }
    }

    /// The step that follows the critical section, given what it returned.
    pub fn first_step(done: Result<Option<KeyUpdate>, CoordinatorError>) -> (step: JobDoneStep)
        ensures
            step == first_step_of(done),
    {
        match done {
            Ok(Some(update)) => JobDoneStep::FindUser { update },
            Ok(None) => JobDoneStep::Reply { result: Ok(()), absorbed: None },
            Err(CoordinatorError::NotificationChannelFailure) => JobDoneStep::Reply {
                result: Err(CoordinatorError::NotificationChannelFailure),
                absorbed: None,
            },
            Err(other) => JobDoneStep::Reply { result: Ok(()), absorbed: Some(other) },
        }
    }

    /// The step that follows `step` once the persistence layer has reported
    /// `event`.
    pub fn next_step(step: JobDoneStep, event: JobDoneEvent) -> (next: JobDoneStep)
        ensures
            next == next_step_of(step, event),
    {
        match (step, event) {
            (JobDoneStep::FindUser { update }, JobDoneEvent::UserFound) => JobDoneStep::SaveKeys {
                keys: update.keys,
            },
            (JobDoneStep::FindUser { .. }, JobDoneEvent::UserMissing) => JobDoneStep::Reply {
                result: Ok(()),
                absorbed: None,
            },
            (JobDoneStep::FindUser { .. }, JobDoneEvent::LookupFailed) => JobDoneStep::Reply {
                result: Ok(()),
                absorbed: Some(CoordinatorError::PersistenceFailure),
            },
            (JobDoneStep::SaveKeys { .. }, JobDoneEvent::Saved) => JobDoneStep::Reply {
                result: Ok(()),
                absorbed: None,
            },
            (JobDoneStep::SaveKeys { .. }, JobDoneEvent::SaveFailed) => JobDoneStep::Reply {
                result: Ok(()),
                absorbed: Some(CoordinatorError::PersistenceFailure),
            },
            (unchanged, _) => unchanged,
        }
    }
}

} // verus!
