//! Events that the coordinator hands to the notification sink.

use tokio::sync::mpsc::error::SendError;
use tokio::sync::mpsc::UnboundedSender;
use vstd::prelude::*;

use crate::job::{Job, JobStatus};

verus! {

/// `tokio::sync::mpsc::UnboundedSender`, the sending half of the unbounded
/// channel that feeds the notification sink. Carried as an opaque handle.
#[verifier::external_type_specification]
#[verifier::external_body]
#[verifier::reject_recursive_types(T)]
pub struct ExUnboundedSender<T>(tokio::sync::mpsc::UnboundedSender<T>);

/// `tokio::sync::mpsc::error::SendError`, which a closed channel gives back.
#[verifier::external_type_specification]
#[verifier::external_body]
#[verifier::reject_recursive_types(T)]
pub struct ExSendError<T>(tokio::sync::mpsc::error::SendError<T>);

/// `UnboundedSender::send` enqueues without waiting and fails once the
/// receiving half is closed or dropped. Whether it is closed is not known to
/// the sender, so nothing is claimed of the result.
pub assume_specification<T>[ tokio::sync::mpsc::UnboundedSender::<T>::send ](
    tx: &UnboundedSender<T>,
    message: T,
) -> (sent: Result<(), SendError<T>>)
;

/// Key material provisioned for a user, as downstream systems receive it.
#[derive(Debug, PartialEq, Eq)]
pub struct HWKeyUserData {
    pub username: String,
    pub email: String,
    pub ssh_key: String,
    pub pgp_key: String,
    pub pgp_cert_id: String,
}

/// What the coordinator tells the notification sink.
#[derive(Debug, PartialEq, Eq)]
pub enum AppEvent {
    HWKeyProvision(HWKeyUserData),
}

/// The event that a successful report `status` for `job` gives rise to.
pub open spec fn provision_event_of(job: Job, status: JobStatus) -> AppEvent {
    AppEvent::HWKeyProvision(
        HWKeyUserData {
            username: job.username,
            email: job.email,
            ssh_key: status.ssh_key,
            pgp_key: status.public_key,
            pgp_cert_id: status.fingerprint,
        },
    )
}

/// Builds the event that announces the keys reported in `status` for the
/// user of `job`.
pub fn provision_event(job: &Job, status: &JobStatus) -> (event: AppEvent)
    ensures
        event == provision_event_of(*job, *status),
{
    AppEvent::HWKeyProvision(
        HWKeyUserData {
            username: job.username.clone(),
            email: job.email.clone(),
            ssh_key: status.ssh_key.clone(),
            pgp_key: status.public_key.clone(),
            pgp_cert_id: status.fingerprint.clone(),
        },
    )
}

} // verus!
