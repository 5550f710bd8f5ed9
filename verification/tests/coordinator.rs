use std::time::{Duration, Instant};

use tokio::sync::mpsc::error::SendError;
use tokio::sync::mpsc::unbounded_channel;
use tokio::sync::mpsc::UnboundedReceiver;
use worker_coordinator::clock::{within_threshold, CONNECTED_THRESHOLD_SECS};
use worker_coordinator::error::CoordinatorError;
use worker_coordinator::events::{provision_event, AppEvent};
use worker_coordinator::job::{Job, JobResponse, JobStatus};
use worker_coordinator::registry::WorkerRegistry;
use worker_coordinator::state::{WorkerDetail, WorkerState};
use worker_coordinator::worker::{IpAddress, WorkerInfo};

fn fresh_state() -> (WorkerState, UnboundedReceiver<AppEvent>) {
    let (tx, rx) = unbounded_channel::<AppEvent>();
    (WorkerState::new(tx), rx)
}

fn job(id: u32, name: &str) -> Job {
    Job {
        id,
        first_name: format!("{name}-first"),
        last_name: format!("{name}-last"),
        email: format!("{name}@example.com"),
        username: name.to_string(),
    }
}

fn create(state: &mut WorkerState, worker: &str, name: &str) -> u32 {
    state.create_job(
        worker,
        format!("{name}-first"),
        format!("{name}-last"),
        format!("{name}@example.com"),
        name.to_string(),
    )
}

fn report(worker: &str, job_id: u32, success: bool) -> JobStatus {
    JobStatus {
        id: worker.to_string(),
        job_id,
        success,
        public_key: format!("pgp-{job_id}"),
        ssh_key: format!("ssh-{job_id}"),
        fingerprint: format!("fpr-{job_id}"),
        error: if success { String::new() } else { format!("failed-{job_id}") },
    }
}

fn wait_out_threshold() {
    let start = Instant::now();
    while start.elapsed() < Duration::from_millis(2100) {
        std::hint::spin_loop();
    }
}

#[test]
fn threshold_is_two_seconds() {
    assert_eq!(CONNECTED_THRESHOLD_SECS, 2);
    assert!(within_threshold(0));
    assert!(within_threshold(1));
    assert!(!within_threshold(2));
    assert!(!within_threshold(3));
    assert!(!within_threshold(u64::MAX));
}

#[test]
fn unspecified_address_is_ipv4_zero() {
    assert_eq!(IpAddress::unspecified(), IpAddress::V4(0));
}

#[test]
fn new_worker_has_no_job_and_no_address() {
    let worker = WorkerInfo::new();
    assert_eq!(worker.get_job(), None);
    assert_eq!(worker.ip(), IpAddress::V4(0));
    assert!(worker.connected());
}

#[test]
fn default_worker_is_a_new_worker() {
    let worker = WorkerInfo::default();
    assert_eq!(worker.get_job(), None);
    assert_eq!(worker.ip(), IpAddress::unspecified());
}

#[test]
fn worker_goes_stale_and_is_refreshed() {
    let mut worker = WorkerInfo::new();
    assert!(worker.connected());
    wait_out_threshold();
    assert!(!worker.connected());
    worker.refresh_status();
    assert!(worker.connected());
}

#[test]
fn refresh_keeps_address_and_queue() {
    let mut worker = WorkerInfo::new();
    worker.set_ip(IpAddress::V4(0x0a00_0001));
    worker.add_job(job(4, "dora"));
    worker.refresh_status();
    assert_eq!(worker.ip(), IpAddress::V4(0x0a00_0001));
    assert_eq!(worker.get_job(), Some(&job(4, "dora")));
}

#[test]
fn set_ip_replaces_address_only() {
    let mut worker = WorkerInfo::new();
    worker.add_job(job(1, "alice"));
    worker.set_ip(IpAddress::V6(1));
    assert_eq!(worker.ip(), IpAddress::V6(1));
    assert_eq!(worker.get_job(), Some(&job(1, "alice")));
    worker.set_ip(IpAddress::V4(0xc0a8_0001));
    assert_eq!(worker.ip(), IpAddress::V4(0xc0a8_0001));
}

#[test]
fn worker_queue_keeps_insertion_order() {
    let mut worker = WorkerInfo::new();
    worker.add_job(job(1, "alice"));
    worker.add_job(job(2, "bob"));
    worker.add_job(job(3, "carol"));
    assert_eq!(worker.get_job(), Some(&job(1, "alice")));
    assert_eq!(worker.get_job(), Some(&job(1, "alice")));
    assert_eq!(worker.remove_job_with_id(1), Some(job(1, "alice")));
    assert_eq!(worker.get_job(), Some(&job(2, "bob")));
    assert_eq!(worker.remove_job_with_id(2), Some(job(2, "bob")));
    assert_eq!(worker.get_job(), Some(&job(3, "carol")));
}

#[test]
fn worker_removes_job_from_the_middle() {
    let mut worker = WorkerInfo::new();
    worker.add_job(job(1, "alice"));
    worker.add_job(job(2, "bob"));
    worker.add_job(job(3, "carol"));
    assert_eq!(worker.remove_job_with_id(2), Some(job(2, "bob")));
    assert_eq!(worker.remove_job_with_id(2), None);
    assert_eq!(worker.remove_job_with_id(1), Some(job(1, "alice")));
    assert_eq!(worker.remove_job_with_id(3), Some(job(3, "carol")));
    assert_eq!(worker.get_job(), None);
}

#[test]
fn worker_removes_first_of_two_jobs_with_one_id() {
    let mut worker = WorkerInfo::new();
    worker.add_job(job(7, "first"));
    worker.add_job(job(8, "between"));
    worker.add_job(job(7, "second"));
    assert_eq!(worker.remove_job_with_id(7), Some(job(7, "first")));
    assert_eq!(worker.get_job(), Some(&job(8, "between")));
    assert_eq!(worker.remove_job_with_id(7), Some(job(7, "second")));
    assert_eq!(worker.remove_job_with_id(7), None);
}

#[test]
fn removing_unknown_job_changes_nothing() {
    let mut worker = WorkerInfo::new();
    assert_eq!(worker.remove_job_with_id(1), None);
    worker.add_job(job(1, "alice"));
    assert_eq!(worker.remove_job_with_id(9), None);
    assert_eq!(worker.get_job(), Some(&job(1, "alice")));
}

#[test]
fn job_clone_is_equal() {
    let original = job(5, "eve");
    assert_eq!(original.clone(), original);
    let status = report("w1", 5, false);
    assert_eq!(status.clone(), status);
}

#[test]
fn registry_inserts_each_id_once() {
    let mut registry = WorkerRegistry::new();
    assert_eq!(registry.len(), 0);
    assert!(!registry.contains_key("w1"));
    assert!(registry.insert_new("w1".to_string(), WorkerInfo::new()));
    assert!(registry.contains_key("w1"));
    assert!(!registry.contains_key("w"));
    assert!(!registry.contains_key("w11"));

    let mut other = WorkerInfo::new();
    other.set_ip(IpAddress::V4(9));
    assert!(!registry.insert_new("w1".to_string(), other));
    assert_eq!(registry.len(), 1);
    assert_eq!(registry.get("w1").map(|worker| worker.ip()), Some(IpAddress::V4(0)));
}

#[test]
fn registry_changes_a_record_in_place() {
    let mut registry = WorkerRegistry::new();
    registry.insert_new("w1".to_string(), WorkerInfo::new());
    registry.insert_new("w2".to_string(), WorkerInfo::new());
    registry.get_mut("w2").unwrap().add_job(job(3, "carol"));
    assert!(registry.get_mut("w3").is_none());
    assert_eq!(registry.get("w1").unwrap().get_job(), None);
    assert_eq!(registry.get("w2").unwrap().get_job(), Some(&job(3, "carol")));
    assert!(registry.get("w3").is_none());
}

#[test]
fn registry_removes_by_id() {
    let mut registry = WorkerRegistry::new();
    registry.insert_new("a".to_string(), WorkerInfo::new());
    registry.insert_new("b".to_string(), WorkerInfo::new());
    registry.insert_new("c".to_string(), WorkerInfo::new());
    registry.get_mut("b").unwrap().add_job(job(1, "alice"));
    let removed = registry.remove("b").unwrap();
    assert_eq!(removed.get_job(), Some(&job(1, "alice")));
    assert!(registry.remove("b").is_none());
    assert_eq!(registry.len(), 2);
    assert_eq!(registry.id_at(0), "a");
    assert_eq!(registry.id_at(1), "c");
    assert_eq!(registry.info_at(1).get_job(), None);
    assert!(registry.contains_key("a") && registry.contains_key("c"));
}

#[test]
fn new_state_is_empty() {
    let (state, _rx) = fresh_state();
    assert_eq!(state.list_workers(), Vec::<WorkerDetail>::new());
    assert_eq!(state.get_job_status(0), None);
    assert_eq!(state.get_job_status(1), None);
}

#[test]
fn registering_twice_fails_and_keeps_the_worker() {
    let (mut state, _rx) = fresh_state();
    assert!(state.register_worker("w1".to_string()));
    assert_eq!(create(&mut state, "w1", "alice"), 1);
    assert_eq!(
        state.get_job("w1", IpAddress::V4(0x7f00_0001)),
        Some(&job(1, "alice"))
    );

    assert!(!state.register_worker("w1".to_string()));

    let listed = state.list_workers();
    assert_eq!(listed.len(), 1);
    assert_eq!(listed[0].id, "w1");
    assert_eq!(listed[0].ip, IpAddress::V4(0x7f00_0001));
    assert_eq!(
        state.get_job("w1", IpAddress::V4(0x7f00_0001)),
        Some(&job(1, "alice"))
    );
}

#[test]
fn duplicate_registration_leaves_liveness() {
    let (mut state, _rx) = fresh_state();
    assert!(state.register_worker("w1".to_string()));
    wait_out_threshold();
    assert!(!state.register_worker("w1".to_string()));
    assert!(!state.list_workers()[0].connected);
}

#[test]
fn job_for_unknown_worker_is_not_created() {
    let (mut state, _rx) = fresh_state();
    assert_eq!(create(&mut state, "ghost", "alice"), 0);
    assert_eq!(state.list_workers().len(), 0);
    assert_eq!(state.get_job("ghost", IpAddress::unspecified()), None);

    assert!(state.register_worker("w1".to_string()));
    assert_eq!(create(&mut state, "ghost", "alice"), 0);
    assert_eq!(state.get_job("w1", IpAddress::unspecified()), None);
    // The counter has not moved either.
    assert_eq!(create(&mut state, "w1", "bob"), 1);
}

#[test]
fn job_ids_increase_across_workers() {
    let (mut state, _rx) = fresh_state();
    state.register_worker("w1".to_string());
    state.register_worker("w2".to_string());
    assert_eq!(create(&mut state, "w1", "alice"), 1);
    assert_eq!(create(&mut state, "w2", "bob"), 2);
    assert_eq!(create(&mut state, "w1", "carol"), 3);
    assert_eq!(create(&mut state, "nobody", "dave"), 0);
    assert_eq!(create(&mut state, "w2", "erin"), 4);
    assert_eq!(state.get_job("w1", IpAddress::unspecified()), Some(&job(1, "alice")));
    assert_eq!(state.get_job("w2", IpAddress::unspecified()), Some(&job(2, "bob")));
    assert_eq!(state.remove_job("w1", 3), Some(job(3, "carol")));
    assert_eq!(state.remove_job("w2", 4), Some(job(4, "erin")));
}

#[test]
fn job_counter_wraps_at_its_width() {
    let (tx, _rx) = unbounded_channel::<AppEvent>();
    let mut state = WorkerState::starting_at(tx, u32::MAX - 1);
    state.register_worker("w1".to_string());
    assert_eq!(create(&mut state, "w1", "a"), u32::MAX - 1);
    assert_eq!(create(&mut state, "w1", "b"), u32::MAX);
    assert_eq!(create(&mut state, "w1", "c"), 0);
    assert_eq!(create(&mut state, "w1", "d"), 1);
    assert_eq!(state.remove_job("w1", 0), Some(job(0, "c")));
    assert_eq!(state.remove_job("w1", u32::MAX), Some(job(u32::MAX, "b")));
}

#[test]
fn state_starting_at_one_is_a_new_state() {
    let (tx, _rx) = unbounded_channel::<AppEvent>();
    let mut state = WorkerState::starting_at(tx, 1);
    state.register_worker("w1".to_string());
    assert_eq!(create(&mut state, "w1", "a"), 1);
}

#[test]
fn poll_is_idempotent() {
    let (mut state, _rx) = fresh_state();
    state.register_worker("w1".to_string());
    create(&mut state, "w1", "alice");
    create(&mut state, "w1", "bob");
    let first = state.get_job("w1", IpAddress::V4(1)).cloned();
    let second = state.get_job("w1", IpAddress::V4(2)).cloned();
    assert_eq!(first, Some(job(1, "alice")));
    assert_eq!(second, first);
}

#[test]
fn poll_fails_for_unknown_worker_and_empty_queue() {
    let (mut state, _rx) = fresh_state();
    assert_eq!(state.get_job("w1", IpAddress::V4(1)), None);
    state.register_worker("w1".to_string());
    assert_eq!(state.get_job("w1", IpAddress::V4(1)), None);
    assert_eq!(state.list_workers().len(), 1);
}

#[test]
fn poll_records_the_address_and_completion_does_not() {
    let (mut state, _rx) = fresh_state();
    state.register_worker("w1".to_string());
    create(&mut state, "w1", "alice");
    assert_eq!(state.list_workers()[0].ip, IpAddress::V4(0));
    state.get_job("w1", IpAddress::V6(0xfe80 << 112));
    assert_eq!(state.list_workers()[0].ip, IpAddress::V6(0xfe80 << 112));
    state.remove_job("w1", 1);
    assert_eq!(state.list_workers()[0].ip, IpAddress::V6(0xfe80 << 112));
}

#[test]
fn poll_and_completion_refresh_liveness() {
    let (mut state, _rx) = fresh_state();
    state.register_worker("w1".to_string());
    state.register_worker("w2".to_string());
    state.register_worker("w3".to_string());
    wait_out_threshold();
    state.get_job("w1", IpAddress::V4(1));
    state.remove_job("w2", 99);
    let listed = state.list_workers();
    let connected = |id: &str| listed.iter().find(|detail| detail.id == id).unwrap().connected;
    assert!(connected("w1"));
    assert!(connected("w2"));
    assert!(!connected("w3"));
}

#[test]
fn completion_removes_exactly_the_matching_job() {
    let (mut state, _rx) = fresh_state();
    state.register_worker("w1".to_string());
    state.register_worker("w2".to_string());
    create(&mut state, "w1", "alice");
    create(&mut state, "w1", "bob");
    create(&mut state, "w2", "carol");

    // A worker cannot complete a job of another worker.
    assert_eq!(state.remove_job("w2", 2), None);
    assert_eq!(state.remove_job("w3", 2), None);
    // Out of arrival order.
    assert_eq!(state.remove_job("w1", 2), Some(job(2, "bob")));
    assert_eq!(state.remove_job("w1", 2), None);
    assert_eq!(state.get_job("w1", IpAddress::V4(1)), Some(&job(1, "alice")));
    assert_eq!(state.remove_job("w1", 1), Some(job(1, "alice")));
    assert_eq!(state.get_job("w1", IpAddress::V4(1)), None);
    assert_eq!(state.get_job("w2", IpAddress::V4(1)), Some(&job(3, "carol")));
}

#[test]
fn outcome_equals_the_report() {
    let (mut state, _rx) = fresh_state();
    state.set_job_status(report("w1", 5, true), "alice".to_string());
    state.set_job_status(report("w1", 6, false), "bob".to_string());
    assert_eq!(
        state.get_job_status(5),
        Some(&JobResponse {
            success: true,
            pgp_key: "pgp-5".to_string(),
            pgp_cert_id: "fpr-5".to_string(),
            ssh_key: "ssh-5".to_string(),
            error: String::new(),
            username: "alice".to_string(),
        })
    );
    assert_eq!(
        state.get_job_status(6),
        Some(&JobResponse {
            success: false,
            pgp_key: "pgp-6".to_string(),
            pgp_cert_id: "fpr-6".to_string(),
            ssh_key: "ssh-6".to_string(),
            error: "failed-6".to_string(),
            username: "bob".to_string(),
        })
    );
    assert_eq!(state.get_job_status(7), None);
}

#[test]
fn second_report_overwrites_the_outcome() {
    let (mut state, _rx) = fresh_state();
    state.set_job_status(report("w1", 5, false), "alice".to_string());
    state.set_job_status(report("w2", 5, true), "bob".to_string());
    let kept = state.get_job_status(5).unwrap();
    assert!(kept.success);
    assert_eq!(kept.username, "bob");
    assert_eq!(kept.error, "");
}

#[test]
fn unregistering_discards_jobs_without_outcomes() {
    let (mut state, _rx) = fresh_state();
    state.register_worker("w1".to_string());
    state.register_worker("w2".to_string());
    create(&mut state, "w1", "alice");
    create(&mut state, "w1", "bob");
    create(&mut state, "w2", "carol");

    assert!(state.remove_worker("w1"));
    assert!(!state.remove_worker("w1"));
    assert_eq!(state.get_job_status(1), None);
    assert_eq!(state.get_job_status(2), None);
    assert_eq!(state.get_job("w1", IpAddress::V4(1)), None);
    assert_eq!(state.remove_job("w1", 1), None);
    assert_eq!(state.get_job("w2", IpAddress::V4(1)), Some(&job(3, "carol")));

    // A worker that registers again under the id starts with an empty queue,
    // and the counter goes on.
    assert!(state.register_worker("w1".to_string()));
    assert_eq!(state.get_job("w1", IpAddress::V4(1)), None);
    assert_eq!(create(&mut state, "w1", "dave"), 4);
}

#[test]
fn unregistering_unknown_worker_changes_nothing() {
    let (mut state, _rx) = fresh_state();
    state.register_worker("w1".to_string());
    assert!(!state.remove_worker("w2"));
    assert_eq!(state.list_workers().len(), 1);
}

#[test]
fn list_names_each_worker_once() {
    let (mut state, _rx) = fresh_state();
    for id in ["w3", "w1", "w2"] {
        state.register_worker(id.to_string());
    }
    state.get_job("w2", IpAddress::V4(22));
    state.remove_worker("w3");
    let mut listed: Vec<(String, IpAddress, bool)> = state
        .list_workers()
        .into_iter()
        .map(|detail| (detail.id, detail.ip, detail.connected))
        .collect();
    listed.sort_by(|a, b| a.0.cmp(&b.0));
    assert_eq!(
        listed,
        vec![
            ("w1".to_string(), IpAddress::V4(0), true),
            ("w2".to_string(), IpAddress::V4(22), true),
        ]
    );
}

#[test]
fn notify_reaches_the_sink() {
    let (state, mut rx) = fresh_state();
    let event = provision_event(&job(1, "alice"), &report("w1", 1, true));
    assert_eq!(state.notify(event), Ok(()));
    match rx.try_recv() {
        Ok(AppEvent::HWKeyProvision(data)) => {
            assert_eq!(data.username, "alice");
            assert_eq!(data.email, "alice@example.com");
            assert_eq!(data.ssh_key, "ssh-1");
            assert_eq!(data.pgp_key, "pgp-1");
            assert_eq!(data.pgp_cert_id, "fpr-1");
        }
        Err(error) => panic!("no event: {error:?}"),
    }
    assert!(rx.try_recv().is_err());
}

#[test]
fn notify_fails_once_the_sink_is_gone() {
    let (state, rx) = fresh_state();
    drop(rx);
    let event = provision_event(&job(1, "alice"), &report("w1", 1, true));
    assert_eq!(
        state.notify(event),
        Err(CoordinatorError::NotificationChannelFailure)
    );
}

#[test]
fn worker_registered_at_an_instant() {
    let now = Instant::now();
    let worker = WorkerInfo::new_at(now);
    assert_eq!(worker.get_job(), None);
    assert_eq!(worker.ip(), IpAddress::V4(0));
    assert!(worker.connected());
    if let Some(earlier) = now.checked_sub(Duration::from_secs(5)) {
        assert!(!WorkerInfo::new_at(earlier).connected());
    }
}

#[test]
fn liveness_moves_to_the_given_instant() {
    let now = Instant::now();
    let mut worker = WorkerInfo::new_at(now);
    worker.set_ip(IpAddress::V4(3));
    worker.add_job(job(1, "alice"));
    if let Some(earlier) = now.checked_sub(Duration::from_secs(5)) {
        worker.refresh_status_at(earlier);
        assert!(!worker.connected());
    }
    worker.refresh_status_at(now);
    assert!(worker.connected());
    assert_eq!(worker.ip(), IpAddress::V4(3));
    assert_eq!(worker.get_job(), Some(&job(1, "alice")));
}

#[test]
fn answer_of_the_sink_decides_the_result() {
    assert_eq!(WorkerState::notified(Ok(())), Ok(()));
    let event = provision_event(&job(1, "alice"), &report("w1", 1, true));
    assert_eq!(
        WorkerState::notified(Err(SendError(event))),
        Err(CoordinatorError::NotificationChannelFailure)
    );
}
