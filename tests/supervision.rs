use chvm::exit::{exit_notice, exit_notice_at, initial_exit_notice, needs_exit_wait, WaitOutcome};
use chvm::pids::Pids;
use chvm::stop::{stop_plan, vmm_signal_decision, Signal, SignalOutcome};
use chvm::vcpu::{parse_vcpu_index, vcpu_threads, TaskName};
use chvm::error::Error;

fn task(tid: i32, comm: &str) -> TaskName {
    TaskName { tid, comm: Some(comm.to_string()) }
}

#[test]
fn stop_never_targets_zero_or_absent() {
    let p = Pids { vmm_pid: Some(0), affiliated_pids: vec![0, 5, 0, 7] };
    let plan = stop_plan(&p, false);
    assert_eq!(plan.signal, Signal::Term);
    assert_eq!(plan.vmm, None);
    assert_eq!(plan.affiliated, vec![5, 7]);
    let none = stop_plan(&Pids::new(), true);
    assert_eq!(none.vmm, None);
    assert!(none.affiliated.is_empty());
    assert_eq!(none.signal, Signal::Kill);
}

#[test]
fn signal_to_exited_process_is_success() {
    assert_eq!(vmm_signal_decision(SignalOutcome::NoSuchProcess).unwrap(), false);
    assert_eq!(vmm_signal_decision(SignalOutcome::Delivered).unwrap(), true);
    match vmm_signal_decision(SignalOutcome::Failed("EPERM".to_string())) {
        Err(Error::Signal(m)) => assert_eq!(m, "EPERM"),
        other => panic!("unexpected {:?}", other),
    }
}

#[test]
fn vcpu_threads_keep_only_vcpu_names() {
    let tasks = vec![task(100, "vcpu0"), task(101, "vcpu1"), task(102, "worker")];
    let r = vcpu_threads(&tasks);
    assert_eq!(r.vcpus.len(), 2);
    assert_eq!(r.vcpus.get(&0), Some(&100));
    assert_eq!(r.vcpus.get(&1), Some(&101));
}

#[test]
fn vcpu_threads_skip_unreadable_and_malformed() {
    let tasks = vec![
        TaskName { tid: 1, comm: None },
        task(2, "vcpu"),
        task(3, "vcpux"),
        task(4, "cpu3"),
        task(5, "vcpu12"),
        task(6, "vcpu12"),
    ];
    let r = vcpu_threads(&tasks);
    assert_eq!(r.vcpus.len(), 1);
    assert_eq!(r.vcpus.get(&12), Some(&6));
}

#[test]
fn vcpu_index_follows_integer_syntax() {
    assert_eq!(parse_vcpu_index("vcpu7"), Some(7));
    assert_eq!(parse_vcpu_index("vcpu+7"), Some(7));
    assert_eq!(parse_vcpu_index("vcpu-1"), Some(-1));
    assert_eq!(parse_vcpu_index("vcpu 1"), None);
    assert_eq!(parse_vcpu_index("vcpu99999999999999999999"), None);
    assert_eq!(parse_vcpu_index("vcp"), None);
}

#[test]
fn exit_notice_carries_code_and_time() {
    assert_eq!(exit_notice_at(WaitOutcome::Exited(Some(3)), 1_700_000_000_000_000_000), (3, 1_700_000_000_000_000_000));
    assert_eq!(exit_notice_at(WaitOutcome::Exited(Some(-1)), 5), (u32::MAX, 5));
    assert_eq!(exit_notice_at(WaitOutcome::Exited(None), 9), (0, 9));
    assert_eq!(exit_notice_at(WaitOutcome::WaitFailed, 11), (0, 11));
    let live = exit_notice(WaitOutcome::Exited(Some(0)));
    assert!(live.1 > 1_500_000_000_000_000_000);
    assert_eq!(initial_exit_notice(), (0, 0));
}

#[test]
fn stop_waits_only_for_unreported_exit() {
    assert!(!needs_exit_wait(None));
    assert!(needs_exit_wait(Some((0, 0))));
    assert!(!needs_exit_wait(Some((1, 77))));
}

#[test]
fn exit_channel_readers_see_same_notice() {
    let (tx, rx1) = tokio::sync::watch::channel(initial_exit_notice());
    let rx2 = rx1.clone();
    assert!(needs_exit_wait(Some(*rx1.borrow())));
    tx.send(exit_notice_at(WaitOutcome::Exited(Some(2)), 1234)).unwrap();
    let rx3 = rx1.clone();
    assert_eq!(*rx1.borrow(), (2, 1234));
    assert_eq!(*rx2.borrow(), (2, 1234));
    assert_eq!(*rx3.borrow(), (2, 1234));
    assert!(!needs_exit_wait(Some(*rx2.borrow())));
}
