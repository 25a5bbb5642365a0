//! Tests of the resource probe, reconciliation and the monitor/healer pair.

use sc_starter::resource::{heal, healthy, probe, reconcile, FileExist, ManagedDisk, ResourcePayload};
use sc_starter::supervisor::{HealerPhase, MonitorPhase, Supervisor};

fn payload() -> ResourcePayload {
    ResourcePayload::new(vec![1, 2, 3, 4, 5], vec![9, 9])
}

fn healthy_disk(p: &ResourcePayload) -> ManagedDisk {
    ManagedDisk {
        exe: Some(p.exe_image.clone()),
        conf: Some(p.conf_image.clone()),
    }
}

#[test]
fn probe_reports_all_four_presence_combinations() {
    let p = payload();
    // neither missing
    let d = healthy_disk(&p);
    let s = probe(&d, &p);
    assert!(s.exe_exist && s.exe_latest && s.conf_exist);
    // executable missing
    let d = ManagedDisk { exe: None, conf: Some(p.conf_image.clone()) };
    let s = probe(&d, &p);
    assert!(!s.exe_exist && !s.exe_latest && s.conf_exist);
    // config missing
    let d = ManagedDisk { exe: Some(p.exe_image.clone()), conf: None };
    let s = probe(&d, &p);
    assert!(s.exe_exist && s.exe_latest && !s.conf_exist);
    // both missing
    let d = ManagedDisk { exe: None, conf: None };
    let s = probe(&d, &p);
    assert!(!s.exe_exist && !s.exe_latest && !s.conf_exist);
}

#[test]
fn reconcile_restores_each_combination() {
    let p = payload();
    let cases = [
        ManagedDisk { exe: None, conf: None },
        ManagedDisk { exe: None, conf: Some(p.conf_image.clone()) },
        ManagedDisk { exe: Some(p.exe_image.clone()), conf: None },
        ManagedDisk { exe: Some(vec![7]), conf: Some(vec![8]) },
    ];
    for mut d in cases {
        let s = probe(&d, &p);
        reconcile(&mut d, &p, s);
        let after = probe(&d, &p);
        assert!(after.exe_exist && after.exe_latest && after.conf_exist);
    }
}

#[test]
fn reconcile_on_healthy_status_writes_nothing() {
    let p = payload();
    let mut d = healthy_disk(&p);
    let s = probe(&d, &p);
    let w = reconcile(&mut d, &p, s);
    assert!(!w.wrote_exe);
    assert!(!w.wrote_conf);
    assert_eq!(d.exe.as_deref(), Some(&p.exe_image[..]));
    assert_eq!(d.conf.as_deref(), Some(&p.conf_image[..]));
}

#[test]
fn stale_executable_is_present_but_not_current() {
    // baseline fingerprint of the bundled executable
    let p = ResourcePayload {
        exe_image: Vec::new(),
        conf_image: Vec::new(),
        fingerprint: 8613888,
    };
    // an on-disk executable of a different size
    let d = ManagedDisk { exe: Some(vec![0u8; 1024]), conf: Some(vec![1]) };
    let s = probe(&d, &p);
    assert!(s.exe_exist);
    assert!(!s.exe_latest);
}

#[test]
fn stale_executable_is_rewritten() {
    let p = payload();
    let mut d = ManagedDisk { exe: Some(vec![7]), conf: Some(p.conf_image.clone()) };
    let s = probe(&d, &p);
    assert!(s.exe_exist && !s.exe_latest);
    let w = reconcile(&mut d, &p, s);
    assert!(w.wrote_exe);
    assert!(!w.wrote_conf);
    assert_eq!(d.exe.as_deref(), Some(&p.exe_image[..]));
}

#[test]
fn heal_reports_success_exactly_when_reprobe_is_healthy() {
    let p = payload();
    let mut d = ManagedDisk::new();
    let outcome = heal(&mut d, &p);
    assert!(outcome);
    assert!(healthy(probe(&d, &p)));
}

#[test]
fn deletion_is_detected_and_healed() {
    let p = payload();
    let mut d = healthy_disk(&p);
    d.delete_exe();
    assert!(!probe(&d, &p).exe_exist);
    assert!(heal(&mut d, &p));
    d.delete_conf();
    assert!(!probe(&d, &p).conf_exist);
    assert!(heal(&mut d, &p));
    assert!(healthy(probe(&d, &p)));
}

#[test]
fn default_status_is_pessimistic() {
    let s = FileExist::default();
    assert!(!s.exe_exist && !s.exe_latest && !s.conf_exist);
}

#[test]
fn one_recovery_attempt_per_loss_even_when_detected_twice() {
    let mut sup = Supervisor::new();
    let missing = FileExist { exe_exist: false, exe_latest: false, conf_exist: true };
    // the monitor sees the deletion
    sup.monitor_observe(missing);
    assert_eq!(sup.monitor, MonitorPhase::AwaitingOutcome);
    assert!(sup.loss_slot);
    let after_first = sup;
    // a second rapid detection changes nothing: the monitor is blocked
    sup.monitor_observe(missing);
    assert_eq!(sup, after_first);
    // the healer performs exactly one attempt
    assert!(sup.healer_take_loss());
    assert_eq!(sup.attempts, 1);
    assert!(!sup.healer_take_loss());
    assert_eq!(sup.attempts, 1);
    // recovered: the monitor resumes watching
    sup.healer_report(true);
    assert_eq!(sup.monitor_receive(), Some(true));
    assert_eq!(sup.monitor, MonitorPhase::Watching);
    assert_eq!(sup.healer, HealerPhase::Waiting);
}

#[test]
fn failed_recovery_is_fatal() {
    let mut sup = Supervisor::new();
    let missing = FileExist { exe_exist: true, exe_latest: true, conf_exist: false };
    sup.monitor_observe(missing);
    assert!(sup.healer_take_loss());
    sup.healer_report(false);
    assert_eq!(sup.monitor_receive(), Some(false));
    assert!(!sup.run_flag);
    assert_eq!(sup.monitor, MonitorPhase::Stopped);
}

#[test]
fn healthy_probe_keeps_watching() {
    let mut sup = Supervisor::new();
    let fine = FileExist { exe_exist: true, exe_latest: true, conf_exist: true };
    sup.monitor_observe(fine);
    assert_eq!(sup.monitor, MonitorPhase::Watching);
    assert!(!sup.loss_slot);
    assert_eq!(sup.attempts, 0);
}

#[test]
fn staleness_alone_does_not_trigger_the_monitor() {
    // a stale but present executable is only re-extracted when a loss brings
    // the healer round; the monitor watches for missing files
    let mut sup = Supervisor::new();
    let stale = FileExist { exe_exist: true, exe_latest: false, conf_exist: true };
    sup.monitor_observe(stale);
    assert_eq!(sup.monitor, MonitorPhase::Watching);
    assert!(!sup.loss_slot);
}

#[test]
fn closed_outcome_channel_is_fatal() {
    // the healer is gone without reporting: recovery can never succeed again
    let mut sup = Supervisor {
        run_flag: true,
        monitor: MonitorPhase::AwaitingOutcome,
        healer: HealerPhase::Waiting,
        loss_slot: false,
        outcome_slot: None,
        attempts: 1,
    };
    sup.monitor_channel_closed();
    assert!(!sup.run_flag);
    assert_eq!(sup.monitor, MonitorPhase::Stopped);
}

#[test]
fn stop_request_ends_monitoring_at_next_loop_top() {
    let mut sup = Supervisor::new();
    sup.request_stop();
    assert!(!sup.run_flag);
    let fine = FileExist { exe_exist: true, exe_latest: true, conf_exist: true };
    sup.monitor_observe(fine);
    assert_eq!(sup.monitor, MonitorPhase::Stopped);
    // the flag never comes back
    assert!(!sup.run_flag);
}
