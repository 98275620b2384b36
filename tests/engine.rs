use disk_remedy::action::{
    ActionTag,
    EvalOutcome, FsCheck, MountOutcome, Probe, ProbeResults, RepairOutcome, SmartOutcome,
};
use disk_remedy::device::{Device, FilesystemType, MediaType};
use disk_remedy::engine::StateMachine;
use disk_remedy::state::State;

fn loop_device() -> Device {
    Device {
        id: Some("6eab3005-73a8-4287-b6c6-b83e1def469a".to_string()),
        name: "loop0".to_string(),
        media_type: MediaType::Rotational,
        capacity: 26214400,
        fs_type: FilesystemType::Xfs,
        serial_number: Some("123456".into()),
    }
}

fn healthy() -> ProbeResults {
    ProbeResults {
        smart: SmartOutcome::Passed,
        eval: EvalOutcome::Writable,
        mount: MountOutcome::Mounted,
        remount_ok: true,
        fs_check: FsCheck::Clean,
        repair: RepairOutcome::Repaired,
        reformat_ok: true,
        progress_lookup_ok: true,
    }
}

/// The same outcomes for every step of a run.
fn each_step(p: ProbeResults) -> Vec<ProbeResults> {
    vec![p; 32]
}

fn engine(simulate: bool) -> StateMachine {
    let mut s = StateMachine::new(loop_device(), simulate);
    s.setup_state_machine();
    s
}

#[test]
fn test_state_machine_base() {
    let mut s = engine(true);
    s.restore_state(None);
    let path = s.run(&each_step(healthy()));
    println!("final state: {}", s.state.to_string());
    assert_eq!(s.state, State::Good);
    assert_eq!(path, vec![State::Unscanned, State::Scanned, State::Good]);
}

#[test]
fn test_state_machine_bad_filesystem() {
    let mut s = engine(true);
    s.restore_state(None);
    let mut probes = healthy();
    probes.eval = EvalOutcome::WriteFailed;
    probes.fs_check = FsCheck::Corrupt;
    s.run(&each_step(probes));
    println!("final state: {}", s.state.to_string());
    assert_eq!(s.state, State::Good);
}

#[test]
fn test_state_machine_replace_disk() {
    // SMART passes; the write, the check, the repair and the reformat fail.
    let mut s = engine(false);
    s.restore_state(None);
    let probes = ProbeResults {
        smart: SmartOutcome::Passed,
        eval: EvalOutcome::WriteFailed,
        mount: MountOutcome::Mounted,
        remount_ok: true,
        fs_check: FsCheck::Corrupt,
        repair: RepairOutcome::Failed,
        reformat_ok: false,
        progress_lookup_ok: true,
    };
    let path = s.run(&each_step(probes));
    println!("final state: {}", s.state.to_string());
    assert_eq!(s.state, State::WaitingForReplacement);
    assert_eq!(
        path,
        vec![
            State::Unscanned,
            State::Scanned,
            State::WriteFailed,
            State::Corrupt,
            State::RepairFailed,
            State::ReformatFailed,
            State::WaitingForReplacement
        ]
    );
}

#[test]
fn test_state_machine_replaced_disk() {}

#[test]
fn test_state_machine_resume() {
    let mut d = loop_device();
    d.name = "sda".to_string();
    d.capacity = 1024;
    let mut s = StateMachine::new(d, true);
    s.setup_state_machine();
    s.restore_state(Some(State::WaitingForReplacement));
    let path = s.run(&each_step(healthy()));
    println!("final state: {}", s.state.to_string());
    assert_eq!(s.state, State::WaitingForReplacement);
    assert_eq!(path, vec![State::WaitingForReplacement]);
}

#[test]
fn healthy_run_without_simulation_ends_good() {
    let mut s = engine(false);
    let path = s.run(&each_step(healthy()));
    assert_eq!(path, vec![State::Unscanned, State::Scanned, State::Good]);
}

#[test]
fn smart_failure_ends_in_fail() {
    let mut s = engine(false);
    let mut probes = healthy();
    probes.smart = SmartOutcome::Failing;
    let path = s.run(&each_step(probes));
    assert_eq!(path, vec![State::Unscanned, State::Fail]);
    probes.smart = SmartOutcome::Unavailable;
    let mut t = engine(false);
    t.run(&each_step(probes));
    assert_eq!(t.state, State::Fail);
}

#[test]
fn corruption_repaired_in_one_run() {
    // Found unmounted, mounted, then found corrupt and repaired.
    let mut s = engine(false);
    let base = healthy();
    let mut not_mounted = base;
    not_mounted.eval = EvalOutcome::NotMounted;
    let mut write_failed = base;
    write_failed.eval = EvalOutcome::WriteFailed;
    write_failed.fs_check = FsCheck::Corrupt;
    let outcomes = vec![
        base,
        not_mounted,
        base,
        base,
        write_failed,
        write_failed,
        base,
        base,
        base,
    ];
    let path = s.run(&outcomes);
    assert_eq!(
        path,
        vec![
            State::Unscanned,
            State::Scanned,
            State::NotMounted,
            State::Mounted,
            State::Scanned,
            State::WriteFailed,
            State::Corrupt,
            State::Repaired,
            State::Good
        ]
    );
}

#[test]
fn outcomes_bound_the_run() {
    // Reformatting succeeds but writes keep failing: the table cycles, and the
    // run ends when its outcomes are used up.
    let mut s = engine(false);
    let mut probes = healthy();
    probes.eval = EvalOutcome::WriteFailed;
    probes.fs_check = FsCheck::Corrupt;
    probes.repair = RepairOutcome::Failed;
    let path = s.run(&each_step(probes));
    assert_eq!(path.len(), 33);
    assert_eq!(path[6], State::Unscanned);
    assert_eq!(path[7], State::Scanned);
    let none = s.run(&vec![]);
    assert_eq!(none, vec![s.state]);
}

#[test]
fn already_mounted_device_is_left_alone() {
    let mut s = engine(false);
    s.restore_state(Some(State::NotMounted));
    let mut probes = healthy();
    probes.mount = MountOutcome::AlreadyMounted;
    let path = s.run(&each_step(probes));
    assert_eq!(path[1], State::Mounted);
    assert_eq!(s.state, State::Good);
}

#[test]
fn interrupted_check_leaves_state() {
    let mut s = engine(false);
    s.restore_state(Some(State::WriteFailed));
    let mut probes = healthy();
    probes.fs_check = FsCheck::Interrupted;
    let path = s.run(&each_step(probes));
    assert_eq!(path, vec![State::WriteFailed]);
    assert_eq!(s.state, State::WriteFailed);
}

#[test]
fn probe_error_in_check_ends_in_fail() {
    let mut s = engine(false);
    s.restore_state(Some(State::MountFailed));
    let mut probes = healthy();
    probes.fs_check = FsCheck::ProbeError;
    let path = s.run(&each_step(probes));
    assert_eq!(path, vec![State::MountFailed, State::Fail]);
}

#[test]
fn rerun_after_stop_makes_no_progress() {
    let mut s = engine(false);
    s.run(&each_step(healthy()));
    let again = s.run(&each_step(healthy()));
    assert_eq!(again, vec![State::Good]);
}

#[test]
fn resume_from_midway_reaches_same_end() {
    let mut probes = healthy();
    probes.eval = EvalOutcome::WriteFailed;
    probes.fs_check = FsCheck::Corrupt;
    let mut fresh = engine(false);
    let path = fresh.run(&each_step(probes));
    let mut resumed = engine(false);
    resumed.restore_state(Some(path[3]));
    let rest = resumed.run(&each_step(probes)[3..].to_vec());
    assert_eq!(rest, path[3..].to_vec());
    assert_eq!(resumed.state, fresh.state);
}

#[test]
fn worn_out_device_waits_for_replacement() {
    let mut s = engine(false);
    s.restore_state(Some(State::WornOut));
    let path = s.run(&each_step(healthy()));
    assert_eq!(path, vec![State::WornOut, State::WaitingForReplacement]);
    let mut t = engine(false);
    t.restore_state(Some(State::WornOut));
    let mut probes = healthy();
    probes.progress_lookup_ok = false;
    t.run(&each_step(probes));
    assert_eq!(t.state, State::Fail);
}

#[test]
fn replaced_device_is_scanned_again() {
    let mut s = engine(false);
    s.restore_state(Some(State::Replaced));
    let path = s.run(&each_step(healthy()));
    assert_eq!(
        path,
        vec![State::Replaced, State::Unscanned, State::Scanned, State::Good]
    );
}

#[test]
fn read_only_device_is_remounted() {
    let mut s = engine(false);
    s.restore_state(Some(State::ReadOnly));
    let path = s.run(&each_step(healthy()));
    assert_eq!(
        path,
        vec![State::ReadOnly, State::Mounted, State::Scanned, State::Good]
    );
    let mut t = engine(false);
    t.restore_state(Some(State::ReadOnly));
    let mut probes = healthy();
    probes.remount_ok = false;
    probes.fs_check = FsCheck::Clean;
    let p2 = t.run(&each_step(probes));
    assert_eq!(p2[1], State::MountFailed);
}

#[test]
fn mount_internal_error_is_fail() {
    let mut s = engine(false);
    s.restore_state(Some(State::NotMounted));
    let mut probes = healthy();
    probes.mount = MountOutcome::InternalError;
    let path = s.run(&each_step(probes));
    assert_eq!(path, vec![State::NotMounted, State::Fail]);
}

#[test]
fn eval_outcomes_map_to_states() {
    for (outcome, expected) in [
        (EvalOutcome::MountFailed, State::MountFailed),
        (EvalOutcome::NotMounted, State::NotMounted),
        (EvalOutcome::InternalError, State::Fail),
        (EvalOutcome::WriteFailed, State::WriteFailed),
    ] {
        let mut s = engine(false);
        s.restore_state(Some(State::Scanned));
        let mut probes = healthy();
        probes.eval = outcome;
        assert!(s.step(&probes));
        assert_eq!(s.state, expected);
    }
}

#[test]
fn simulate_follows_declared_targets() {
    let mut probes = healthy();
    probes.smart = SmartOutcome::Failing;
    probes.eval = EvalOutcome::WriteFailed;
    let mut s = engine(true);
    let path = s.run(&each_step(probes));
    assert_eq!(path, vec![State::Unscanned, State::Scanned, State::Good]);
    assert_eq!(s.next_probe(), None);
}

#[test]
fn next_probe_names_the_action_probe() {
    let mut s = engine(false);
    assert_eq!(s.next_probe(), Some(Probe::Smart));
    s.restore_state(Some(State::Scanned));
    assert_eq!(s.next_probe(), Some(Probe::Eval));
    s.restore_state(Some(State::Corrupt));
    assert_eq!(s.next_probe(), Some(Probe::Repair));
    s.restore_state(Some(State::Repaired));
    assert_eq!(s.next_probe(), None);
    s.restore_state(Some(State::WaitingForReplacement));
    assert_eq!(s.next_probe(), None);
}

#[test]
fn table_is_declared_in_order() {
    let s = engine(false);
    let t = s.transitions();
    assert_eq!(t.len(), 24);
    assert_eq!(t[0].0, State::Unscanned);
    assert_eq!(t[0].1, State::Scanned);
    assert_eq!(t[23].0, State::WriteFailed);
    assert_eq!(t[23].1, State::ReadOnly);
    assert_eq!(
        s.next_transition().map(|e| (e.0, e.1)),
        Some((State::Unscanned, State::Scanned))
    );
}

#[test]
fn redeclaring_an_edge_keeps_its_place() {
    let mut s = StateMachine::new(loop_device(), false);
    s.add_transition(State::Scanned, State::Good, ActionTag::Eval);
    s.add_transition(State::Scanned, State::WornOut, ActionTag::CheckWearLeveling);
    s.add_transition(State::Scanned, State::Good, ActionTag::NoOp);
    let t = s.transitions();
    assert_eq!(t.len(), 2);
    assert_eq!(t[0], (State::Scanned, State::Good, ActionTag::NoOp));
    s.restore_state(Some(State::Scanned));
    assert_eq!(
        s.next_transition(),
        Some((State::Scanned, State::Good, ActionTag::NoOp))
    );
}

#[test]
fn empty_table_stops_at_once() {
    let mut s = StateMachine::new(loop_device(), false);
    let path = s.run(&each_step(healthy()));
    assert_eq!(path, vec![State::Unscanned]);
    assert!(!s.is_simulating());
}

#[test]
fn simulate_matches_healthy_path() {
    let mut real = engine(false);
    let mut simulated = engine(true);
    assert_eq!(real.run(&each_step(healthy())), simulated.run(&each_step(healthy())));
}
