use disk_remedy::action::{
    check_filesystem, fsck_flag, fsck_program, fsck_tool, repair_filesystem, transition, ActionTag,
    EvalOutcome, FsCheck, FsckMode,
    FsckTool, MountOutcome, ProbeResults, RepairOutcome, SmartOutcome,
};
use disk_remedy::device::FilesystemType;
use disk_remedy::state::State;

const ALL: [State; 17] = [
    State::Corrupt,
    State::Fail,
    State::Good,
    State::Mounted,
    State::MountFailed,
    State::NotMounted,
    State::ReadOnly,
    State::ReformatFailed,
    State::Reformatted,
    State::RepairFailed,
    State::Repaired,
    State::Replaced,
    State::Scanned,
    State::Unscanned,
    State::WaitingForReplacement,
    State::WornOut,
    State::WriteFailed,
];

#[test]
fn every_state_round_trips_through_its_name() {
    for s in ALL {
        assert_eq!(State::from_str(&s.to_string()), Ok(s));
    }
}

#[test]
fn state_names_are_snake_case() {
    assert_eq!(State::WaitingForReplacement.to_string(), "waiting_for_replacement");
    assert_eq!(State::ReadOnly.to_string(), "readonly");
    assert_eq!(State::NotMounted.to_string(), "not_mounted");
    assert_eq!(State::WriteFailed.to_string(), "write_failed");
    assert_eq!(State::from_str("mount_failed"), Ok(State::MountFailed));
}

#[test]
fn unknown_state_name_is_rejected() {
    let e = State::from_str("Good").unwrap_err();
    assert_eq!(e.text, "Good");
    assert!(State::from_str("").is_err());
}

#[test]
fn state_codes_round_trip() {
    for s in ALL {
        assert_eq!(State::from_code(s.code()), Some(s));
    }
    assert_eq!(State::from_code(17), None);
    assert_eq!(ActionTag::from_code(ActionTag::Replace.code()), Some(ActionTag::Replace));
    assert_eq!(ActionTag::from_code(11), None);
}

#[test]
fn ext_check_exit_codes() {
    for fs in [FilesystemType::Ext2, FilesystemType::Ext3, FilesystemType::Ext4] {
        assert_eq!(check_filesystem(&fs, Some(0)), FsCheck::Clean);
        assert_eq!(check_filesystem(&fs, Some(4)), FsCheck::Corrupt);
        assert_eq!(check_filesystem(&fs, Some(8)), FsCheck::ProbeError);
        assert_eq!(check_filesystem(&fs, None), FsCheck::Interrupted);
    }
}

#[test]
fn xfs_check_exit_codes() {
    let fs = FilesystemType::Xfs;
    assert_eq!(check_filesystem(&fs, Some(0)), FsCheck::Clean);
    assert_eq!(check_filesystem(&fs, Some(1)), FsCheck::Corrupt);
    assert_eq!(check_filesystem(&fs, None), FsCheck::Interrupted);
}

#[test]
fn unknown_filesystem_is_a_probe_error() {
    assert_eq!(check_filesystem(&FilesystemType::Btrfs, Some(0)), FsCheck::ProbeError);
    assert_eq!(repair_filesystem(&FilesystemType::Zfs, Some(0)), RepairOutcome::Failed);
    assert_eq!(fsck_tool(FilesystemType::Unknown), None);
    assert_eq!(fsck_tool(FilesystemType::Ext4), Some(FsckTool::E2fsck));
}

#[test]
fn repair_exit_codes() {
    let ext = FilesystemType::Ext4;
    assert_eq!(repair_filesystem(&ext, Some(0)), RepairOutcome::Repaired);
    assert_eq!(repair_filesystem(&ext, Some(1)), RepairOutcome::Repaired);
    assert_eq!(repair_filesystem(&ext, Some(2)), RepairOutcome::Repaired);
    assert_eq!(repair_filesystem(&ext, Some(4)), RepairOutcome::Failed);
    assert_eq!(repair_filesystem(&ext, None), RepairOutcome::Interrupted);
    let xfs = FilesystemType::Xfs;
    assert_eq!(repair_filesystem(&xfs, Some(0)), RepairOutcome::Repaired);
    assert_eq!(repair_filesystem(&xfs, Some(2)), RepairOutcome::Failed);
}

#[test]
fn guarded_action_hands_back_its_target() {
    let p = ProbeResults {
        smart: SmartOutcome::Failing,
        eval: EvalOutcome::InternalError,
        mount: MountOutcome::MountFailed,
        remount_ok: false,
        fs_check: FsCheck::ProbeError,
        repair: RepairOutcome::Failed,
        reformat_ok: false,
        progress_lookup_ok: false,
    };
    assert_eq!(
        transition(ActionTag::Scan, State::Scanned, State::NotMounted, false, &p),
        State::NotMounted
    );
    assert_eq!(
        transition(ActionTag::Eval, State::WriteFailed, State::ReadOnly, false, &p),
        State::ReadOnly
    );
    assert_eq!(
        transition(ActionTag::MarkForReplacement, State::Corrupt, State::WaitingForReplacement, false, &p),
        State::Fail
    );
    assert_eq!(
        transition(ActionTag::Reformat, State::RepairFailed, State::Reformatted, false, &p),
        State::ReformatFailed
    );
    assert_eq!(
        transition(ActionTag::Reformat, State::RepairFailed, State::Reformatted, true, &p),
        State::Reformatted
    );
}

#[test]
fn tool_programs_and_flags() {
    assert_eq!(fsck_program(FsckTool::E2fsck), "e2fsck");
    assert_eq!(fsck_program(FsckTool::XfsRepair), "xfs_repair");
    assert_eq!(fsck_flag(FsckTool::XfsRepair, FsckMode::Check), Some("-n"));
    assert_eq!(fsck_flag(FsckTool::E2fsck, FsckMode::Check), Some("-n"));
    assert_eq!(fsck_flag(FsckTool::E2fsck, FsckMode::Repair), Some("-p"));
    assert_eq!(fsck_flag(FsckTool::XfsRepair, FsckMode::Repair), None);
}

#[test]
fn already_mounted_counts_as_mounted() {
    let mut p = ProbeResults {
        smart: SmartOutcome::Passed,
        eval: EvalOutcome::Writable,
        mount: MountOutcome::AlreadyMounted,
        remount_ok: true,
        fs_check: FsCheck::Clean,
        repair: RepairOutcome::Repaired,
        reformat_ok: true,
        progress_lookup_ok: true,
    };
    assert_eq!(
        transition(ActionTag::Mount, State::NotMounted, State::Mounted, false, &p),
        State::Mounted
    );
    p.mount = MountOutcome::MountFailed;
    assert_eq!(
        transition(ActionTag::Mount, State::NotMounted, State::Mounted, false, &p),
        State::MountFailed
    );
}
