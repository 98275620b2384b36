//! The actions wired to the edges of the transition graph, and what each
//! one decides from the outcome of the probe it runs.
use crate::device::FilesystemType;
use crate::state::State;
use vstd::prelude::*;

verus! {

/// Names one of the action routines.
#[derive(Debug, Clone, Copy, PartialEq, Eq, Hash, Structural)]
pub enum ActionTag {
    Scan,
    Eval,
    Mount,
    Remount,
    CheckForCorruption,
    AttemptRepair,
    Reformat,
    CheckWearLeveling,
    MarkForReplacement,
    Replace,
    NoOp,
}

/// The compact code of an action, used as an edge weight.
pub open spec fn action_code(a: ActionTag) -> u8 {
    match a {
        ActionTag::Scan => 0,
        ActionTag::Eval => 1,
        ActionTag::Mount => 2,
        ActionTag::Remount => 3,
        ActionTag::CheckForCorruption => 4,
        ActionTag::AttemptRepair => 5,
        ActionTag::Reformat => 6,
        ActionTag::CheckWearLeveling => 7,
        ActionTag::MarkForReplacement => 8,
        ActionTag::Replace => 9,
        ActionTag::NoOp => 10,
    }
}

/// The action with code `c`, if any.
pub open spec fn action_of_code(c: u8) -> Option<ActionTag> {
    match c {
        0 => Some(ActionTag::Scan),
        1 => Some(ActionTag::Eval),
        2 => Some(ActionTag::Mount),
        3 => Some(ActionTag::Remount),
        4 => Some(ActionTag::CheckForCorruption),
        5 => Some(ActionTag::AttemptRepair),
        6 => Some(ActionTag::Reformat),
        7 => Some(ActionTag::CheckWearLeveling),
        8 => Some(ActionTag::MarkForReplacement),
        9 => Some(ActionTag::Replace),
        10 => Some(ActionTag::NoOp),
        _ => None,
    }
}

impl ActionTag {
    /// The compact code of this action.
    pub fn code(&self) -> (r: u8)
        ensures
            r == action_code(*self),
    {
        match self {
            ActionTag::Scan => 0,
            ActionTag::Eval => 1,
            ActionTag::Mount => 2,
            ActionTag::Remount => 3,
            ActionTag::CheckForCorruption => 4,
            ActionTag::AttemptRepair => 5,
            ActionTag::Reformat => 6,
            ActionTag::CheckWearLeveling => 7,
            ActionTag::MarkForReplacement => 8,
            ActionTag::Replace => 9,
            ActionTag::NoOp => 10,
        }
    }

    /// The action with code `c`, if any.
    pub fn from_code(c: u8) -> (r: Option<ActionTag>)
        ensures
            r == action_of_code(c),
    {
        match c {
            0 => Some(ActionTag::Scan),
            1 => Some(ActionTag::Eval),
            2 => Some(ActionTag::Mount),
            3 => Some(ActionTag::Remount),
            4 => Some(ActionTag::CheckForCorruption),
            5 => Some(ActionTag::AttemptRepair),
            6 => Some(ActionTag::Reformat),
            7 => Some(ActionTag::CheckWearLeveling),
            8 => Some(ActionTag::MarkForReplacement),
            9 => Some(ActionTag::Replace),
            10 => Some(ActionTag::NoOp),
            _ => None,
        }
    }
}

/// Result of the SMART probe.
#[derive(Debug, Clone, Copy, PartialEq, Eq, Structural)]
pub enum SmartOutcome {
    Passed,
    Failing,
    /// The device could not be opened, SMART is unsupported, or the result
    /// could not be recorded.
    Unavailable,
}

/// Result of evaluating a scanned device: mount it if needed, record the
/// mount point, probe writability.
#[derive(Debug, Clone, Copy, PartialEq, Eq, Structural)]
pub enum EvalOutcome {
    Writable,
    WriteFailed,
    MountFailed,
    NotMounted,
    /// A temporary directory could not be made or the mount point could not
    /// be recorded.
    InternalError,
}

/// Result of mounting a device in a fresh temporary directory.
#[derive(Debug, Clone, Copy, PartialEq, Eq, Structural)]
pub enum MountOutcome {
    Mounted,
    /// The device was mounted already; nothing was done.
    AlreadyMounted,
    MountFailed,
    /// The temporary directory could not be made.
    InternalError,
}

/// Result of a filesystem check.
#[derive(Debug, Clone, Copy, PartialEq, Eq, Structural)]
pub enum FsCheck {
    Clean,
    Corrupt,
    ProbeError,
    Interrupted,
}

/// Result of a filesystem repair.
#[derive(Debug, Clone, Copy, PartialEq, Eq, Structural)]
pub enum RepairOutcome {
    Repaired,
    Failed,
    Interrupted,
}

/// The probe an action runs before it decides.
#[derive(Debug, Clone, Copy, PartialEq, Eq, Structural)]
pub enum Probe {
    Smart,
    Eval,
    Mount,
    Remount,
    FsCheck,
    Repair,
    Reformat,
    ProgressLookup,
}

/// The latest outcome of each probe.
#[derive(Debug, Clone, Copy, PartialEq, Eq, Structural)]
pub struct ProbeResults {
    pub smart: SmartOutcome,
    pub eval: EvalOutcome,
    pub mount: MountOutcome,
    pub remount_ok: bool,
    pub fs_check: FsCheck,
    pub repair: RepairOutcome,
    pub reformat_ok: bool,
    /// Whether the store answered the in-progress lookup.
    pub progress_lookup_ok: bool,
}

/// The states from which an action does its work; from any other it hands
/// back its declared target unchanged.
pub open spec fn accepts(a: ActionTag, from: State) -> bool {
    match a {
        ActionTag::Scan => from == State::Unscanned,
        ActionTag::Eval => from == State::Scanned,
        ActionTag::CheckForCorruption => from == State::Scanned || from == State::WriteFailed
            || from == State::MountFailed,
        ActionTag::AttemptRepair => from == State::Corrupt,
        ActionTag::Reformat => from == State::RepairFailed,
        ActionTag::CheckWearLeveling => from == State::Scanned,
        ActionTag::MarkForReplacement => from == State::WornOut || from == State::Corrupt,
        ActionTag::Replace => from == State::WaitingForReplacement,
        ActionTag::Mount | ActionTag::Remount => true,
        ActionTag::NoOp => false,
    }
}

/// The probe that action `a` runs on the edge leaving `from`, if any.
pub open spec fn probe_of(a: ActionTag, from: State, simulate: bool) -> Option<Probe> {
    if simulate || !accepts(a, from) {
        None
    } else {
        match a {
            ActionTag::Scan => Some(Probe::Smart),
            ActionTag::Eval => Some(Probe::Eval),
            ActionTag::Mount => Some(Probe::Mount),
            ActionTag::Remount => Some(Probe::Remount),
            ActionTag::CheckForCorruption => Some(Probe::FsCheck),
            ActionTag::AttemptRepair => Some(Probe::Repair),
            ActionTag::Reformat => Some(Probe::Reformat),
            ActionTag::MarkForReplacement => Some(Probe::ProgressLookup),
            _ => None,
        }
    }
}

/// The state that action `a`, on the edge `from -> to`, moves the device to.
pub open spec fn action_result(
    a: ActionTag,
    from: State,
    to: State,
    simulate: bool,
    p: ProbeResults,
) -> State {
    if simulate || !accepts(a, from) {
        to
    } else {
        match a {
            ActionTag::Scan => match p.smart {
                SmartOutcome::Passed => to,
                _ => State::Fail,
            },
            ActionTag::Eval => match p.eval {
                EvalOutcome::Writable => to,
                EvalOutcome::WriteFailed => State::WriteFailed,
                EvalOutcome::MountFailed => State::MountFailed,
                EvalOutcome::NotMounted => State::NotMounted,
                EvalOutcome::InternalError => State::Fail,
            },
            ActionTag::Mount => match p.mount {
                MountOutcome::Mounted | MountOutcome::AlreadyMounted => to,
                MountOutcome::MountFailed => State::MountFailed,
                MountOutcome::InternalError => State::Fail,
            },
            ActionTag::Remount => if p.remount_ok {
                to
            } else {
                State::MountFailed
            },
            ActionTag::CheckForCorruption => match p.fs_check {
                FsCheck::Clean => to,
                FsCheck::Corrupt => State::Corrupt,
                FsCheck::ProbeError => State::Fail,
                FsCheck::Interrupted => from,
            },
            ActionTag::AttemptRepair => match p.repair {
                RepairOutcome::Repaired => to,
                RepairOutcome::Failed => State::RepairFailed,
                RepairOutcome::Interrupted => from,
            },
            ActionTag::Reformat => if p.reformat_ok {
                to
            } else {
                State::ReformatFailed
            },
            ActionTag::MarkForReplacement => if p.progress_lookup_ok {
                to
            } else {
                State::Fail
            },
            _ => to,
        }
    }
}

/// Whether action `a` does its work from state `from`.
pub fn action_accepts(a: ActionTag, from: State) -> (r: bool)
    ensures
        r == accepts(a, from),
{
    match a {
        ActionTag::Scan => from == State::Unscanned,
        ActionTag::Eval => from == State::Scanned,
        ActionTag::CheckForCorruption => from == State::Scanned || from == State::WriteFailed
            || from == State::MountFailed,
        ActionTag::AttemptRepair => from == State::Corrupt,
        ActionTag::Reformat => from == State::RepairFailed,
        ActionTag::CheckWearLeveling => from == State::Scanned,
        ActionTag::MarkForReplacement => from == State::WornOut || from == State::Corrupt,
        ActionTag::Replace => from == State::WaitingForReplacement,
        ActionTag::Mount | ActionTag::Remount => true,
        ActionTag::NoOp => false,
    }
}

/// The probe that action `a` runs on an edge leaving `from`; `None` where it
/// decides without one.
pub fn probe_for(a: ActionTag, from: State, simulate: bool) -> (r: Option<Probe>)
    ensures
        r == probe_of(a, from, simulate),
{
    if simulate || !action_accepts(a, from) {
        None
    } else {
        match a {
            ActionTag::Scan => Some(Probe::Smart),
            ActionTag::Eval => Some(Probe::Eval),
            ActionTag::Mount => Some(Probe::Mount),
            ActionTag::Remount => Some(Probe::Remount),
            ActionTag::CheckForCorruption => Some(Probe::FsCheck),
            ActionTag::AttemptRepair => Some(Probe::Repair),
            ActionTag::Reformat => Some(Probe::Reformat),
            ActionTag::MarkForReplacement => Some(Probe::ProgressLookup),
            _ => None,
        }
    }
}

/// Runs the decision of action `a` on the edge `from -> to`, given the
/// outcome of its probe.
pub fn transition(a: ActionTag, from: State, to: State, simulate: bool, p: &ProbeResults) -> (r:
    State)
    ensures
        r == action_result(a, from, to, simulate, *p),
{
    if simulate || !action_accepts(a, from) {
        return to;
    }
    match a {
        ActionTag::Scan => match p.smart {
            SmartOutcome::Passed => to,
            _ => State::Fail,
        },
        ActionTag::Eval => match p.eval {
            EvalOutcome::Writable => to,
            EvalOutcome::WriteFailed => State::WriteFailed,
            EvalOutcome::MountFailed => State::MountFailed,
            EvalOutcome::NotMounted => State::NotMounted,
            EvalOutcome::InternalError => State::Fail,
        },
        ActionTag::Mount => match p.mount {
            MountOutcome::Mounted | MountOutcome::AlreadyMounted => to,
            MountOutcome::MountFailed => State::MountFailed,
            MountOutcome::InternalError => State::Fail,
        },
        ActionTag::Remount => if p.remount_ok {
            to
        } else {
            State::MountFailed
        },
        ActionTag::CheckForCorruption => match p.fs_check {
            FsCheck::Clean => to,
            FsCheck::Corrupt => State::Corrupt,
            FsCheck::ProbeError => State::Fail,
            FsCheck::Interrupted => from,
        },
        ActionTag::AttemptRepair => match p.repair {
            RepairOutcome::Repaired => to,
            RepairOutcome::Failed => State::RepairFailed,
            RepairOutcome::Interrupted => from,
        },
        ActionTag::Reformat => if p.reformat_ok {
            to
        } else {
            State::ReformatFailed
        },
        ActionTag::MarkForReplacement => if p.progress_lookup_ok {
            to
        } else {
            State::Fail
        },
        _ => to,
    }
}

/// The external tool that checks and repairs a filesystem kind.
#[derive(Debug, Clone, Copy, PartialEq, Eq, Structural)]
pub enum FsckTool {
    /// `e2fsck`, for ext2, ext3 and ext4.
    E2fsck,
    /// `xfs_repair`, for xfs.
    XfsRepair,
}

/// Whether a tool is run to check only or to repair.
#[derive(Debug, Clone, Copy, PartialEq, Eq, Structural)]
pub enum FsckMode {
    Check,
    Repair,
}

/// The program that runs a tool.
pub fn fsck_program(tool: FsckTool) -> (r: &'static str)
    ensures
        tool == FsckTool::E2fsck ==> r@ == "e2fsck"@,
        tool == FsckTool::XfsRepair ==> r@ == "xfs_repair"@,
{
    match tool {
        FsckTool::E2fsck => "e2fsck",
        FsckTool::XfsRepair => "xfs_repair",
    }
}

/// The flag given before the device path: `-n` to check without changing
/// anything, `-p` for a non-interactive `e2fsck` repair, none for an
/// `xfs_repair` repair.
pub fn fsck_flag(tool: FsckTool, mode: FsckMode) -> (r: Option<&'static str>)
    ensures
        mode == FsckMode::Check ==> (r matches Some(f) && f@ == "-n"@),
        mode == FsckMode::Repair && tool == FsckTool::E2fsck ==> (r matches Some(f) && f@ == "-p"@),
        mode == FsckMode::Repair && tool == FsckTool::XfsRepair ==> r is None,
{
    match (tool, mode) {
        (_, FsckMode::Check) => Some("-n"),
        (FsckTool::E2fsck, FsckMode::Repair) => Some("-p"),
        (FsckTool::XfsRepair, FsckMode::Repair) => None,
    }
}

/// The tool for a filesystem kind; none for kinds this engine cannot check.
pub open spec fn tool_of(fs: FilesystemType) -> Option<FsckTool> {
    match fs {
        FilesystemType::Ext2 | FilesystemType::Ext3 | FilesystemType::Ext4 => Some(
            FsckTool::E2fsck,
        ),
        FilesystemType::Xfs => Some(FsckTool::XfsRepair),
        _ => None,
    }
}

/// The tool that checks and repairs filesystems of kind `fs`.
pub fn fsck_tool(fs: FilesystemType) -> (r: Option<FsckTool>)
    ensures
        r == tool_of(fs),
{
    match fs {
        FilesystemType::Ext2 | FilesystemType::Ext3 | FilesystemType::Ext4 => Some(
            FsckTool::E2fsck,
        ),
        FilesystemType::Xfs => Some(FsckTool::XfsRepair),
        _ => None,
    }
}

/// What a read-only check (`e2fsck -n`, `xfs_repair -n`) reports, given its
/// exit code, `None` when a signal ended it.
pub open spec fn check_result(fs: FilesystemType, exit_code: Option<i32>) -> FsCheck {
    match tool_of(fs) {
        None => FsCheck::ProbeError,
        Some(FsckTool::E2fsck) => match exit_code {
            None => FsCheck::Interrupted,
            Some(c) => if c == 0 {
                FsCheck::Clean
            } else if c == 4 {
                FsCheck::Corrupt
            } else {
                FsCheck::ProbeError
            },
        },
        Some(FsckTool::XfsRepair) => match exit_code {
            None => FsCheck::Interrupted,
            Some(c) => if c == 1 {
                FsCheck::Corrupt
            } else {
                FsCheck::Clean
            },
        },
    }
}

/// What a repair (`e2fsck -p`, `xfs_repair`) achieved, given its exit code,
/// `None` when a signal ended it.
pub open spec fn repair_result(fs: FilesystemType, exit_code: Option<i32>) -> RepairOutcome {
    match tool_of(fs) {
        None => RepairOutcome::Failed,
        Some(FsckTool::E2fsck) => match exit_code {
            None => RepairOutcome::Interrupted,
            Some(c) => if 0 <= c <= 2 {
                RepairOutcome::Repaired
            } else {
                RepairOutcome::Failed
            },
        },
        Some(FsckTool::XfsRepair) => match exit_code {
            None => RepairOutcome::Interrupted,
            Some(c) => if c == 0 {
                RepairOutcome::Repaired
            } else {
                RepairOutcome::Failed
            },
        },
    }
}

/// Interprets the exit of a filesystem check on a filesystem of kind
/// `filesystem_type`.
pub fn check_filesystem(filesystem_type: &FilesystemType, exit_code: Option<i32>) -> (r: FsCheck)
    ensures
        r == check_result(*filesystem_type, exit_code),
{
    match fsck_tool(*filesystem_type) {
        None => FsCheck::ProbeError,
        Some(FsckTool::E2fsck) => match exit_code {
            None => FsCheck::Interrupted,
            Some(0) => FsCheck::Clean,
            Some(4) => FsCheck::Corrupt,
            Some(_) => FsCheck::ProbeError,
        },
        Some(FsckTool::XfsRepair) => match exit_code {
            None => FsCheck::Interrupted,
            Some(1) => FsCheck::Corrupt,
            Some(_) => FsCheck::Clean,
        },
    }
}

/// Interprets the exit of a filesystem repair on a filesystem of kind
/// `filesystem_type`.
pub fn repair_filesystem(filesystem_type: &FilesystemType, exit_code: Option<i32>) -> (r:
    RepairOutcome)
    ensures
        r == repair_result(*filesystem_type, exit_code),
{
    match fsck_tool(*filesystem_type) {
        None => RepairOutcome::Failed,
        Some(FsckTool::E2fsck) => match exit_code {
            None => RepairOutcome::Interrupted,
            Some(c) => if 0 <= c && c <= 2 {
                RepairOutcome::Repaired
            } else {
                RepairOutcome::Failed
            },
        },
        Some(FsckTool::XfsRepair) => match exit_code {
            None => RepairOutcome::Interrupted,
            Some(0) => RepairOutcome::Repaired,
            Some(_) => RepairOutcome::Failed,
        },
    }
}

} // verus!
