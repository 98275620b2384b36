use vstd::prelude::*;

verus! {

/// Diagnostic state of one block device.
#[derive(Debug, Clone, Copy, PartialEq, Eq, Hash, Structural)]
pub enum State {
    /// The filesystem is corrupted; repairs are attempted.
    Corrupt,
    Fail,
    Good,
    Mounted,
    /// Mounting the device failed.
    MountFailed,
    /// The device should be mounted but is not.
    NotMounted,
    /// The device is mounted read only.
    ReadOnly,
    /// Laying down a fresh filesystem failed.
    ReformatFailed,
    Reformatted,
    /// Repairing the filesystem failed.
    RepairFailed,
    Repaired,
    Replaced,
    Scanned,
    /// Initial state of a device never seen before.
    Unscanned,
    /// The device could not be repaired and must be replaced.
    WaitingForReplacement,
    /// The device's media is worn out.
    WornOut,
    /// The writability probe failed.
    WriteFailed,
}

/// The stable lowercase name of a state.
pub open spec fn state_name(s: State) -> Seq<char> {
    match s {
        State::Corrupt => "corrupt"@,
        State::Fail => "fail"@,
        State::Good => "good"@,
        State::Mounted => "mounted"@,
        State::MountFailed => "mount_failed"@,
        State::NotMounted => "not_mounted"@,
        State::ReadOnly => "readonly"@,
        State::ReformatFailed => "reformat_failed"@,
        State::Reformatted => "reformatted"@,
        State::RepairFailed => "repair_failed"@,
        State::Repaired => "repaired"@,
        State::Replaced => "replaced"@,
        State::Scanned => "scanned"@,
        State::Unscanned => "unscanned"@,
        State::WaitingForReplacement => "waiting_for_replacement"@,
        State::WornOut => "worn_out"@,
        State::WriteFailed => "write_failed"@,
    }
}

/// The state whose name is `t`, if any.
pub open spec fn parse_state(t: Seq<char>) -> Option<State> {
    if t == "corrupt"@ {
        Some(State::Corrupt)
    } else if t == "fail"@ {
        Some(State::Fail)
    } else if t == "good"@ {
        Some(State::Good)
    } else if t == "mounted"@ {
        Some(State::Mounted)
    } else if t == "mount_failed"@ {
        Some(State::MountFailed)
    } else if t == "not_mounted"@ {
        Some(State::NotMounted)
    } else if t == "readonly"@ {
        Some(State::ReadOnly)
    } else if t == "reformat_failed"@ {
        Some(State::ReformatFailed)
    } else if t == "reformatted"@ {
        Some(State::Reformatted)
    } else if t == "repair_failed"@ {
        Some(State::RepairFailed)
    } else if t == "repaired"@ {
        Some(State::Repaired)
    } else if t == "replaced"@ {
        Some(State::Replaced)
    } else if t == "scanned"@ {
        Some(State::Scanned)
    } else if t == "unscanned"@ {
        Some(State::Unscanned)
    } else if t == "waiting_for_replacement"@ {
        Some(State::WaitingForReplacement)
    } else if t == "worn_out"@ {
        Some(State::WornOut)
    } else if t == "write_failed"@ {
        Some(State::WriteFailed)
    } else {
        None
    }
}

/// A compact code for each state, used as a node of the transition graph.
pub open spec fn state_code(s: State) -> u8 {
    match s {
        State::Corrupt => 0,
        State::Fail => 1,
        State::Good => 2,
        State::Mounted => 3,
        State::MountFailed => 4,
        State::NotMounted => 5,
        State::ReadOnly => 6,
        State::ReformatFailed => 7,
        State::Reformatted => 8,
        State::RepairFailed => 9,
        State::Repaired => 10,
        State::Replaced => 11,
        State::Scanned => 12,
        State::Unscanned => 13,
        State::WaitingForReplacement => 14,
        State::WornOut => 15,
        State::WriteFailed => 16,
    }
}

/// The state with code `c`, if any.
pub open spec fn state_of_code(c: u8) -> Option<State> {
    match c {
        0 => Some(State::Corrupt),
        1 => Some(State::Fail),
        2 => Some(State::Good),
        3 => Some(State::Mounted),
        4 => Some(State::MountFailed),
        5 => Some(State::NotMounted),
        6 => Some(State::ReadOnly),
        7 => Some(State::ReformatFailed),
        8 => Some(State::Reformatted),
        9 => Some(State::RepairFailed),
        10 => Some(State::Repaired),
        11 => Some(State::Replaced),
        12 => Some(State::Scanned),
        13 => Some(State::Unscanned),
        14 => Some(State::WaitingForReplacement),
        15 => Some(State::WornOut),
        16 => Some(State::WriteFailed),
        _ => None,
    }
}

/// Error of parsing a state name that no state has.
#[derive(Debug, Clone, PartialEq, Eq)]
pub struct UnknownState {
    pub text: String,
}

impl State {
    /// The stable lowercase name of this state.
    pub fn to_string(&self) -> (r: String)
        ensures
            r@ == state_name(*self),
    {
        match self {
            State::Corrupt => "corrupt".to_owned(),
            State::Fail => "fail".to_owned(),
            State::Good => "good".to_owned(),
            State::Mounted => "mounted".to_owned(),
            State::MountFailed => "mount_failed".to_owned(),
            State::NotMounted => "not_mounted".to_owned(),
            State::ReadOnly => "readonly".to_owned(),
            State::ReformatFailed => "reformat_failed".to_owned(),
            State::Reformatted => "reformatted".to_owned(),
            State::RepairFailed => "repair_failed".to_owned(),
            State::Repaired => "repaired".to_owned(),
            State::Replaced => "replaced".to_owned(),
            State::Scanned => "scanned".to_owned(),
            State::Unscanned => "unscanned".to_owned(),
            State::WaitingForReplacement => "waiting_for_replacement".to_owned(),
            State::WornOut => "worn_out".to_owned(),
            State::WriteFailed => "write_failed".to_owned(),
        }
    }

    /// Parses a state from its lowercase name.
    pub fn from_str(s: &str) -> (r: Result<State, UnknownState>)
        ensures
            r matches Ok(st) ==> parse_state(s@) == Some(st),
            r matches Err(e) ==> parse_state(s@) is None && e.text@ == s@,
    {
        let t = s.to_owned();
        if t == "corrupt".to_owned() {
            Ok(State::Corrupt)
        } else if t == "fail".to_owned() {
            Ok(State::Fail)
        } else if t == "good".to_owned() {
            Ok(State::Good)
        } else if t == "mounted".to_owned() {
            Ok(State::Mounted)
        } else if t == "mount_failed".to_owned() {
            Ok(State::MountFailed)
        } else if t == "not_mounted".to_owned() {
            Ok(State::NotMounted)
        } else if t == "readonly".to_owned() {
            Ok(State::ReadOnly)
        } else if t == "reformat_failed".to_owned() {
            Ok(State::ReformatFailed)
        } else if t == "reformatted".to_owned() {
            Ok(State::Reformatted)
        } else if t == "repair_failed".to_owned() {
            Ok(State::RepairFailed)
        } else if t == "repaired".to_owned() {
            Ok(State::Repaired)
        } else if t == "replaced".to_owned() {
            Ok(State::Replaced)
        } else if t == "scanned".to_owned() {
            Ok(State::Scanned)
        } else if t == "unscanned".to_owned() {
            Ok(State::Unscanned)
        } else if t == "waiting_for_replacement".to_owned() {
            Ok(State::WaitingForReplacement)
        } else if t == "worn_out".to_owned() {
            Ok(State::WornOut)
        } else if t == "write_failed".to_owned() {
            Ok(State::WriteFailed)
        } else {
            Err(UnknownState { text: t })
        }
    }

    /// The compact code of this state.
    pub fn code(&self) -> (r: u8)
        ensures
            r == state_code(*self),
    {
        match self {
            State::Corrupt => 0,
            State::Fail => 1,
            State::Good => 2,
            State::Mounted => 3,
            State::MountFailed => 4,
            State::NotMounted => 5,
            State::ReadOnly => 6,
            State::ReformatFailed => 7,
            State::Reformatted => 8,
            State::RepairFailed => 9,
            State::Repaired => 10,
            State::Replaced => 11,
            State::Scanned => 12,
            State::Unscanned => 13,
            State::WaitingForReplacement => 14,
            State::WornOut => 15,
            State::WriteFailed => 16,
        }
    }

    /// The state with code `c`, if any.
    pub fn from_code(c: u8) -> (r: Option<State>)
        ensures
            r == state_of_code(c),
    {
        match c {
            0 => Some(State::Corrupt),
            1 => Some(State::Fail),
            2 => Some(State::Good),
            3 => Some(State::Mounted),
            4 => Some(State::MountFailed),
            5 => Some(State::NotMounted),
            6 => Some(State::ReadOnly),
            7 => Some(State::ReformatFailed),
            8 => Some(State::Reformatted),
            9 => Some(State::RepairFailed),
            10 => Some(State::Repaired),
            11 => Some(State::Replaced),
            12 => Some(State::Scanned),
            13 => Some(State::Unscanned),
            14 => Some(State::WaitingForReplacement),
            15 => Some(State::WornOut),
            16 => Some(State::WriteFailed),
            _ => None,
        }
    }
}

/// Every state's code leads back to it.
pub proof fn lemma_code_round_trip(s: State)
    ensures
        state_of_code(state_code(s)) == Some(s),
{
}

/// Parsing the name of a state gives that state back.
pub proof fn lemma_name_round_trip(s: State)
    ensures
        parse_state(state_name(s)) == Some(s),
{
    match s {
        State::Corrupt => {
            reveal_strlit("corrupt");
        },
        State::Fail => {
            reveal_strlit("fail");
            reveal_strlit("corrupt");
            assert("fail"@.len() != "corrupt"@.len());
        },
        State::Good => {
            reveal_strlit("good");
            reveal_strlit("corrupt");
            assert("good"@.len() != "corrupt"@.len());
            reveal_strlit("fail");
            assert("good"@[0] != "fail"@[0]);
        },
        State::Mounted => {
            reveal_strlit("mounted");
            reveal_strlit("corrupt");
            assert("mounted"@[0] != "corrupt"@[0]);
            reveal_strlit("fail");
            assert("mounted"@.len() != "fail"@.len());
            reveal_strlit("good");
            assert("mounted"@.len() != "good"@.len());
        },
        State::MountFailed => {
            reveal_strlit("mount_failed");
            reveal_strlit("corrupt");
            assert("mount_failed"@.len() != "corrupt"@.len());
            reveal_strlit("fail");
            assert("mount_failed"@.len() != "fail"@.len());
            reveal_strlit("good");
            assert("mount_failed"@.len() != "good"@.len());
            reveal_strlit("mounted");
            assert("mount_failed"@.len() != "mounted"@.len());
        },
        State::NotMounted => {
            reveal_strlit("not_mounted");
            reveal_strlit("corrupt");
            assert("not_mounted"@.len() != "corrupt"@.len());
            reveal_strlit("fail");
            assert("not_mounted"@.len() != "fail"@.len());
            reveal_strlit("good");
            assert("not_mounted"@.len() != "good"@.len());
            reveal_strlit("mounted");
            assert("not_mounted"@.len() != "mounted"@.len());
            reveal_strlit("mount_failed");
            assert("not_mounted"@.len() != "mount_failed"@.len());
        },
        State::ReadOnly => {
            reveal_strlit("readonly");
            reveal_strlit("corrupt");
            assert("readonly"@.len() != "corrupt"@.len());
            reveal_strlit("fail");
            assert("readonly"@.len() != "fail"@.len());
            reveal_strlit("good");
            assert("readonly"@.len() != "good"@.len());
            reveal_strlit("mounted");
            assert("readonly"@.len() != "mounted"@.len());
            reveal_strlit("mount_failed");
            assert("readonly"@.len() != "mount_failed"@.len());
            reveal_strlit("not_mounted");
            assert("readonly"@.len() != "not_mounted"@.len());
        },
        State::ReformatFailed => {
            reveal_strlit("reformat_failed");
            reveal_strlit("corrupt");
            assert("reformat_failed"@.len() != "corrupt"@.len());
            reveal_strlit("fail");
            assert("reformat_failed"@.len() != "fail"@.len());
            reveal_strlit("good");
            assert("reformat_failed"@.len() != "good"@.len());
            reveal_strlit("mounted");
            assert("reformat_failed"@.len() != "mounted"@.len());
            reveal_strlit("mount_failed");
            assert("reformat_failed"@.len() != "mount_failed"@.len());
            reveal_strlit("not_mounted");
            assert("reformat_failed"@.len() != "not_mounted"@.len());
            reveal_strlit("readonly");
            assert("reformat_failed"@.len() != "readonly"@.len());
        },
        State::Reformatted => {
            reveal_strlit("reformatted");
            reveal_strlit("corrupt");
            assert("reformatted"@.len() != "corrupt"@.len());
            reveal_strlit("fail");
            assert("reformatted"@.len() != "fail"@.len());
            reveal_strlit("good");
            assert("reformatted"@.len() != "good"@.len());
            reveal_strlit("mounted");
            assert("reformatted"@.len() != "mounted"@.len());
            reveal_strlit("mount_failed");
            assert("reformatted"@.len() != "mount_failed"@.len());
            reveal_strlit("not_mounted");
            assert("reformatted"@[0] != "not_mounted"@[0]);
            reveal_strlit("readonly");
            assert("reformatted"@.len() != "readonly"@.len());
            reveal_strlit("reformat_failed");
            assert("reformatted"@.len() != "reformat_failed"@.len());
        },
        State::RepairFailed => {
            reveal_strlit("repair_failed");
            reveal_strlit("corrupt");
            assert("repair_failed"@.len() != "corrupt"@.len());
            reveal_strlit("fail");
            assert("repair_failed"@.len() != "fail"@.len());
            reveal_strlit("good");
            assert("repair_failed"@.len() != "good"@.len());
            reveal_strlit("mounted");
            assert("repair_failed"@.len() != "mounted"@.len());
            reveal_strlit("mount_failed");
            assert("repair_failed"@.len() != "mount_failed"@.len());
            reveal_strlit("not_mounted");
            assert("repair_failed"@.len() != "not_mounted"@.len());
            reveal_strlit("readonly");
            assert("repair_failed"@.len() != "readonly"@.len());
            reveal_strlit("reformat_failed");
            assert("repair_failed"@.len() != "reformat_failed"@.len());
            reveal_strlit("reformatted");
            assert("repair_failed"@.len() != "reformatted"@.len());
        },
        State::Repaired => {
            reveal_strlit("repaired");
            reveal_strlit("corrupt");
            assert("repaired"@.len() != "corrupt"@.len());
            reveal_strlit("fail");
            assert("repaired"@.len() != "fail"@.len());
            reveal_strlit("good");
            assert("repaired"@.len() != "good"@.len());
            reveal_strlit("mounted");
            assert("repaired"@.len() != "mounted"@.len());
            reveal_strlit("mount_failed");
            assert("repaired"@.len() != "mount_failed"@.len());
            reveal_strlit("not_mounted");
            assert("repaired"@.len() != "not_mounted"@.len());
            reveal_strlit("readonly");
            assert("repaired"@[2] != "readonly"@[2]);
            reveal_strlit("reformat_failed");
            assert("repaired"@.len() != "reformat_failed"@.len());
            reveal_strlit("reformatted");
            assert("repaired"@.len() != "reformatted"@.len());
            reveal_strlit("repair_failed");
            assert("repaired"@.len() != "repair_failed"@.len());
        },
        State::Replaced => {
            reveal_strlit("replaced");
            reveal_strlit("corrupt");
            assert("replaced"@.len() != "corrupt"@.len());
            reveal_strlit("fail");
            assert("replaced"@.len() != "fail"@.len());
            reveal_strlit("good");
            assert("replaced"@.len() != "good"@.len());
            reveal_strlit("mounted");
            assert("replaced"@.len() != "mounted"@.len());
            reveal_strlit("mount_failed");
            assert("replaced"@.len() != "mount_failed"@.len());
            reveal_strlit("not_mounted");
            assert("replaced"@.len() != "not_mounted"@.len());
            reveal_strlit("readonly");
            assert("replaced"@[2] != "readonly"@[2]);
            reveal_strlit("reformat_failed");
            assert("replaced"@.len() != "reformat_failed"@.len());
            reveal_strlit("reformatted");
            assert("replaced"@.len() != "reformatted"@.len());
            reveal_strlit("repair_failed");
            assert("replaced"@.len() != "repair_failed"@.len());
            reveal_strlit("repaired");
            assert("replaced"@[3] != "repaired"@[3]);
        },
        State::Scanned => {
            reveal_strlit("scanned");
            reveal_strlit("corrupt");
            assert("scanned"@[0] != "corrupt"@[0]);
            reveal_strlit("fail");
            assert("scanned"@.len() != "fail"@.len());
            reveal_strlit("good");
            assert("scanned"@.len() != "good"@.len());
            reveal_strlit("mounted");
            assert("scanned"@[0] != "mounted"@[0]);
            reveal_strlit("mount_failed");
            assert("scanned"@.len() != "mount_failed"@.len());
            reveal_strlit("not_mounted");
            assert("scanned"@.len() != "not_mounted"@.len());
            reveal_strlit("readonly");
            assert("scanned"@.len() != "readonly"@.len());
            reveal_strlit("reformat_failed");
            assert("scanned"@.len() != "reformat_failed"@.len());
            reveal_strlit("reformatted");
            assert("scanned"@.len() != "reformatted"@.len());
            reveal_strlit("repair_failed");
            assert("scanned"@.len() != "repair_failed"@.len());
            reveal_strlit("repaired");
            assert("scanned"@.len() != "repaired"@.len());
            reveal_strlit("replaced");
            assert("scanned"@.len() != "replaced"@.len());
        },
        State::Unscanned => {
            reveal_strlit("unscanned");
            reveal_strlit("corrupt");
            assert("unscanned"@.len() != "corrupt"@.len());
            reveal_strlit("fail");
            assert("unscanned"@.len() != "fail"@.len());
            reveal_strlit("good");
            assert("unscanned"@.len() != "good"@.len());
            reveal_strlit("mounted");
            assert("unscanned"@.len() != "mounted"@.len());
            reveal_strlit("mount_failed");
            assert("unscanned"@.len() != "mount_failed"@.len());
            reveal_strlit("not_mounted");
            assert("unscanned"@.len() != "not_mounted"@.len());
            reveal_strlit("readonly");
            assert("unscanned"@.len() != "readonly"@.len());
            reveal_strlit("reformat_failed");
            assert("unscanned"@.len() != "reformat_failed"@.len());
            reveal_strlit("reformatted");
            assert("unscanned"@.len() != "reformatted"@.len());
            reveal_strlit("repair_failed");
            assert("unscanned"@.len() != "repair_failed"@.len());
            reveal_strlit("repaired");
            assert("unscanned"@.len() != "repaired"@.len());
            reveal_strlit("replaced");
            assert("unscanned"@.len() != "replaced"@.len());
            reveal_strlit("scanned");
            assert("unscanned"@.len() != "scanned"@.len());
        },
        State::WaitingForReplacement => {
            reveal_strlit("waiting_for_replacement");
            reveal_strlit("corrupt");
            assert("waiting_for_replacement"@.len() != "corrupt"@.len());
            reveal_strlit("fail");
            assert("waiting_for_replacement"@.len() != "fail"@.len());
            reveal_strlit("good");
            assert("waiting_for_replacement"@.len() != "good"@.len());
            reveal_strlit("mounted");
            assert("waiting_for_replacement"@.len() != "mounted"@.len());
            reveal_strlit("mount_failed");
            assert("waiting_for_replacement"@.len() != "mount_failed"@.len());
            reveal_strlit("not_mounted");
            assert("waiting_for_replacement"@.len() != "not_mounted"@.len());
            reveal_strlit("readonly");
            assert("waiting_for_replacement"@.len() != "readonly"@.len());
            reveal_strlit("reformat_failed");
            assert("waiting_for_replacement"@.len() != "reformat_failed"@.len());
            reveal_strlit("reformatted");
            assert("waiting_for_replacement"@.len() != "reformatted"@.len());
            reveal_strlit("repair_failed");
            assert("waiting_for_replacement"@.len() != "repair_failed"@.len());
            reveal_strlit("repaired");
            assert("waiting_for_replacement"@.len() != "repaired"@.len());
            reveal_strlit("replaced");
            assert("waiting_for_replacement"@.len() != "replaced"@.len());
            reveal_strlit("scanned");
            assert("waiting_for_replacement"@.len() != "scanned"@.len());
            reveal_strlit("unscanned");
            assert("waiting_for_replacement"@.len() != "unscanned"@.len());
        },
        State::WornOut => {
            reveal_strlit("worn_out");
            reveal_strlit("corrupt");
            assert("worn_out"@.len() != "corrupt"@.len());
            reveal_strlit("fail");
            assert("worn_out"@.len() != "fail"@.len());
            reveal_strlit("good");
            assert("worn_out"@.len() != "good"@.len());
            reveal_strlit("mounted");
            assert("worn_out"@.len() != "mounted"@.len());
            reveal_strlit("mount_failed");
            assert("worn_out"@.len() != "mount_failed"@.len());
            reveal_strlit("not_mounted");
            assert("worn_out"@.len() != "not_mounted"@.len());
            reveal_strlit("readonly");
            assert("worn_out"@[0] != "readonly"@[0]);
            reveal_strlit("reformat_failed");
            assert("worn_out"@.len() != "reformat_failed"@.len());
            reveal_strlit("reformatted");
            assert("worn_out"@.len() != "reformatted"@.len());
            reveal_strlit("repair_failed");
            assert("worn_out"@.len() != "repair_failed"@.len());
            reveal_strlit("repaired");
            assert("worn_out"@[0] != "repaired"@[0]);
            reveal_strlit("replaced");
            assert("worn_out"@[0] != "replaced"@[0]);
            reveal_strlit("scanned");
            assert("worn_out"@.len() != "scanned"@.len());
            reveal_strlit("unscanned");
            assert("worn_out"@.len() != "unscanned"@.len());
            reveal_strlit("waiting_for_replacement");
            assert("worn_out"@.len() != "waiting_for_replacement"@.len());
        },
        State::WriteFailed => {
            reveal_strlit("write_failed");
            reveal_strlit("corrupt");
            assert("write_failed"@.len() != "corrupt"@.len());
            reveal_strlit("fail");
            assert("write_failed"@.len() != "fail"@.len());
            reveal_strlit("good");
            assert("write_failed"@.len() != "good"@.len());
            reveal_strlit("mounted");
            assert("write_failed"@.len() != "mounted"@.len());
            reveal_strlit("mount_failed");
            assert("write_failed"@[0] != "mount_failed"@[0]);
            reveal_strlit("not_mounted");
            assert("write_failed"@.len() != "not_mounted"@.len());
            reveal_strlit("readonly");
            assert("write_failed"@.len() != "readonly"@.len());
            reveal_strlit("reformat_failed");
            assert("write_failed"@.len() != "reformat_failed"@.len());
            reveal_strlit("reformatted");
            assert("write_failed"@.len() != "reformatted"@.len());
            reveal_strlit("repair_failed");
            assert("write_failed"@.len() != "repair_failed"@.len());
            reveal_strlit("repaired");
            assert("write_failed"@.len() != "repaired"@.len());
            reveal_strlit("replaced");
            assert("write_failed"@.len() != "replaced"@.len());
            reveal_strlit("scanned");
            assert("write_failed"@.len() != "scanned"@.len());
            reveal_strlit("unscanned");
            assert("write_failed"@.len() != "unscanned"@.len());
            reveal_strlit("waiting_for_replacement");
            assert("write_failed"@.len() != "waiting_for_replacement"@.len());
            reveal_strlit("worn_out");
            assert("write_failed"@.len() != "worn_out"@.len());
        },
    }
}

} // verus!
