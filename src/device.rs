//! What the engine knows of one block device.
use vstd::prelude::*;

verus! {

/// The kind of medium behind a block device.
#[derive(Debug, Clone, Copy, PartialEq, Eq, Hash, Structural)]
pub enum MediaType {
    SolidState,
    Rotational,
    Loopback,
    LVM,
    MdRaid,
    NVME,
    Ram,
    Virtual,
    Unknown,
}

/// The filesystem found on a block device.
#[derive(Debug, Clone, Copy, PartialEq, Eq, Hash, Structural)]
pub enum FilesystemType {
    Btrfs,
    Ext2,
    Ext3,
    Ext4,
    Xfs,
    Zfs,
    Unknown,
}

/// Identity of one block device, as the enumerator found it.
#[derive(Debug, Clone, PartialEq, Eq)]
pub struct Device {
    /// Filesystem UUID, when the superblock has one.
    pub id: Option<String>,
    /// Kernel name, such as `sdb`.
    pub name: String,
    pub media_type: MediaType,
    /// Raw capacity in bytes.
    pub capacity: u64,
    pub fs_type: FilesystemType,
    pub serial_number: Option<String>,
}

/// Media that the enumerator never hands to an engine.
pub open spec fn excluded_media(m: MediaType) -> bool {
    m == MediaType::Loopback || m == MediaType::LVM || m == MediaType::Ram
}

/// Whether a device of this medium is left out of checking.
pub fn is_excluded_media(m: MediaType) -> (r: bool)
    ensures
        r == excluded_media(m),
{
    match m {
        MediaType::Loopback | MediaType::LVM | MediaType::Ram => true,
        _ => false,
    }
}

} // verus!
