use disk_remedy::device::{Device, FilesystemType, MediaType};
use disk_remedy::enumerate::devices_to_check;
use disk_remedy::orchestrate::{
    add_repaired_disks, check_for_failed_disks, failed_disk_workflow, DiskReport, RepairTicket,
    TicketStep,
};
use disk_remedy::state::State;

fn report(path: &str, state: State, in_progress: bool) -> DiskReport {
    DiskReport { path: path.to_string(), state, in_progress }
}

fn device(name: &str, media_type: MediaType) -> Device {
    Device {
        id: None,
        name: name.to_string(),
        media_type,
        capacity: 1024,
        fs_type: FilesystemType::Xfs,
        serial_number: None,
    }
}

#[test]
fn failed_disk_gets_one_ticket() {
    let first = vec![
        report("/dev/sda", State::Good, false),
        report("/dev/sdb", State::WaitingForReplacement, false),
    ];
    assert_eq!(check_for_failed_disks(&first, false), vec![1]);
    // The ticket was recorded: the second pass does nothing more.
    let second = vec![
        report("/dev/sda", State::Good, false),
        report("/dev/sdb", State::WaitingForReplacement, true),
    ];
    assert_eq!(check_for_failed_disks(&second, false), Vec::<usize>::new());
}

#[test]
fn simulate_opens_no_ticket() {
    let r = vec![report("/dev/sdb", State::WaitingForReplacement, false)];
    assert_eq!(check_for_failed_disks(&r, true), Vec::<usize>::new());
}

#[test]
fn same_path_is_picked_once() {
    let r = vec![
        report("/dev/sdc", State::WaitingForReplacement, false),
        report("/dev/sdd", State::Fail, false),
        report("/dev/sdc", State::WaitingForReplacement, false),
        report("/dev/sde", State::WaitingForReplacement, false),
    ];
    assert_eq!(check_for_failed_disks(&r, false), vec![0, 3]);
}

#[test]
fn resolved_tickets_are_picked() {
    let t = vec![
        RepairTicket { id: "1".to_string(), disk_path: "/dev/sda".to_string() },
        RepairTicket { id: "2".to_string(), disk_path: "/dev/sdb".to_string() },
        RepairTicket { id: "3".to_string(), disk_path: "/dev/sdc".to_string() },
    ];
    assert_eq!(add_repaired_disks(&t, &vec![true, false, true]), vec![0, 2]);
    assert_eq!(add_repaired_disks(&t, &vec![false, false, false]), Vec::<usize>::new());
}

#[test]
fn enumerator_skips_loopback_lvm_and_ram() {
    let udev = vec![
        device("sda", MediaType::Rotational),
        device("loop0", MediaType::Loopback),
        device("dm-0", MediaType::LVM),
        device("ram0", MediaType::Ram),
        device("sdb", MediaType::SolidState),
    ];
    let sel = devices_to_check(&udev, &vec![]);
    assert_eq!(sel.udev, vec![0, 4]);
    assert!(sel.orphans.is_empty());
}

#[test]
fn orphan_mounts_are_checked() {
    let udev = vec![device("sda", MediaType::Rotational), device("loop1", MediaType::Loopback)];
    let mtab = vec![
        device("sda1", MediaType::Rotational),
        device("sdz1", MediaType::Rotational),
        device("loop1p1", MediaType::Rotational),
        device("ram1", MediaType::Ram),
    ];
    let sel = devices_to_check(&udev, &mtab);
    assert_eq!(sel.udev, vec![0]);
    // "sda1" is known through "sda"; "loop1" is not kept, so "loop1p1" is an orphan.
    assert_eq!(sel.orphans, vec![1, 2]);
}

#[test]
fn failed_disk_steps_come_in_order() {
    let r = vec![
        report("/dev/sda", State::WaitingForReplacement, false),
        report("/dev/sdb", State::Good, false),
        report("/dev/sdc", State::WaitingForReplacement, false),
    ];
    assert_eq!(
        failed_disk_workflow(&r, false),
        vec![
            TicketStep::RemoveDisk(0),
            TicketStep::CreateTicket(0),
            TicketStep::RecordTicket(0),
            TicketStep::RemoveDisk(2),
            TicketStep::CreateTicket(2),
            TicketStep::RecordTicket(2),
        ]
    );
    assert!(failed_disk_workflow(&r, true).is_empty());
}
