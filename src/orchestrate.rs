//! The two top-level workflows: which failed disks leave the cluster and get
//! a replacement ticket, and which ticketed disks come back.
use crate::state::State;
use vstd::prelude::*;

verus! {

/// Where one engine left its device, with the store's in-progress flag.
#[derive(Debug, Clone, PartialEq, Eq)]
pub struct DiskReport {
    /// Kernel path of the device, such as `/dev/sdb`.
    pub path: String,
    pub state: State,
    /// Whether the store holds an outstanding ticket for the device.
    pub in_progress: bool,
}

/// An outstanding replacement ticket.
#[derive(Debug, Clone, PartialEq, Eq)]
pub struct RepairTicket {
    pub id: String,
    pub disk_path: String,
}

/// A disk that must leave the cluster and get a ticket.
pub open spec fn needs_ticket(r: DiskReport, simulate: bool) -> bool {
    !simulate && r.state == State::WaitingForReplacement && !r.in_progress
}

/// Report `i` is acted on: it needs a ticket and no earlier report of the
/// same device path does.
pub open spec fn picked(rs: Seq<DiskReport>, simulate: bool, i: int) -> bool {
    needs_ticket(rs[i], simulate) && !(exists|j: int|
        0 <= j < i && needs_ticket(#[trigger] rs[j], simulate) && rs[j].path@ == rs[i].path@)
}

/// `r` lists, in increasing order, exactly the reports to act on.
pub open spec fn failed_disk_selection(rs: Seq<DiskReport>, simulate: bool, r: Seq<usize>) -> bool {
    &&& forall|k: int| 0 <= k < r.len() ==> r[k] < rs.len()
    &&& forall|k: int, l: int| 0 <= k < l < r.len() ==> r[k] < r[l]
    &&& forall|i: int| 0 <= i < rs.len() ==> (picked(rs, simulate, i) <==> r.contains(i as usize))
}

/// `r` lists, in increasing order, exactly the tickets reported resolved.
pub open spec fn resolved_selection(resolved: Seq<bool>, r: Seq<usize>) -> bool {
    &&& forall|k: int| 0 <= k < r.len() ==> r[k] < resolved.len()
    &&& forall|k: int, l: int| 0 <= k < l < r.len() ==> r[k] < r[l]
    &&& forall|i: int| 0 <= i < resolved.len() ==> (resolved[i] <==> r.contains(i as usize))
}

/// Picks the disks whose engine stopped at `WaitingForReplacement` and that
/// have no outstanding ticket: each must be removed from the cluster, get a
/// ticket, and have the ticket recorded, in that order. Nothing is picked
/// when simulating, and a device path is picked at most once.
pub fn check_for_failed_disks(reports: &Vec<DiskReport>, simulate: bool) -> (r: Vec<usize>)
    ensures
        failed_disk_selection(reports@, simulate, r@),
{
    let mut r: Vec<usize> = Vec::new();
    let mut i: usize = 0;
    while i < reports.len()
        invariant
            i <= reports@.len(),
            forall|k: int| 0 <= k < r@.len() ==> r@[k] < i,
            forall|k: int, l: int| 0 <= k < l < r@.len() ==> r@[k] < r@[l],
            forall|x: int| 0 <= x < i ==> (picked(reports@, simulate, x) <==> r@.contains(x as usize)),
        decreases reports@.len() - i,
    {
        let ri = &reports[i];
        let eligible = !simulate && ri.state == State::WaitingForReplacement && !ri.in_progress;
        let mut dup = false;
        if eligible {
            let mut j: usize = 0;
            while j < i
                invariant
                    i < reports@.len(),
                    j <= i,
                    ri == reports@[i as int],
                    dup <==> exists|y: int|
                        0 <= y < j && needs_ticket(#[trigger] reports@[y], simulate) && reports@[y].path@
                            == reports@[i as int].path@,
                decreases i - j,
            {
                let rj = &reports[j];
                if !simulate && rj.state == State::WaitingForReplacement && !rj.in_progress
                    && rj.path == ri.path {
                    dup = true;
                }
                j = j + 1;
            }
        }
        let ghost before = r@;
        if eligible && !dup {
            r.push(i);
        }
        proof {
            assert forall|x: int| 0 <= x < i + 1 implies (picked(reports@, simulate, x)
                <==> r@.contains(x as usize)) by {
                if x < i {
                    if before.contains(x as usize) {
                        let k = choose|k: int| 0 <= k < before.len() && before[k] == x as usize;
                        assert(r@[k] == x as usize);
                    }
                    if r@.contains(x as usize) {
                        let k = choose|k: int| 0 <= k < r@.len() && r@[k] == x as usize;
                        if k < before.len() {
                            assert(before[k] == x as usize);
                        }
                    }
                } else {
                    if eligible && !dup {
                        assert(r@[before.len() as int] == i);
                    } else {
                        assert forall|k: int| 0 <= k < r@.len() implies r@[k] != i by {}
                    }
                }
            }
        }
        i = i + 1;
    }
    r
}

/// Picks the outstanding tickets that are resolved: each of their disks is
/// added back to the cluster and, on success, its ticket cleared.
/// `resolved[i]` is the ticketing system's answer for `tickets[i]`.
pub fn add_repaired_disks(tickets: &Vec<RepairTicket>, resolved: &Vec<bool>) -> (r: Vec<usize>)
    requires
        tickets@.len() == resolved@.len(),
    ensures
        resolved_selection(resolved@, r@),
{
    let mut r: Vec<usize> = Vec::new();
    let mut i: usize = 0;
    while i < resolved.len()
        invariant
            i <= resolved@.len(),
            forall|k: int| 0 <= k < r@.len() ==> r@[k] < i,
            forall|k: int, l: int| 0 <= k < l < r@.len() ==> r@[k] < r@[l],
            forall|x: int| 0 <= x < i ==> (resolved@[x] <==> r@.contains(x as usize)),
        decreases resolved@.len() - i,
    {
        let ghost before = r@;
        if resolved[i] {
            r.push(i);
        }
        proof {
            assert forall|x: int| 0 <= x < i + 1 implies (resolved@[x] <==> r@.contains(
                x as usize,
            )) by {
                if x < i {
                    if before.contains(x as usize) {
                        let k = choose|k: int| 0 <= k < before.len() && before[k] == x as usize;
                        assert(r@[k] == x as usize);
                    }
                    if r@.contains(x as usize) {
                        let k = choose|k: int| 0 <= k < r@.len() && r@[k] == x as usize;
                        if k < before.len() {
                            assert(before[k] == x as usize);
                        }
                    }
                } else if resolved@[x] {
                    assert(r@[before.len() as int] == i);
                } else {
                    assert forall|k: int| 0 <= k < r@.len() implies r@[k] != i by {}
                }
            }
        }
        i = i + 1;
    }
    r
}

/// One step of reporting a failed disk, naming the report it is for.
#[derive(Debug, Clone, Copy, PartialEq, Eq, Structural)]
pub enum TicketStep {
    /// Ask the cluster backend to remove the disk.
    RemoveDisk(usize),
    /// Open a replacement ticket for it.
    CreateTicket(usize),
    /// Record the returned ticket id in the store.
    RecordTicket(usize),
}

/// `r` is, for each picked report in turn, its removal, then its ticket, then
/// the recording of the ticket.
pub open spec fn steps_for(picks: Seq<usize>, r: Seq<TicketStep>) -> bool {
    &&& r.len() == 3 * picks.len()
    &&& forall|k: int|
        #![trigger picks[k]]
        0 <= k < picks.len() ==> r[3 * k] == TicketStep::RemoveDisk(picks[k]) && r[3 * k + 1]
            == TicketStep::CreateTicket(picks[k]) && r[3 * k + 2] == TicketStep::RecordTicket(
            picks[k],
        )
}

/// The calls that reporting the failed disks makes, in order: for each disk
/// that `check_for_failed_disks` picks, remove it from the cluster, open its
/// ticket, then record the ticket.
pub fn failed_disk_workflow(reports: &Vec<DiskReport>, simulate: bool) -> (r: Vec<TicketStep>)
    ensures
        exists|picks: Seq<usize>|
            failed_disk_selection(reports@, simulate, picks) && steps_for(picks, r@),
{
    let picks = check_for_failed_disks(reports, simulate);
    let mut r: Vec<TicketStep> = Vec::new();
    let mut i: usize = 0;
    while i < picks.len()
        invariant
            i <= picks@.len(),
            r@.len() == 3 * i,
            forall|k: int|
                #![trigger picks@[k]]
                0 <= k < i ==> r@[3 * k] == TicketStep::RemoveDisk(picks@[k]) && r@[3 * k + 1]
                    == TicketStep::CreateTicket(picks@[k]) && r@[3 * k + 2]
                    == TicketStep::RecordTicket(picks@[k]),
        decreases picks@.len() - i,
    {
        let d = picks[i];
        r.push(TicketStep::RemoveDisk(d));
        r.push(TicketStep::CreateTicket(d));
        r.push(TicketStep::RecordTicket(d));
        i = i + 1;
    }
    assert(steps_for(picks@, r@));
    r
}

/// Re-admitting disks opens no ticket: when the outstanding tickets name
/// distinct device paths, the tickets left once the picked ones are cleared
/// still do.
pub proof fn lemma_clearing_keeps_tickets_unique(
    tickets: Seq<RepairTicket>,
    resolved: Seq<bool>,
    picks: Seq<usize>,
)
    requires
        forall|i: int, j: int|
            0 <= i < j < tickets.len() ==> (#[trigger] tickets[i]).disk_path@ != (
            #[trigger] tickets[j]).disk_path@,
        tickets.len() == resolved.len(),
        resolved_selection(resolved, picks),
    ensures
        forall|i: int, j: int|
            0 <= i < j < tickets.len() && !picks.contains(i as usize) && !picks.contains(
                j as usize,
            ) ==> (#[trigger] tickets[i]).disk_path@ != (#[trigger] tickets[j]).disk_path@,
        forall|i: int| 0 <= i < tickets.len() && !picks.contains(i as usize) ==> !resolved[i],
{
}

/// At most one outstanding ticket per device: when the store's outstanding
/// tickets name distinct device paths and each report's in-progress flag
/// says whether its path has one, the tickets opened for the picked disks
/// keep the paths distinct.
pub proof fn lemma_ticket_uniqueness(
    outstanding: Seq<Seq<char>>,
    reports: Seq<DiskReport>,
    simulate: bool,
    picks: Seq<usize>,
)
    requires
        outstanding.no_duplicates(),
        forall|i: int|
            0 <= i < reports.len() ==> (#[trigger] reports[i]).in_progress == outstanding.contains(
                reports[i].path@,
            ),
        failed_disk_selection(reports, simulate, picks),
    ensures
        (outstanding + picks.map_values(|k: usize| reports[k as int].path@)).no_duplicates(),
{
    let added = picks.map_values(|k: usize| reports[k as int].path@);
    let all = outstanding + added;
    assert forall|a: int, b: int| 0 <= a < all.len() && 0 <= b < all.len() && a != b implies all[a]
        != all[b] by {
        if a < outstanding.len() && b < outstanding.len() {
            assert(all[a] == outstanding[a] && all[b] == outstanding[b]);
        } else if a >= outstanding.len() && b >= outstanding.len() {
            let ka = a - outstanding.len();
            let kb = b - outstanding.len();
            let (lo, hi) = if picks[ka] < picks[kb] { (picks[ka] as int, picks[kb] as int) } else { (picks[kb] as int, picks[ka] as int) };
            if ka < kb {
                assert(picks[ka] < picks[kb]);
            } else {
                assert(picks[kb] < picks[ka]);
            }
            assert(picks.contains(hi as usize));
            assert(picked(reports, simulate, hi));
            assert(picks.contains(lo as usize));
            assert(picked(reports, simulate, lo));
            assert(needs_ticket(reports[lo], simulate));
        } else {
            let (o, k) = if a < outstanding.len() { (a, b - outstanding.len()) } else { (b, a - outstanding.len()) };
            let d = picks[k] as int;
            assert(picks.contains(d as usize));
            assert(picked(reports, simulate, d));
            assert(!reports[d].in_progress);
            assert(all[o] == outstanding[o]);
            assert(outstanding.contains(outstanding[o]));
        }
    }
}

} // verus!
