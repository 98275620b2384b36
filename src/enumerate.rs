//! Which of the host's block devices get an engine.
use crate::device::{excluded_media, is_excluded_media, Device};
use vstd::prelude::*;

verus! {

/// `n` occurs in `h` as a contiguous part.
pub open spec fn has_substring(h: Seq<char>, n: Seq<char>) -> bool {
    exists|i: int| 0 <= i && i + n.len() <= h.len() && #[trigger] h.subrange(i, i + n.len()) == n
}

/// Relies on `str::contains` with a `&str` pattern: true exactly when the
/// pattern matches a contiguous part of the string.
#[verifier::external_body]
fn str_contains(h: &str, n: &str) -> (r: bool)
    ensures
        r == has_substring(h@, n@),
{
    h.contains(n)
}

/// The devices that get an engine, as positions in the two inputs.
#[derive(Debug, Clone, PartialEq, Eq)]
pub struct DeviceSelection {
    /// Positions of the kernel database's devices to check.
    pub udev: Vec<usize>,
    /// Positions of the mount table's devices that the kernel database
    /// does not report, and that are checked too.
    pub orphans: Vec<usize>,
}

/// Device `j` of the mount table is an orphan: its medium is not excluded,
/// and no kept device of the kernel database has a name within its name.
pub open spec fn is_orphan(udev: Seq<Device>, mtab: Seq<Device>, j: int) -> bool {
    !excluded_media(mtab[j].media_type) && !(exists|i: int|
        0 <= i < udev.len() && !excluded_media(#[trigger] udev[i].media_type) && has_substring(
            mtab[j].name@,
            udev[i].name@,
        ))
}

/// `r` lists, in increasing order, exactly the positions of the kernel
/// database's devices whose medium is not excluded.
pub open spec fn udev_selection(udev: Seq<Device>, r: Seq<usize>) -> bool {
    &&& forall|k: int| 0 <= k < r.len() ==> r[k] < udev.len()
    &&& forall|k: int, l: int| 0 <= k < l < r.len() ==> r[k] < r[l]
    &&& forall|i: int|
        0 <= i < udev.len() ==> (!excluded_media(#[trigger] udev[i].media_type) <==> r.contains(
            i as usize,
        ))
}

/// `r` lists, in increasing order, exactly the positions of the mount
/// table's orphans.
pub open spec fn orphan_selection(udev: Seq<Device>, mtab: Seq<Device>, r: Seq<usize>) -> bool {
    &&& forall|k: int| 0 <= k < r.len() ==> r[k] < mtab.len()
    &&& forall|k: int, l: int| 0 <= k < l < r.len() ==> r[k] < r[l]
    &&& forall|j: int| 0 <= j < mtab.len() ==> (is_orphan(udev, mtab, j) <==> r.contains(j as usize))
}

/// Chooses the devices to check: those of the kernel database that are not
/// loopback, LVM or ram devices, and those of the mount table that the kernel
/// database does not report, with the same media left out.
pub fn devices_to_check(udev: &Vec<Device>, mtab: &Vec<Device>) -> (r: DeviceSelection)
    ensures
        udev_selection(udev@, r.udev@),
        orphan_selection(udev@, mtab@, r.orphans@),
{
    let mut kept: Vec<usize> = Vec::new();
    let mut i: usize = 0;
    while i < udev.len()
        invariant
            i <= udev@.len(),
            forall|k: int| 0 <= k < kept@.len() ==> kept@[k] < i,
            forall|k: int, l: int| 0 <= k < l < kept@.len() ==> kept@[k] < kept@[l],
            forall|x: int|
                0 <= x < i ==> (!excluded_media(udev@[x].media_type) <==> kept@.contains(
                    x as usize,
                )),
        decreases udev@.len() - i,
    {
        let ghost before = kept@;
        let keep = !is_excluded_media(udev[i].media_type);
        if keep {
            kept.push(i);
        }
        proof {
            assert forall|x: int| 0 <= x < i + 1 implies (!excluded_media(udev@[x].media_type)
                <==> kept@.contains(x as usize)) by {
                if x < i {
                    if before.contains(x as usize) {
                        let k = choose|k: int| 0 <= k < before.len() && before[k] == x as usize;
                        assert(kept@[k] == x as usize);
                    }
                    if kept@.contains(x as usize) {
                        let k = choose|k: int| 0 <= k < kept@.len() && kept@[k] == x as usize;
                        if k < before.len() {
                            assert(before[k] == x as usize);
                        }
                    }
                } else if keep {
                    assert(kept@[before.len() as int] == i);
                } else {
                    assert forall|k: int| 0 <= k < kept@.len() implies kept@[k] != i by {}
                }
            }
        }
        i = i + 1;
    }
    let mut orphans: Vec<usize> = Vec::new();
    let mut j: usize = 0;
    while j < mtab.len()
        invariant
            j <= mtab@.len(),
            forall|k: int| 0 <= k < orphans@.len() ==> orphans@[k] < j,
            forall|k: int, l: int| 0 <= k < l < orphans@.len() ==> orphans@[k] < orphans@[l],
            forall|x: int|
                0 <= x < j ==> (is_orphan(udev@, mtab@, x) <==> orphans@.contains(x as usize)),
        decreases mtab@.len() - j,
    {
        let ghost before = orphans@;
        let mut known = false;
        let mut u: usize = 0;
        while u < udev.len()
            invariant
                j < mtab@.len(),
                u <= udev@.len(),
                known <==> exists|y: int|
                    0 <= y < u && !excluded_media(#[trigger] udev@[y].media_type) && has_substring(
                        mtab@[j as int].name@,
                        udev@[y].name@,
                    ),
            decreases udev@.len() - u,
        {
            if !is_excluded_media(udev[u].media_type) && str_contains(
                mtab[j].name.as_str(),
                udev[u].name.as_str(),
            ) {
                known = true;
            }
            u = u + 1;
        }
        let orphan = !is_excluded_media(mtab[j].media_type) && !known;
        if orphan {
            orphans.push(j);
        }
        proof {
            assert forall|x: int| 0 <= x < j + 1 implies (is_orphan(udev@, mtab@, x)
                <==> orphans@.contains(x as usize)) by {
                if x < j {
                    if before.contains(x as usize) {
                        let k = choose|k: int| 0 <= k < before.len() && before[k] == x as usize;
                        assert(orphans@[k] == x as usize);
                    }
                    if orphans@.contains(x as usize) {
                        let k = choose|k: int| 0 <= k < orphans@.len() && orphans@[k] == x as usize;
                        if k < before.len() {
                            assert(before[k] == x as usize);
                        }
                    }
                } else if orphan {
                    assert(orphans@[before.len() as int] == j);
                } else {
                    assert forall|k: int| 0 <= k < orphans@.len() implies orphans@[k] != j by {}
                }
            }
        }
        j = j + 1;
    }
    DeviceSelection { udev: kept, orphans }
}

} // verus!
