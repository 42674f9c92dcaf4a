//! The disks of the system, taken together.

use vstd::prelude::*;

verus! {

/// The space of one disk, in bytes.
#[derive(Debug, Clone, Copy, PartialEq, Eq, Structural)]
pub struct DiskSpace {
    /// The size of the disk.
    pub total: u64,
    /// What is free of it.
    pub available: u64,
}

/// The space of all disks together: what is used, and the size.
#[derive(Debug, Clone, Copy, PartialEq, Eq, Structural)]
pub struct DiskUsage {
    pub used: u64,
    pub total: u64,
}

/// The size of all disks together.
pub open spec fn total_space(disks: Seq<DiskSpace>) -> int
    decreases disks.len(),
{
    if disks.len() == 0 {
        0
    } else {
        total_space(disks.drop_last()) + disks.last().total
    }
}

/// What is used of all disks together.
pub open spec fn used_space(disks: Seq<DiskSpace>) -> int
    decreases disks.len(),
{
    if disks.len() == 0 {
        0
    } else {
        used_space(disks.drop_last()) + (disks.last().total - disks.last().available)
    }
}

/// No disk has more free space than it is large.
pub open spec fn consistent(disks: Seq<DiskSpace>) -> bool {
    forall|i: int| 0 <= i < disks.len() ==> (#[trigger] disks[i]).available <= disks[i].total
}

/// The sizes of more disks add up to at least as much.
proof fn lemma_total_space_grows(disks: Seq<DiskSpace>, k: int)
    requires
        0 <= k <= disks.len(),
    ensures
        total_space(disks.take(k)) <= total_space(disks),
    decreases disks.len() - k,
{
    if k == disks.len() {
        assert(disks.take(k) =~= disks);
    } else {
        lemma_total_space_grows(disks.drop_last(), k);
        assert(disks.drop_last().take(k) =~= disks.take(k));
    }
}

/// Adds up the disks. There is no answer where a disk reports more free
/// space than it is large, or where the sizes together exceed the range of
/// the counters.
pub fn disk_usage(disks: &Vec<DiskSpace>) -> (r: Option<DiskUsage>)
    ensures
        match r {
            Some(usage) => {
                &&& consistent(disks@)
                &&& usage.total == total_space(disks@)
                &&& usage.used == used_space(disks@)
            },
            None => !consistent(disks@) || total_space(disks@) > u64::MAX,
        },
{
    let mut total: u64 = 0;
    let mut used: u64 = 0;
    let mut i: usize = 0;
    while i < disks.len()
        invariant
            i <= disks.len(),
            consistent(disks@.take(i as int)),
            total == total_space(disks@.take(i as int)),
            used == used_space(disks@.take(i as int)),
            used <= total,
        decreases disks.len() - i,
    {
        let disk = disks[i];
        let ghost next = disks@.take(i + 1);
        proof {
            assert(next.drop_last() =~= disks@.take(i as int));
            assert(next.last() == disk);
        }
        if disk.available > disk.total {
            assert(disks@[i as int] == disk);
            return None;
        }
        if disk.total > u64::MAX - total {
            proof {
                lemma_total_space_grows(disks@, i + 1);
            }
            return None;
        }
        total = total + disk.total;
        used = used + (disk.total - disk.available);
        assert(consistent(next)) by {
            assert forall|k: int| 0 <= k < next.len() implies (#[trigger] next[k]).available
                <= next[k].total by {
                if k < i {
                    assert(next[k] == disks@.take(i as int)[k]);
                }
            }
        }
        i += 1;
    }
    assert(disks@.take(disks.len() as int) =~= disks@);
    Some(DiskUsage { used, total })
}

} // verus!
