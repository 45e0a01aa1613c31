//! What a process tree uses, in terms of the table of processes.
use crate::usage::{self, ProcessSample};
use vstd::prelude::*;

verus! {

/// Without a sample of the process there is no own sample.
proof fn no_own_sample(samples: Seq<ProcessSample>, pid: u32)
    requires
        forall|i: int| 0 <= i < samples.len() ==> (#[trigger] samples[i]).pid != pid,
    ensures
        usage::own_sample(samples, pid) is None,
    decreases samples.len(),
{
    reveal(Seq::filter);
    if samples.len() > 0 {
        no_own_sample(samples.drop_last(), pid);
    }
}

/// The own sample is the first one of the process.
proof fn own_sample_is_the_first(samples: Seq<ProcessSample>, pid: u32, own: int)
    requires
        0 <= own < samples.len(),
        samples[own].pid == pid,
        forall|i: int| 0 <= i < own ==> (#[trigger] samples[i]).pid != pid,
    ensures
        usage::own_sample(samples, pid) == Some(samples[own]),
    decreases samples.len(),
{
    reveal(Seq::filter);
    if own == samples.len() - 1 {
        no_own_sample(samples.drop_last(), pid);
    } else {
        own_sample_is_the_first(samples.drop_last(), pid, own);
    }
}

/// The sums over the children are sums over the table that skip all else.
proof fn sums_over_the_table(samples: Seq<ProcessSample>, pid: u32)
    ensures
        usage::cpu_sum(usage::children(samples, pid)) == samples.fold_left(
            0int,
            |sum: int, sample: ProcessSample|
                if sample.parent == Some(pid) {
                    sum + sample.cpu
                } else {
                    sum
                },
        ),
        usage::memory_sum(usage::children(samples, pid)) == samples.fold_left(
            0int,
            |sum: int, sample: ProcessSample|
                if sample.parent == Some(pid) {
                    sum + sample.memory
                } else {
                    sum
                },
        ),
    decreases samples.len(),
{
    reveal(Seq::filter);
    if samples.len() > 0 {
        let before = usage::children(samples.drop_last(), pid);
        sums_over_the_table(samples.drop_last(), pid);
        assert(before.push(samples.last()).drop_last() =~= before);
    }
}

/// The whole table: the tree's usage is the process's own plus that of every
/// sample whose parent it is, each added once, as far as 64 bits reach. The
/// process's own sample is the first one with its number.
pub proof fn tree_usage_is_the_sum(samples: Seq<ProcessSample>, pid: u32, own: int)
    requires
        0 <= own < samples.len(),
        samples[own].pid == pid,
        forall|i: int| 0 <= i < own ==> (#[trigger] samples[i]).pid != pid,
    ensures
        ({
            let cpu = samples[own].cpu + samples.fold_left(
                0int,
                |sum: int, sample: ProcessSample|
                    if sample.parent == Some(pid) {
                        sum + sample.cpu
                    } else {
                        sum
                    },
            );
            let memory = samples[own].memory + samples.fold_left(
                0int,
                |sum: int, sample: ProcessSample|
                    if sample.parent == Some(pid) {
                        sum + sample.memory
                    } else {
                        sum
                    },
            );
            &&& cpu <= u64::MAX ==> usage::tree_usage(samples, pid).cpu == cpu
            &&& cpu > u64::MAX ==> usage::tree_usage(samples, pid).cpu == u64::MAX
            &&& memory <= u64::MAX ==> usage::tree_usage(samples, pid).memory == memory
            &&& memory > u64::MAX ==> usage::tree_usage(samples, pid).memory == u64::MAX
        }),
{
    own_sample_is_the_first(samples, pid, own);
    sums_over_the_table(samples, pid);
}

/// A process without a sample uses nothing, whatever its children use.
pub proof fn a_missing_process_uses_nothing(samples: Seq<ProcessSample>, pid: u32)
    requires
        forall|i: int| 0 <= i < samples.len() ==> (#[trigger] samples[i]).pid != pid,
    ensures
        usage::tree_usage(samples, pid).cpu == 0,
        usage::tree_usage(samples, pid).memory == 0,
{
    no_own_sample(samples, pid);
}

/// One more child raises the tree's usage by exactly what the child uses, as
/// far as 64 bits reach.
pub proof fn a_child_adds_its_usage(
    samples: Seq<ProcessSample>,
    child: ProcessSample,
    pid: u32,
    own: int,
)
    requires
        0 <= own < samples.len(),
        samples[own].pid == pid,
        child.parent == Some(pid),
        child.pid != pid,
    ensures
        ({
            let before = usage::tree_usage(samples, pid);
            let after = usage::tree_usage(samples.push(child), pid);
            &&& before.cpu + child.cpu <= u64::MAX ==> after.cpu == before.cpu + child.cpu
            &&& before.cpu + child.cpu > u64::MAX ==> after.cpu == u64::MAX
            &&& before.memory + child.memory <= u64::MAX ==> after.memory == before.memory
                + child.memory
            &&& before.memory + child.memory > u64::MAX ==> after.memory == u64::MAX
        }),
{
    reveal(Seq::filter);
    let table = samples.push(child);
    let before = usage::children(samples, pid);
    assert(table.drop_last() =~= samples);
    assert(before.push(child).drop_last() =~= before);
    if usage::own_sample(samples, pid) is None {
        own_sample_exists(samples, pid, own);
    }
}

/// A process with a sample has an own sample.
proof fn own_sample_exists(samples: Seq<ProcessSample>, pid: u32, own: int)
    requires
        0 <= own < samples.len(),
        samples[own].pid == pid,
    ensures
        usage::own_sample(samples, pid) is Some,
    decreases samples.len(),
{
    reveal(Seq::filter);
    if own < samples.len() - 1 {
        own_sample_exists(samples.drop_last(), pid, own);
    }
}

/// A process without children uses exactly what its own sample says.
pub proof fn a_childless_process_uses_its_own(samples: Seq<ProcessSample>, pid: u32, own: int)
    requires
        0 <= own < samples.len(),
        samples[own].pid == pid,
        forall|i: int| 0 <= i < own ==> (#[trigger] samples[i]).pid != pid,
        forall|i: int| 0 <= i < samples.len() ==> (#[trigger] samples[i]).parent != Some(pid),
    ensures
        usage::tree_usage(samples, pid).cpu == samples[own].cpu,
        usage::tree_usage(samples, pid).memory == samples[own].memory,
{
    own_sample_is_the_first(samples, pid, own);
    no_children(samples, pid);
}

/// Without a sample that names the process as its parent there are no children.
proof fn no_children(samples: Seq<ProcessSample>, pid: u32)
    requires
        forall|i: int| 0 <= i < samples.len() ==> (#[trigger] samples[i]).parent != Some(pid),
    ensures
        usage::children(samples, pid).len() == 0,
    decreases samples.len(),
{
    reveal(Seq::filter);
    if samples.len() > 0 {
        no_children(samples.drop_last(), pid);
    }
}

} // verus!
