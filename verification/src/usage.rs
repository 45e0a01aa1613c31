use vstd::prelude::*;

verus! {

/// What the operating system reports of one process.
#[derive(Debug, Clone, Copy, PartialEq, Eq, Structural)]
pub struct ProcessSample {
    /// The process.
    pub pid: u32,
    /// Its parent, where it has one.
    pub parent: Option<u32>,
    /// Its CPU usage, in millionths of a percent of one core.
    pub cpu: u64,
    /// Its resident memory, in bytes.
    pub memory: u64,
}

/// What a process and its children use together.
#[derive(Debug, Clone, Copy, PartialEq, Eq, Structural)]
pub struct Usage {
    /// CPU usage, in millionths of a percent of one core.
    pub cpu: u64,
    /// Resident memory, in bytes.
    pub memory: u64,
}

/// The first sample of process `pid`.
pub open spec fn own_sample(samples: Seq<ProcessSample>, pid: u32) -> Option<ProcessSample> {
    let own = samples.filter(|sample: ProcessSample| sample.pid == pid);
    if own.len() > 0 {
        Some(own[0])
    } else {
        None
    }
}

/// The samples of the children of process `pid`.
pub open spec fn children(samples: Seq<ProcessSample>, pid: u32) -> Seq<ProcessSample> {
    samples.filter(|sample: ProcessSample| sample.parent == Some(pid))
}

/// The CPU usage of all samples together.
pub open spec fn cpu_sum(samples: Seq<ProcessSample>) -> nat
    decreases samples.len(),
{
    if samples.len() == 0 {
        0
    } else {
        cpu_sum(samples.drop_last()) + samples.last().cpu as nat
    }
}

/// The memory of all samples together.
pub open spec fn memory_sum(samples: Seq<ProcessSample>) -> nat
    decreases samples.len(),
{
    if samples.len() == 0 {
        0
    } else {
        memory_sum(samples.drop_last()) + samples.last().memory as nat
    }
}

/// The number itself where it fits 64 bits, and the largest such number
/// otherwise.
pub open spec fn saturated(n: nat) -> u64 {
    if n <= u64::MAX {
        n as u64
    } else {
        u64::MAX
    }
}

/// What process `pid` and its children use; nothing where `pid` has no sample.
pub open spec fn tree_usage(samples: Seq<ProcessSample>, pid: u32) -> Usage {
    match own_sample(samples, pid) {
        Some(own) => Usage {
            cpu: saturated(own.cpu as nat + cpu_sum(children(samples, pid))),
            memory: saturated(own.memory as nat + memory_sum(children(samples, pid))),
        },
        None => Usage { cpu: 0, memory: 0 },
    }
}

/// The first sample of process `pid`.
fn find_own(samples: &Vec<ProcessSample>, pid: u32) -> (own: Option<ProcessSample>)
    ensures
        own == own_sample(samples@, pid),
{
    let ghost is_own = |sample: ProcessSample| sample.pid == pid;
    let mut i: usize = 0;
    while i < samples.len()
        invariant
            i <= samples.len(),
            is_own == (|sample: ProcessSample| sample.pid == pid),
            samples@.take(i as int).filter(is_own).len() == 0,
        decreases samples.len() - i,
    {
        proof {
            reveal(Seq::filter);
            assert(samples@.take(i + 1).drop_last() =~= samples@.take(i as int));
        }
        if samples[i].pid == pid {
            proof {
                let found = samples@.take(i + 1);
                assert(found.filter(is_own) =~= seq![samples@[i as int]]);
                assert(samples@ =~= found + samples@.skip(i + 1));
                Seq::filter_distributes_over_add(found, samples@.skip(i + 1), is_own);
            }
            return Some(samples[i]);
        }
        i += 1;
    }
    proof {
        assert(samples@.take(i as int) =~= samples@);
    }
    None
}

/// Adds up what process `pid` and its children use; nothing where `pid` has no
/// sample.
pub fn measure_tree(samples: &Vec<ProcessSample>, pid: u32) -> (usage: Usage)
    ensures
        usage == tree_usage(samples@, pid),
{
    let own = match find_own(samples, pid) {
        Some(own) => own,
        None => return Usage { cpu: 0, memory: 0 },
    };
    let mut cpu: u64 = own.cpu;
    let mut memory: u64 = own.memory;
    let mut i: usize = 0;
    proof {
        reveal(Seq::filter);
    }
    while i < samples.len()
        invariant
            i <= samples.len(),
            cpu == saturated(
                own.cpu as nat + cpu_sum(children(samples@.take(i as int), pid)),
            ),
            memory == saturated(
                own.memory as nat + memory_sum(children(samples@.take(i as int), pid)),
            ),
        decreases samples.len() - i,
    {
        let ghost before = children(samples@.take(i as int), pid);
        let sample = samples[i];
        proof {
            reveal(Seq::filter);
            assert(samples@.take(i + 1).drop_last() =~= samples@.take(i as int));
            assert(before.push(sample).drop_last() =~= before);
        }
        if sample.parent == Some(pid) {
            cpu = cpu.saturating_add(sample.cpu);
            memory = memory.saturating_add(sample.memory);
        }
        i += 1;
    }
    proof {
        assert(samples@.take(i as int) =~= samples@);
    }
    Usage { cpu, memory }
}

} // verus!
