//! The sampler: reads the metrics of a cycle out of the kernel's listings.
//!
//! The caller reads the three listings and hands over their bytes, or `None`
//! for a listing that it could not read.  Sampling never fails: whatever is
//! missing or cannot be parsed counts as no load, one core, no swap in use.

use vstd::prelude::*;
use vstd::slice::slice_subrange;
use vstd::string::*;
use crate::load::{normalize_load, normalized_load};
use crate::snapshot::{effective_cores, SnapshotView, SystemSnapshot};
use crate::text::{
    count_keyed_lines, find_first, keyed_line_at, last_keyed_line, line_at, nth_token,
    parse_millionths, parse_u64, parsed_millionths, parsed_u64, token, ByteClass,
};

verus! {

/// Listing of the processors, one block per processor.
pub const CPUINFO_PATH: &'static str = "/proc/cpuinfo";

/// Listing of the memory counters, one per line.
pub const MEMINFO_PATH: &'static str = "/proc/meminfo";

/// The load averages, on one line.
pub const LOADAVG_PATH: &'static str = "/proc/loadavg";

/// How the line of a processor begins.
pub const PROCESSOR_KEY: &'static str = "processor";

/// How the line of the swap size begins.
pub const SWAP_TOTAL_KEY: &'static str = "SwapTotal:";

/// How the line of the free swap begins.
pub const SWAP_FREE_KEY: &'static str = "SwapFree:";

/// Number of processors in a listing of processors: its lines that begin
/// with the processor key.
pub open spec fn cpu_cores(cpuinfo: Seq<u8>) -> nat {
    count_keyed_lines(cpuinfo, PROCESSOR_KEY@, cpuinfo.len() as int)
}

/// The number on a line of counters: its second token read as an unsigned
/// integer, zero where the line has no second token or it is no such number.
pub open spec fn field_value(line: Seq<u8>) -> u64 {
    match token(line, 1) {
        Some(t) => match parsed_u64(t) {
            Some(v) => v,
            None => 0,
        },
        None => 0,
    }
}

/// The counter of a key: the number on the last line that begins with the
/// key, zero where no line does.
pub open spec fn keyed_field(data: Seq<u8>, key: Seq<char>) -> u64 {
    match last_keyed_line(data, key, data.len() as int) {
        Some(at) => field_value(line_at(data, at)),
        None => 0,
    }
}

/// Swap in use: the size less what is free, and zero where the readings
/// claim more free than there is.
pub open spec fn swap_used(total: nat, free: nat) -> nat {
    if free > total {
        0
    } else {
        (total - free) as nat
    }
}

/// Swap in use according to a listing of memory counters, in KiB.
pub open spec fn swap_usage(meminfo: Seq<u8>) -> nat {
    swap_used(
        keyed_field(meminfo, SWAP_TOTAL_KEY@) as nat,
        keyed_field(meminfo, SWAP_FREE_KEY@) as nat,
    )
}

/// The one-minute load average of a listing of load averages, in millionths:
/// its first token read as a decimal number, zero where there is no token or
/// it is no such number.
pub open spec fn raw_load(loadavg: Seq<u8>) -> u64 {
    match token(loadavg, 0) {
        Some(t) => match parsed_millionths(t) {
            Some(v) => v,
            None => 0,
        },
        None => 0,
    }
}

/// The snapshot that three listings give; `None` is a listing that could
/// not be read.
pub open spec fn sampled(
    loadavg: Option<Seq<u8>>,
    cpuinfo: Option<Seq<u8>>,
    meminfo: Option<Seq<u8>>,
) -> SnapshotView {
    let cores = match cpuinfo {
        Some(c) => effective_cores(cpu_cores(c)),
        None => 1,
    };
    SnapshotView {
        normalized_load: match loadavg {
            Some(l) => normalized_load(raw_load(l) as nat, cores),
            None => 0,
        },
        cpu_core_count: cores,
        swap_used_kib: match meminfo {
            Some(m) => swap_usage(m),
            None => 0,
        },
    }
}

/// The view of an optional listing.
pub open spec fn listing_view(listing: Option<&[u8]>) -> Option<Seq<u8>> {
    match listing {
        Some(l) => Some(l@),
        None => None,
    }
}

/// Counts the processors in a listing of processors.
pub fn get_cpu_cores(cpuinfo: &[u8]) -> (cores: usize)
    ensures
        cores == cpu_cores(cpuinfo@),
{
    proof {
        reveal_strlit("processor");
    }
    let mut cores: usize = 0;
    let mut at: usize = 0;
    while at < cpuinfo.len()
        invariant
            at <= cpuinfo.len(),
            cores <= at,
            cores == count_keyed_lines(cpuinfo@, PROCESSOR_KEY@, at as int),
            PROCESSOR_KEY.is_ascii(),
        decreases cpuinfo.len() - at,
    {
        if keyed_line_at(cpuinfo, at, PROCESSOR_KEY) {
            cores += 1;
        }
        at += 1;
    }
    cores
}

/// Reads the number on a line of counters.
pub fn read_field(line: &[u8]) -> (value: u64)
    ensures
        value == field_value(line@),
{
    match nth_token(line, 1) {
        Some(t) => match parse_u64(t) {
            Some(v) => v,
            None => 0,
        },
        None => 0,
    }
}

/// Reads the counter of a key from a listing of counters.
fn read_keyed_field(data: &[u8], key: &str) -> (value: u64)
    requires
        key.is_ascii(),
    ensures
        value == keyed_field(data@, key@),
{
    let mut upto: usize = data.len();
    while upto > 0
        invariant
            upto <= data.len(),
            key.is_ascii(),
            last_keyed_line(data@, key@, data@.len() as int) == last_keyed_line(
                data@,
                key@,
                upto as int,
            ),
        decreases upto,
    {
        let at: usize = upto - 1;
        if keyed_line_at(data, at, key) {
            let end = find_first(data, at, ByteClass::Newline);
            return read_field(slice_subrange(data, at, end));
        }
        upto = at;
    }
    0
}

/// Computes the swap in use from the size of the swap and what is free.
pub fn swap_in_use(total: u64, free: u64) -> (used: u64)
    ensures
        used == swap_used(total as nat, free as nat),
        free > total ==> used == 0,
{
    if free > total {
        0
    } else {
        total - free
    }
}

/// Reads the swap in use, in KiB, from a listing of memory counters.
pub fn get_swap_usage(meminfo: &[u8]) -> (used: u64)
    ensures
        used == swap_usage(meminfo@),
{
    proof {
        reveal_strlit("SwapTotal:");
        reveal_strlit("SwapFree:");
    }
    let total = read_keyed_field(meminfo, SWAP_TOTAL_KEY);
    let free = read_keyed_field(meminfo, SWAP_FREE_KEY);
    swap_in_use(total, free)
}

/// Reads the one-minute load average, in millionths, from a listing of load
/// averages.
pub fn read_raw_load(loadavg: &[u8]) -> (load: u64)
    ensures
        load == raw_load(loadavg@),
{
    match nth_token(loadavg, 0) {
        Some(t) => match parse_millionths(t) {
            Some(v) => v,
            None => 0,
        },
        None => 0,
    }
}

/// Reads the load per core, in millionths, from a listing of load averages
/// and a count of cores.  A count of no core stands for one core.
pub fn get_load_avg(loadavg: &[u8], cores: usize) -> (load: u64)
    ensures
        load == normalized_load(raw_load(loadavg@) as nat, cores as nat),
{
    normalize_load(read_raw_load(loadavg), cores)
}

/// Takes the snapshot of a cycle from the three listings.
pub fn sample(loadavg: Option<&[u8]>, cpuinfo: Option<&[u8]>, meminfo: Option<&[u8]>) -> (snapshot:
    SystemSnapshot)
    ensures
        snapshot@ == sampled(listing_view(loadavg), listing_view(cpuinfo), listing_view(meminfo)),
{
    let cores: usize = match cpuinfo {
        Some(c) => {
            let n = get_cpu_cores(c);
            if n == 0 {
                1
            } else {
                n
            }
        },
        None => 1,
    };
    let load: u64 = match loadavg {
        Some(l) => get_load_avg(l, cores),
        None => 0,
    };
    let swap: u64 = match meminfo {
        Some(m) => get_swap_usage(m),
        None => 0,
    };
    SystemSnapshot::new(load, cores, swap)
}

/// Law: readings that claim more free swap than there is swap give no swap
/// in use; and the swap in use is never more than the size of the swap.
pub proof fn lemma_swap_used_saturates(total: nat, free: nat)
    ensures
        free > total ==> swap_used(total, free) == 0,
        free <= total ==> swap_used(total, free) == total - free,
        0 <= swap_used(total, free) <= total,
{
}

/// Law: a snapshot counts at least one core and holds the raw load divided
/// by that count, whatever the listings hold; and where nothing can be read
/// it holds no load, one core and no swap in use.
pub proof fn lemma_sample_is_total(
    loadavg: Option<Seq<u8>>,
    cpuinfo: Option<Seq<u8>>,
    meminfo: Option<Seq<u8>>,
)
    ensures
        sampled(loadavg, cpuinfo, meminfo).cpu_core_count >= 1,
        loadavg matches Some(l) ==> sampled(loadavg, cpuinfo, meminfo).normalized_load == raw_load(
            l,
        ) as nat / sampled(loadavg, cpuinfo, meminfo).cpu_core_count,
        sampled(None, None, None) == (SnapshotView {
            normalized_load: 0,
            cpu_core_count: 1,
            swap_used_kib: 0,
        }),
{
}

} // verus!
