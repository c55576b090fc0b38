//! Theoretical PCI Express link bandwidth.

use vstd::prelude::*;

verus! {

/// Throughput of one lane, in MB/s, for a PCI Express generation.
/// A generation outside the table has rate 0.
pub open spec fn lane_rate(generation: int) -> int {
    if generation == 1 {
        250
    } else if generation == 2 {
        500
    } else if generation == 3 {
        985
    } else if generation == 4 {
        1969
    } else {
        0
    }
}

/// Bandwidth of a link, in MB/s: the lane count times the rate of one lane.
pub open spec fn link_bandwidth(width: int, generation: int) -> int {
    width * lane_rate(generation)
}

/// Computes the bandwidth of a link of `width` lanes of the given generation.
pub fn pci_bandwidth(generation: u32, width: u32) -> (bandwidth: u64)
    ensures
        bandwidth == link_bandwidth(width as int, generation as int),
{
    let rate: u64 = match generation {
        1 => 250,
        2 => 500,
        3 => 985,
        4 => 1969,
        _ => 0,
    };
    assert(width as u64 * rate <= 0xffff_ffff * 1969) by (nonlinear_arith)
        requires
            width <= 0xffff_ffff,
            rate <= 1969,
    ;
    width as u64 * rate
}

/// A link without lanes carries nothing, whatever its generation, and so
/// does a link of a generation outside the table, whatever its width.
pub proof fn lemma_no_bandwidth(width: int, generation: int)
    ensures
        link_bandwidth(0, generation) == 0,
        !(1 <= generation <= 4) ==> link_bandwidth(width, generation) == 0,
{
}

/// The bandwidth of every link that the driver can describe fits the
/// result.
pub proof fn lemma_bandwidth_fits(width: u32, generation: u32)
    ensures
        0 <= link_bandwidth(width as int, generation as int) <= u64::MAX,
{
    assert(width * lane_rate(generation as int) <= 0xffff_ffff * 1969) by (nonlinear_arith)
        requires
            0 <= width <= 0xffff_ffff,
            0 <= lane_rate(generation as int) <= 1969,
    ;
    assert(0 <= width * lane_rate(generation as int)) by (nonlinear_arith)
        requires
            0 <= width,
            0 <= lane_rate(generation as int),
    ;
}

} // verus!
