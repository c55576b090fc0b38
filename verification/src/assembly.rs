//! What an assembly comes to, stated over the whole run of replies.

use vstd::prelude::*;
use crate::bandwidth::link_bandwidth;
use crate::device::{
    begun, fed, node_in, node_name, ClockInfo, CudaComputeCapabilityInfo, Device,
    DeviceBuilderView, DeviceView, Progress, ProgressView, STAGES,
};
use crate::error::{failure, ErrorKind, ErrorView, SUCCESS};
use crate::handle::{bar1_of, capability_of, clocks_of};
use crate::query::{DEVICE_NAME_BUFFER_SIZE, DEVICE_PCI_BUS_ID_BUFFER_SIZE, DEVICE_UUID_BUFFER_SIZE};
use crate::reply::{handle_of, memory_of, text_of, unsigned_of, Reply};
use crate::session::NVML;

verus! {

/// Where an assembly stands after it has taken the replies from position
/// `from` on, one after the other, for as long as it goes on.
pub open spec fn run_from(
    builder: DeviceBuilderView,
    replies: Seq<Reply>,
    from: int,
) -> ProgressView
    decreases replies.len() - from,
{
    if from < 0 || from >= replies.len() {
        ProgressView::More(builder)
    } else {
        match fed(builder, replies[from]) {
            ProgressView::More(next) => run_from(next, replies, from + 1),
            end => end,
        }
    }
}

/// Where the assembly of the device at `index` stands after the given
/// replies.
pub open spec fn run(index: u32, replies: Seq<Reply>) -> ProgressView {
    run_from(begun(index), replies, 0)
}

/// Generation and width of the link, from the replies to the two queries
/// in that order.
pub open spec fn link_of(generation: Reply, width: Reply) -> Result<(u32, u32), ErrorView> {
    match unsigned_of(generation) {
        Err(error) => Err(error),
        Ok(generation) => match unsigned_of(width) {
            Err(error) => Err(error),
            Ok(width) => Ok((generation, width)),
        },
    }
}

/// What names a device, from the replies to the four queries in their
/// order: its handle, its name, its UUID and its minor number.
pub open spec fn identity_of(
    handle: Reply,
    name: Reply,
    uuid: Reply,
    minor_number: Reply,
) -> Result<(usize, Seq<char>, Seq<char>, u32), ErrorView> {
    match handle_of(handle) {
        Err(error) => Err(error),
        Ok(dev) => match text_of(name, DEVICE_NAME_BUFFER_SIZE as nat) {
            Err(error) => Err(error),
            Ok(model) => match text_of(uuid, DEVICE_UUID_BUFFER_SIZE as nat) {
                Err(error) => Err(error),
                Ok(uuid) => match unsigned_of(minor_number) {
                    Err(error) => Err(error),
                    Ok(minor_number) => Ok((dev, model, uuid, minor_number)),
                },
            },
        },
    }
}

/// The record of a device, from the replies to the calls of its assembly
/// in their order: the handle, name, UUID, minor number, power limit,
/// memory, bus id, BAR1 region, generation and width of the link, the two
/// clocks, the compute capability and the NUMA node file. The first reply
/// that fails gives the outcome, whatever the later ones hold. The last
/// cannot fail: without a node in the file, the node is 0.
pub open spec fn assembled(replies: Seq<Reply>) -> Result<DeviceView, ErrorView>
    recommends
        replies.len() == STAGES,
{
    match identity_of(replies[0], replies[1], replies[2], replies[3]) {
        Err(error) => Err(error),
        Ok(identity) => match unsigned_of(replies[4]) {
            Err(error) => Err(error),
            Ok(power) => match memory_of(replies[5]) {
                Err(error) => Err(error),
                Ok(memory) => match text_of(replies[6], DEVICE_PCI_BUS_ID_BUFFER_SIZE as nat) {
                    Err(error) => Err(error),
                    Ok(bus_id) => match bar1_of(replies[7]) {
                        Err(error) => Err(error),
                        Ok(bar1) => match link_of(replies[8], replies[9]) {
                            Err(error) => Err(error),
                            Ok(link) => match clocks_of(replies[10], replies[11]) {
                                Err(error) => Err(error),
                                Ok(clocks) => match capability_of(replies[12]) {
                                    Err(error) => Err(error),
                                    Ok(capability) => Ok(
                                        DeviceView {
                                            dev: identity.0,
                                            uuid: identity.2,
                                            path: node_name(identity.3 as nat),
                                            model: identity.1,
                                            power: power as u64,
                                            memory: memory.total,
                                            cpu_affinity: node_in(replies[13]),
                                            bus_id,
                                            bar1: bar1.0,
                                            bandwidth: link_bandwidth(
                                                link.1 as int,
                                                link.0 as int,
                                            ) as u64,
                                            clocks: ClockInfo {
                                                cores: clocks.0,
                                                memory: clocks.1,
                                            },
                                            topology: Seq::empty(),
                                            cuda_compute_capability: CudaComputeCapabilityInfo {
                                                major: capability.0,
                                                minor: capability.1,
                                            },
                                        },
                                    ),
                                },
                            },
                        },
                    },
                },
            },
        },
    }
}

impl<'s> Device<'s> {
    /// Assembles the record of the device at `index` from replies that are
    /// there already, taken in their order for as long as the assembly
    /// goes on.
    pub fn replay(session: &'s NVML, index: u32, replies: &[Reply]) -> (progress: Progress<'s>)
        ensures
            progress@ == run(index, replies@),
    {
        let mut builder = Device::new(session, index);
        let mut taken: usize = 0;
        while taken < replies.len()
            invariant
                taken <= replies@.len(),
                run(index, replies@) == run_from(builder@, replies@, taken as int),
            decreases replies@.len() - taken,
        {
            match builder.feed(&replies[taken]) {
                Progress::More(next) => {
                    builder = next;
                },
                end => {
                    return end;
                },
            }
            taken += 1;
        }
        Progress::More(builder)
    }
}

/// An assembly that has taken the replies to all of its steps has come to
/// the record that those replies describe, or to the failure of the first
/// step that failed: it never ends on anything in between.
pub proof fn lemma_assembly(index: u32, replies: Seq<Reply>)
    requires
        replies.len() == STAGES,
    ensures
        run(index, replies) == match assembled(replies) {
            Ok(device) => ProgressView::Done(device),
            Err(error) => ProgressView::Failed(error),
        },
{
    reveal_with_fuel(run_from, 16);
}

/// No record comes out before the last step: with fewer replies than the
/// assembly has steps, it is still under way or has failed.
pub proof fn lemma_no_record_before_the_last_step(index: u32, replies: Seq<Reply>)
    requires
        replies.len() < STAGES,
    ensures
        !(run(index, replies) is Done),
{
    reveal_with_fuel(run_from, 16);
}

/// What ended an assembly stays its outcome: replies that come after a
/// failure, or after the record, change nothing.
pub proof fn lemma_the_end_is_final(
    builder: DeviceBuilderView,
    replies: Seq<Reply>,
    later: Seq<Reply>,
    from: int,
)
    requires
        0 <= from,
        !(run_from(builder, replies, from) is More),
    ensures
        run_from(builder, replies + later, from) == run_from(builder, replies, from),
    decreases replies.len() - from,
{
    if from < replies.len() {
        match fed(builder, replies[from]) {
            ProgressView::More(next) => {
                lemma_the_end_is_final(next, replies, later, from + 1);
            },
            _ => {},
        }
    }
}

/// A step that fails does so with a failure that has a message: the
/// sentinel never ends an assembly. Nor does a missing library, which only
/// the opening of a session reports.
pub proof fn lemma_a_failed_step_says_why(builder: DeviceBuilderView, reply: Reply)
    requires
        fed(builder, reply) is Failed,
    ensures
        fed(builder, reply)->Failed_0.message is Some,
        fed(builder, reply)->Failed_0.kind != ErrorKind::LibraryNotFound,
{
}

/// An assembly whose lookup fails ends there, as a driver error with the
/// driver's text: no attribute is asked for and no file is read, whatever
/// replies might follow.
pub proof fn lemma_a_failed_lookup_ends_the_assembly(index: u32, replies: Seq<Reply>)
    requires
        replies.len() > 0,
        replies[0].status.code != SUCCESS,
    ensures
        run(index, replies) == ProgressView::Failed(
            failure(ErrorKind::DriverError, replies[0].status.text@),
        ),
{
}

} // verus!
