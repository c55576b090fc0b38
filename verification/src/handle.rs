//! The handle of a device and the reading of each of its attributes.

use vstd::prelude::*;
use crate::error::{outcome, text_outcome, ErrorView, Result};
use crate::query::{
    DEVICE_NAME_BUFFER_SIZE, DEVICE_PCI_BUS_ID_BUFFER_SIZE, DEVICE_UUID_BUFFER_SIZE,
};
use crate::reply::{handle_of, memory_of, pair_of, text_of, unsigned_of, Memory, Reply};
use crate::session::{natural, quantity, widened, NVML};

verus! {

/// The driver's reference to one device. It is an identity and owns
/// nothing; it is good for as long as the session that it borrows.
#[derive(Debug, Clone, Copy)]
pub struct Handler<'s> {
    pub session: &'s NVML,
    pub dev: usize,
}

/// Total and used size of a device's BAR1 region, as the reply gives them.
pub open spec fn bar1_of(reply: Reply) -> std::result::Result<(u64, u64), ErrorView> {
    match memory_of(reply) {
        Ok(memory) => Ok((memory.total, memory.used)),
        Err(error) => Err(error),
    }
}

/// Two signed numbers of the driver as quantities; the first that is
/// negative fails.
pub open spec fn naturals(pair: (i32, i32)) -> std::result::Result<(u64, u64), ErrorView> {
    match natural(pair.0) {
        Ok(first) => match natural(pair.1) {
            Ok(second) => Ok((first, second)),
            Err(error) => Err(error),
        },
        Err(error) => Err(error),
    }
}

/// Major and minor number of a device's compute capability, as the reply
/// gives them.
pub open spec fn capability_of(reply: Reply) -> std::result::Result<(u64, u64), ErrorView> {
    match pair_of(reply) {
        Ok(pair) => naturals(pair),
        Err(error) => Err(error),
    }
}

/// The two clocks of a device, from the clock of the cores, which is known
/// already, and the reply to the query for the clock of the memory.
pub open spec fn clocks_with(cores: u64, memory: Reply) -> std::result::Result<
    (u64, u64),
    ErrorView,
> {
    match unsigned_of(memory) {
        Ok(memory) => Ok((cores, memory as u64)),
        Err(error) => Err(error),
    }
}

/// The two clocks of a device from the replies to the two queries. Where
/// the first fails, its failure is the outcome and the second reply is not
/// looked at.
pub open spec fn clocks_of(cores: Reply, memory: Reply) -> std::result::Result<
    (u64, u64),
    ErrorView,
> {
    match unsigned_of(cores) {
        Ok(cores) => clocks_with(cores as u64, memory),
        Err(error) => Err(error),
    }
}

impl<'s> Handler<'s> {
    /// The handle of a device, given the reply to its lookup by index. A
    /// lookup that the driver refuses, for an index out of range or for
    /// any other reason, is a driver error.
    pub fn new(session: &'s NVML, reply: &Reply) -> (result: Result<Handler<'s>>)
        ensures
            match result {
                Ok(handler) => handle_of(*reply) == Ok::<usize, ErrorView>(handler.dev),
                Err(error) => handle_of(*reply) == Err::<usize, ErrorView>(error@),
            },
    {
        let dev: usize = reply.handle()?;
        Ok(Handler { session, dev })
    }

    /// The device's product name.
    pub fn get_name(&self, reply: &Reply) -> (result: Result<String>)
        ensures
            text_outcome(result) == text_of(*reply, DEVICE_NAME_BUFFER_SIZE as nat),
    {
        reply.text(DEVICE_NAME_BUFFER_SIZE)
    }

    /// The device's globally unique id.
    pub fn get_uuid(&self, reply: &Reply) -> (result: Result<String>)
        ensures
            text_outcome(result) == text_of(*reply, DEVICE_UUID_BUFFER_SIZE as nat),
    {
        reply.text(DEVICE_UUID_BUFFER_SIZE)
    }

    /// The device's PCI bus id, given the bus id field of its PCI
    /// description.
    pub fn get_pci_info(&self, reply: &Reply) -> (result: Result<String>)
        ensures
            text_outcome(result) == text_of(*reply, DEVICE_PCI_BUS_ID_BUFFER_SIZE as nat),
    {
        reply.text(DEVICE_PCI_BUS_ID_BUFFER_SIZE)
    }

    /// Total and used size of the device's BAR1 region, in bytes.
    pub fn get_bar1_memory_info(&self, reply: &Reply) -> (result: Result<(u64, u64)>)
        ensures
            outcome(result) == bar1_of(*reply),
    {
        let memory: Memory = reply.memory()?;
        Ok((memory.total, memory.used))
    }

    /// The clock of the device's cores, in MHz: the first of the two
    /// queries for the clocks. Only where it has succeeded is there a
    /// value to go on with, and so a reason to make the second.
    pub fn get_core_clock(&self, reply: &Reply) -> (result: Result<u64>)
        ensures
            outcome(result) == widened(unsigned_of(*reply)),
    {
        self.get_one_integer(reply)
    }

    /// The clocks of the device's cores and of its memory, in MHz, given
    /// the clock of the cores and the reply to the query for the clock of
    /// the memory.
    pub fn get_clock_info(&self, cores: u64, memory: &Reply) -> (result: Result<(u64, u64)>)
        ensures
            outcome(result) == clocks_with(cores, *memory),
    {
        let memory: u32 = memory.unsigned()?;
        Ok((cores, memory as u64))
    }

    /// Major and minor number of the device's compute capability.
    pub fn get_cuda_compute_capability(&self, reply: &Reply) -> (result: Result<(u64, u64)>)
        ensures
            outcome(result) == capability_of(*reply),
    {
        let pair: (i32, i32) = reply.pair()?;
        let major: u64 = quantity(pair.0)?;
        let minor: u64 = quantity(pair.1)?;
        Ok((major, minor))
    }

    /// The sizes of the device's memory, in bytes.
    pub fn get_memory_info(&self, reply: &Reply) -> (result: Result<Memory>)
        ensures
            outcome(result) == memory_of(*reply),
    {
        reply.memory()
    }

    /// The number of the device's node under `/dev`.
    pub fn get_minor_number(&self, reply: &Reply) -> (result: Result<u64>)
        ensures
            outcome(result) == widened(unsigned_of(*reply)),
    {
        self.get_one_integer(reply)
    }

    /// The device's power limit, in milliwatts.
    pub fn get_power_management_limit(&self, reply: &Reply) -> (result: Result<u64>)
        ensures
            outcome(result) == widened(unsigned_of(*reply)),
    {
        self.get_one_integer(reply)
    }

    /// The highest PCI Express generation that device and slot support.
    pub fn get_max_pcie_link_generation(&self, reply: &Reply) -> (result: Result<u64>)
        ensures
            outcome(result) == widened(unsigned_of(*reply)),
    {
        self.get_one_integer(reply)
    }

    /// The largest number of PCI Express lanes that device and slot
    /// support.
    pub fn get_max_pcie_link_width(&self, reply: &Reply) -> (result: Result<u64>)
        ensures
            outcome(result) == widened(unsigned_of(*reply)),
    {
        self.get_one_integer(reply)
    }

    /// The reading of one of the device's sensors, in degrees Celsius.
    pub fn get_temperature(&self, reply: &Reply) -> (result: Result<u64>)
        ensures
            outcome(result) == widened(unsigned_of(*reply)),
    {
        self.get_one_integer(reply)
    }

    fn get_one_integer(&self, reply: &Reply) -> (result: Result<u64>)
        ensures
            outcome(result) == widened(unsigned_of(*reply)),
    {
        let value: u32 = reply.unsigned()?;
        Ok(value as u64)
    }
}

/// Reading the clocks in two steps gives what the two replies describe
/// together: the failure of the first query, or else what the second
/// adds to the value of the first.
pub proof fn lemma_clocks_in_two_steps(cores: Reply, memory: Reply)
    ensures
        clocks_of(cores, memory) == match widened(unsigned_of(cores)) {
            Ok(cores) => clocks_with(cores, memory),
            Err(error) => Err(error),
        },
{
}

} // verus!
