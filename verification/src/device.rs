//! The record of a device and its assembly, one driver call at a time.

use vstd::prelude::*;
use vstd::string::*;
use crate::bandwidth::{link_bandwidth, pci_bandwidth};
use crate::error::{outcome, Error, ErrorView, Result, SUCCESS};
use crate::handle::{bar1_of, capability_of, Handler};
use crate::numa::{node_path, numa_node, numa_path, resolved};
use crate::query::{
    Attribute, ClockType, Query, DEVICE_NAME_BUFFER_SIZE, DEVICE_PCI_BUS_ID_BUFFER_SIZE,
    DEVICE_UUID_BUFFER_SIZE,
};
use crate::reply::{handle_of, memory_of, text_of, unsigned_of, Payload, Reply};
use crate::session::{widened, NVML};
use crate::text::{decimal, push_decimal};

verus! {

/// Where a device sits on the PCI bus, and what the link can carry.
#[derive(Debug, Clone, PartialEq, Eq)]
pub struct PCIInfo {
    /// The bus id, as the driver writes it.
    pub bus_id: String,
    /// The size of the BAR1 region, in bytes.
    pub bar1: u64,
    /// The bandwidth of the link, in MB/s.
    pub bandwidth: u64,
}

/// The clocks of a device, in MHz.
#[derive(Debug, Clone, Copy, PartialEq, Eq, Structural)]
pub struct ClockInfo {
    pub cores: u64,
    pub memory: u64,
}

/// The ways in which two devices can be linked.
#[derive(Debug, Clone, Copy, PartialEq, Eq, Structural)]
pub enum P2PLinkType {
    P2PLinkUnknown,
    P2PLinkCrossCPU,
    P2PLinkSameCPU,
    P2PLinkHostBridge,
    P2PLinkMultiSwitch,
    P2PLinkSingleSwitch,
    P2PLinkSameBoard,
    SingleNVLINKLink,
    TwoNVLINKLinks,
    ThreeNVLINKLinks,
    FourNVLINKLinks,
    FiveNVLINKLinks,
    SixNVLINKLinks,
}

/// A link to the device with the given bus id.
#[derive(Debug, Clone, PartialEq, Eq)]
pub struct P2PLink {
    pub bus_id: String,
    pub link: P2PLinkType,
}

/// The CUDA compute capability of a device.
#[derive(Debug, Clone, Copy, PartialEq, Eq, Structural)]
pub struct CudaComputeCapabilityInfo {
    pub major: u64,
    pub minor: u64,
}

/// All that is known of one device. A record exists only as the outcome of
/// a complete assembly: each of its fields comes from a call that
/// succeeded, or is derived from such fields.
#[derive(Debug, Clone)]
pub struct Device<'s> {
    pub handler: Handler<'s>,
    pub uuid: String,
    /// The device's node under `/dev`.
    pub path: String,
    pub model: String,
    /// The power limit, in milliwatts.
    pub power: u64,
    /// The total memory, in bytes.
    pub memory: u64,
    /// The NUMA node next to the device; 0 where none is known.
    pub cpu_affinity: u64,
    pub pci: PCIInfo,
    pub clocks: ClockInfo,
    pub topology: Vec<i8>,
    pub cuda_compute_capability: CudaComputeCapabilityInfo,
}

/// The mathematical content of a [`Device`].
pub struct DeviceView {
    pub dev: usize,
    pub uuid: Seq<char>,
    pub path: Seq<char>,
    pub model: Seq<char>,
    pub power: u64,
    pub memory: u64,
    pub cpu_affinity: u64,
    pub bus_id: Seq<char>,
    pub bar1: u64,
    pub bandwidth: u64,
    pub clocks: ClockInfo,
    pub topology: Seq<i8>,
    pub cuda_compute_capability: CudaComputeCapabilityInfo,
}

impl<'s> View for Device<'s> {
    type V = DeviceView;

    open spec fn view(&self) -> DeviceView {
        DeviceView {
            dev: self.handler.dev,
            uuid: self.uuid@,
            path: self.path@,
            model: self.model@,
            power: self.power,
            memory: self.memory,
            cpu_affinity: self.cpu_affinity,
            bus_id: self.pci.bus_id@,
            bar1: self.pci.bar1,
            bandwidth: self.pci.bandwidth,
            clocks: self.clocks,
            topology: self.topology@,
            cuda_compute_capability: self.cuda_compute_capability,
        }
    }
}

impl Default for PCIInfo {
    /// No bus id and sizes of 0.
    fn default() -> (info: PCIInfo)
        ensures
            info.bus_id@ == Seq::<char>::empty(),
            info.bar1 == 0,
            info.bandwidth == 0,
    {
        PCIInfo { bus_id: String::new(), bar1: 0, bandwidth: 0 }
    }
}

impl Default for ClockInfo {
    /// Both clocks at 0.
    fn default() -> (info: ClockInfo)
        ensures
            info == (ClockInfo { cores: 0, memory: 0 }),
    {
        ClockInfo { cores: 0, memory: 0 }
    }
}

/// The path of the node of the device with the given minor number.
pub open spec fn node_name(minor_number: nat) -> Seq<char> {
    "/dev/nvidia"@ + decimal(minor_number)
}

/// Names the node of the device with the given minor number. Whether the
/// node exists is not looked at.
pub fn device_path(minor_number: u64) -> (path: String)
    ensures
        path@ == node_name(minor_number as nat),
{
    let mut path = String::from_str("/dev/nvidia");
    push_decimal(&mut path, minor_number);
    path
}

/// The steps of an assembly, in their order.
#[derive(Debug, Clone, Copy, PartialEq, Eq, Structural)]
pub enum Stage {
    Handle,
    Name,
    Uuid,
    MinorNumber,
    PowerManagementLimit,
    MemoryInfo,
    PciInfo,
    Bar1MemoryInfo,
    MaxPcieLinkGeneration,
    MaxPcieLinkWidth,
    CoreClock,
    MemoryClock,
    CudaComputeCapability,
    NumaNode,
}

/// The number of steps of an assembly.
pub const STAGES: usize = 14;

/// An assembly under way: the step whose reply is awaited, and what the
/// steps before it have given.
#[derive(Debug)]
pub struct DeviceBuilder<'s> {
    stage: Stage,
    index: u32,
    handler: Handler<'s>,
    model: String,
    uuid: String,
    minor_number: u32,
    power: u32,
    memory: u64,
    bus_id: String,
    bar1: u64,
    generation: u32,
    width: u32,
    cores: u32,
    memory_clock: u32,
    capability: CudaComputeCapabilityInfo,
}

/// The mathematical content of a [`DeviceBuilder`].
pub struct DeviceBuilderView {
    pub stage: Stage,
    pub index: u32,
    pub dev: usize,
    pub model: Seq<char>,
    pub uuid: Seq<char>,
    pub minor_number: u32,
    pub power: u32,
    pub memory: u64,
    pub bus_id: Seq<char>,
    pub bar1: u64,
    pub generation: u32,
    pub width: u32,
    pub cores: u32,
    pub memory_clock: u32,
    pub capability: CudaComputeCapabilityInfo,
}

impl<'s> View for DeviceBuilder<'s> {
    type V = DeviceBuilderView;

    closed spec fn view(&self) -> DeviceBuilderView {
        DeviceBuilderView {
            stage: self.stage,
            index: self.index,
            dev: self.handler.dev,
            model: self.model@,
            uuid: self.uuid@,
            minor_number: self.minor_number,
            power: self.power,
            memory: self.memory,
            bus_id: self.bus_id@,
            bar1: self.bar1,
            generation: self.generation,
            width: self.width,
            cores: self.cores,
            memory_clock: self.memory_clock,
            capability: self.capability,
        }
    }
}

/// What a reply does to an assembly.
#[derive(Debug)]
pub enum Progress<'s> {
    /// The step succeeded and was not the last.
    More(DeviceBuilder<'s>),
    /// The last step is done: here is the record.
    Done(Device<'s>),
    /// The step failed, and with it the assembly.
    Failed(Error),
}

/// The mathematical content of a [`Progress`].
pub enum ProgressView {
    More(DeviceBuilderView),
    Done(DeviceView),
    Failed(ErrorView),
}

impl<'s> View for Progress<'s> {
    type V = ProgressView;

    open spec fn view(&self) -> ProgressView {
        match self {
            Progress::More(builder) => ProgressView::More(builder@),
            Progress::Done(device) => ProgressView::Done(device@),
            Progress::Failed(error) => ProgressView::Failed(error@),
        }
    }
}

/// The assembly of the device at `index` before its first step.
pub open spec fn begun(index: u32) -> DeviceBuilderView {
    DeviceBuilderView {
        stage: Stage::Handle,
        index,
        dev: 0,
        model: Seq::empty(),
        uuid: Seq::empty(),
        minor_number: 0,
        power: 0,
        memory: 0,
        bus_id: Seq::empty(),
        bar1: 0,
        generation: 0,
        width: 0,
        cores: 0,
        memory_clock: 0,
        capability: CudaComputeCapabilityInfo { major: 0, minor: 0 },
    }
}

/// The attribute that a step asks the driver for; none for the first step
/// and the last, which ask for something else.
pub open spec fn attribute_of(stage: Stage) -> Option<Attribute> {
    match stage {
        Stage::Handle => None,
        Stage::Name => Some(Attribute::Name),
        Stage::Uuid => Some(Attribute::Uuid),
        Stage::MinorNumber => Some(Attribute::MinorNumber),
        Stage::PowerManagementLimit => Some(Attribute::PowerManagementLimit),
        Stage::MemoryInfo => Some(Attribute::MemoryInfo),
        Stage::PciInfo => Some(Attribute::PciInfo),
        Stage::Bar1MemoryInfo => Some(Attribute::Bar1MemoryInfo),
        Stage::MaxPcieLinkGeneration => Some(Attribute::MaxPcieLinkGeneration),
        Stage::MaxPcieLinkWidth => Some(Attribute::MaxPcieLinkWidth),
        Stage::CoreClock => Some(Attribute::ClockInfo(ClockType::Cores)),
        Stage::MemoryClock => Some(Attribute::ClockInfo(ClockType::Memory)),
        Stage::CudaComputeCapability => Some(Attribute::CudaComputeCapability),
        Stage::NumaNode => None,
    }
}

/// Whether `query` is what the assembly asks for at its step: first the
/// handle of the device at its index, then the attributes of that handle
/// one by one, at last the file named after the bus id.
pub open spec fn asks(builder: DeviceBuilderView, query: Query) -> bool {
    match query {
        Query::DeviceHandle(index) => builder.stage == Stage::Handle && index == builder.index,
        Query::Device(handle, attribute) => handle == builder.dev && attribute_of(builder.stage)
            == Some(attribute),
        Query::NumaNode(path) => builder.stage == Stage::NumaNode && path@ == node_path(
            builder.bus_id,
        ),
        _ => false,
    }
}

/// The node that the reply to the last step gives: the node in the file,
/// and 0 where the reply holds no file.
pub open spec fn node_in(reply: Reply) -> u64 {
    if reply.status.code == SUCCESS {
        match reply.payload {
            Payload::File(Some(content)) => resolved(Some(content@)),
            _ => 0,
        }
    } else {
        0
    }
}

/// The record that a finished assembly gives, with the fields that are
/// derived: the path from the minor number, the bandwidth from width and
/// generation of the link.
pub open spec fn record(builder: DeviceBuilderView, node: u64) -> DeviceView {
    DeviceView {
        dev: builder.dev,
        uuid: builder.uuid,
        path: node_name(builder.minor_number as nat),
        model: builder.model,
        power: builder.power as u64,
        memory: builder.memory,
        cpu_affinity: node,
        bus_id: builder.bus_id,
        bar1: builder.bar1,
        bandwidth: link_bandwidth(builder.width as int, builder.generation as int) as u64,
        clocks: ClockInfo { cores: builder.cores as u64, memory: builder.memory_clock as u64 },
        topology: Seq::empty(),
        cuda_compute_capability: builder.capability,
    }
}

/// What a reply does to an assembly: a failure ends it with that failure,
/// a success fills in what the step asked for and moves on to the next
/// step, and the last step, which cannot fail, gives the record. The
/// failure of the first step, the lookup of the handle, is a driver error
/// whatever its code; the failure of an attribute keeps its kind.
pub open spec fn fed(builder: DeviceBuilderView, reply: Reply) -> ProgressView {
    match builder.stage {
        Stage::Handle => match handle_of(reply) {
            Ok(dev) => ProgressView::More(DeviceBuilderView { stage: Stage::Name, dev, ..builder }),
            Err(error) => ProgressView::Failed(error),
        },
        Stage::Name => match text_of(reply, DEVICE_NAME_BUFFER_SIZE as nat) {
            Ok(model) => ProgressView::More(
                DeviceBuilderView { stage: Stage::Uuid, model, ..builder },
            ),
            Err(error) => ProgressView::Failed(error),
        },
        Stage::Uuid => match text_of(reply, DEVICE_UUID_BUFFER_SIZE as nat) {
            Ok(uuid) => ProgressView::More(
                DeviceBuilderView { stage: Stage::MinorNumber, uuid, ..builder },
            ),
            Err(error) => ProgressView::Failed(error),
        },
        Stage::MinorNumber => match unsigned_of(reply) {
            Ok(minor_number) => ProgressView::More(
                DeviceBuilderView { stage: Stage::PowerManagementLimit, minor_number, ..builder },
            ),
            Err(error) => ProgressView::Failed(error),
        },
        Stage::PowerManagementLimit => match unsigned_of(reply) {
            Ok(power) => ProgressView::More(
                DeviceBuilderView { stage: Stage::MemoryInfo, power, ..builder },
            ),
            Err(error) => ProgressView::Failed(error),
        },
        Stage::MemoryInfo => match memory_of(reply) {
            Ok(memory) => ProgressView::More(
                DeviceBuilderView { stage: Stage::PciInfo, memory: memory.total, ..builder },
            ),
            Err(error) => ProgressView::Failed(error),
        },
        Stage::PciInfo => match text_of(reply, DEVICE_PCI_BUS_ID_BUFFER_SIZE as nat) {
            Ok(bus_id) => ProgressView::More(
                DeviceBuilderView { stage: Stage::Bar1MemoryInfo, bus_id, ..builder },
            ),
            Err(error) => ProgressView::Failed(error),
        },
        Stage::Bar1MemoryInfo => match bar1_of(reply) {
            Ok(sizes) => ProgressView::More(
                DeviceBuilderView { stage: Stage::MaxPcieLinkGeneration, bar1: sizes.0, ..builder },
            ),
            Err(error) => ProgressView::Failed(error),
        },
        Stage::MaxPcieLinkGeneration => match unsigned_of(reply) {
            Ok(generation) => ProgressView::More(
                DeviceBuilderView { stage: Stage::MaxPcieLinkWidth, generation, ..builder },
            ),
            Err(error) => ProgressView::Failed(error),
        },
        Stage::MaxPcieLinkWidth => match unsigned_of(reply) {
            Ok(width) => ProgressView::More(
                DeviceBuilderView { stage: Stage::CoreClock, width, ..builder },
            ),
            Err(error) => ProgressView::Failed(error),
        },
        Stage::CoreClock => match unsigned_of(reply) {
            Ok(cores) => ProgressView::More(
                DeviceBuilderView { stage: Stage::MemoryClock, cores, ..builder },
            ),
            Err(error) => ProgressView::Failed(error),
        },
        Stage::MemoryClock => match unsigned_of(reply) {
            Ok(memory_clock) => ProgressView::More(
                DeviceBuilderView { stage: Stage::CudaComputeCapability, memory_clock, ..builder },
            ),
            Err(error) => ProgressView::Failed(error),
        },
        Stage::CudaComputeCapability => match capability_of(reply) {
            Ok(pair) => ProgressView::More(
                DeviceBuilderView {
                    stage: Stage::NumaNode,
                    capability: CudaComputeCapabilityInfo { major: pair.0, minor: pair.1 },
                    ..builder
                },
            ),
            Err(error) => ProgressView::Failed(error),
        },
        Stage::NumaNode => ProgressView::Done(record(builder, node_in(reply))),
    }
}

impl<'s> Device<'s> {
    /// Begins the assembly of the record of the device at `index`. No call
    /// has been made yet: the assembly says which to make, and takes the
    /// replies.
    pub fn new(session: &'s NVML, index: u32) -> (builder: DeviceBuilder<'s>)
        ensures
            builder@ == begun(index),
    {
        DeviceBuilder {
            stage: Stage::Handle,
            index,
            handler: Handler { session, dev: 0 },
            model: String::new(),
            uuid: String::new(),
            minor_number: 0,
            power: 0,
            memory: 0,
            bus_id: String::new(),
            bar1: 0,
            generation: 0,
            width: 0,
            cores: 0,
            memory_clock: 0,
            capability: CudaComputeCapabilityInfo { major: 0, minor: 0 },
        }
    }

    /// The reading of one of the device's sensors, in degrees Celsius,
    /// given the reply to the query for it.
    pub fn get_temperature(&self, reply: &Reply) -> (result: Result<u64>)
        ensures
            outcome(result) == widened(unsigned_of(*reply)),
    {
        self.handler.get_temperature(reply)
    }
}

impl<'s> DeviceBuilder<'s> {
    /// The step whose reply is awaited.
    pub fn stage(&self) -> (stage: Stage)
        ensures
            stage == self@.stage,
    {
        self.stage
    }

    /// What to ask for at this step.
    pub fn query(&self) -> (query: Query)
        ensures
            asks(self@, query),
    {
        let handle: usize = self.handler.dev;
        match self.stage {
            Stage::Handle => Query::DeviceHandle(self.index),
            Stage::Name => Query::Device(handle, Attribute::Name),
            Stage::Uuid => Query::Device(handle, Attribute::Uuid),
            Stage::MinorNumber => Query::Device(handle, Attribute::MinorNumber),
            Stage::PowerManagementLimit => Query::Device(handle, Attribute::PowerManagementLimit),
            Stage::MemoryInfo => Query::Device(handle, Attribute::MemoryInfo),
            Stage::PciInfo => Query::Device(handle, Attribute::PciInfo),
            Stage::Bar1MemoryInfo => Query::Device(handle, Attribute::Bar1MemoryInfo),
            Stage::MaxPcieLinkGeneration => Query::Device(handle, Attribute::MaxPcieLinkGeneration),
            Stage::MaxPcieLinkWidth => Query::Device(handle, Attribute::MaxPcieLinkWidth),
            Stage::CoreClock => Query::Device(handle, Attribute::ClockInfo(ClockType::Cores)),
            Stage::MemoryClock => Query::Device(handle, Attribute::ClockInfo(ClockType::Memory)),
            Stage::CudaComputeCapability => Query::Device(handle, Attribute::CudaComputeCapability),
            Stage::NumaNode => Query::NumaNode(numa_path(self.bus_id.as_str())),
        }
    }

    /// Takes the reply to what this step asked for.
    pub fn feed(self, reply: &Reply) -> (progress: Progress<'s>)
        ensures
            progress@ == fed(self@, *reply),
    {
        let mut builder = self;
        match builder.stage {
            Stage::Handle => match Handler::new(builder.handler.session, reply) {
                Ok(handler) => {
                    builder.handler = handler;
                    builder.stage = Stage::Name;
                    Progress::More(builder)
                },
                Err(error) => Progress::Failed(error),
            },
            Stage::Name => match builder.handler.get_name(reply) {
                Ok(model) => {
                    builder.model = model;
                    builder.stage = Stage::Uuid;
                    Progress::More(builder)
                },
                Err(error) => Progress::Failed(error),
            },
            Stage::Uuid => match builder.handler.get_uuid(reply) {
                Ok(uuid) => {
                    builder.uuid = uuid;
                    builder.stage = Stage::MinorNumber;
                    Progress::More(builder)
                },
                Err(error) => Progress::Failed(error),
            },
            Stage::MinorNumber => match reply.unsigned() {
                Ok(minor_number) => {
                    builder.minor_number = minor_number;
                    builder.stage = Stage::PowerManagementLimit;
                    Progress::More(builder)
                },
                Err(error) => Progress::Failed(error),
            },
            Stage::PowerManagementLimit => match reply.unsigned() {
                Ok(power) => {
                    builder.power = power;
                    builder.stage = Stage::MemoryInfo;
                    Progress::More(builder)
                },
                Err(error) => Progress::Failed(error),
            },
            Stage::MemoryInfo => match builder.handler.get_memory_info(reply) {
                Ok(memory) => {
                    builder.memory = memory.total;
                    builder.stage = Stage::PciInfo;
                    Progress::More(builder)
                },
                Err(error) => Progress::Failed(error),
            },
            Stage::PciInfo => match builder.handler.get_pci_info(reply) {
                Ok(bus_id) => {
                    builder.bus_id = bus_id;
                    builder.stage = Stage::Bar1MemoryInfo;
                    Progress::More(builder)
                },
                Err(error) => Progress::Failed(error),
            },
            Stage::Bar1MemoryInfo => match builder.handler.get_bar1_memory_info(reply) {
                Ok(sizes) => {
                    builder.bar1 = sizes.0;
                    builder.stage = Stage::MaxPcieLinkGeneration;
                    Progress::More(builder)
                },
                Err(error) => Progress::Failed(error),
            },
            Stage::MaxPcieLinkGeneration => match reply.unsigned() {
                Ok(generation) => {
                    builder.generation = generation;
                    builder.stage = Stage::MaxPcieLinkWidth;
                    Progress::More(builder)
                },
                Err(error) => Progress::Failed(error),
            },
            Stage::MaxPcieLinkWidth => match reply.unsigned() {
                Ok(width) => {
                    builder.width = width;
                    builder.stage = Stage::CoreClock;
                    Progress::More(builder)
                },
                Err(error) => Progress::Failed(error),
            },
            Stage::CoreClock => match reply.unsigned() {
                Ok(cores) => {
                    builder.cores = cores;
                    builder.stage = Stage::MemoryClock;
                    Progress::More(builder)
                },
                Err(error) => Progress::Failed(error),
            },
            Stage::MemoryClock => match reply.unsigned() {
                Ok(memory_clock) => {
                    builder.memory_clock = memory_clock;
                    builder.stage = Stage::CudaComputeCapability;
                    Progress::More(builder)
                },
                Err(error) => Progress::Failed(error),
            },
            Stage::CudaComputeCapability => match builder.handler.get_cuda_compute_capability(
                reply,
            ) {
                Ok(pair) => {
                    builder.capability = CudaComputeCapabilityInfo { major: pair.0, minor: pair.1 };
                    builder.stage = Stage::NumaNode;
                    Progress::More(builder)
                },
                Err(error) => Progress::Failed(error),
            },
            Stage::NumaNode => {
                let node: u64 = if reply.status.is_success() {
                    match &reply.payload {
                        Payload::File(Some(content)) => numa_node(Some(content.as_str())),
                        _ => 0,
                    }
                } else {
                    0
                };
                Progress::Done(
                    Device {
                        handler: builder.handler,
                        uuid: builder.uuid,
                        path: device_path(builder.minor_number as u64),
                        model: builder.model,
                        power: builder.power as u64,
                        memory: builder.memory,
                        cpu_affinity: node,
                        pci: PCIInfo {
                            bus_id: builder.bus_id,
                            bar1: builder.bar1,
                            bandwidth: pci_bandwidth(builder.generation, builder.width),
                        },
                        clocks: ClockInfo {
                            cores: builder.cores as u64,
                            memory: builder.memory_clock as u64,
                        },
                        topology: Vec::new(),
                        cuda_compute_capability: builder.capability,
                    },
                )
            },
        }
    }
}

} // verus!
