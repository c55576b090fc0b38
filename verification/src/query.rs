//! The calls that the library asks its caller to make.

use vstd::prelude::*;

verus! {

/// Bytes in the buffer for a device's name.
pub const DEVICE_NAME_BUFFER_SIZE: usize = 64;

/// Bytes in the buffer for a device's UUID.
pub const DEVICE_UUID_BUFFER_SIZE: usize = 80;

/// Bytes in the field for a device's PCI bus id.
pub const DEVICE_PCI_BUS_ID_BUFFER_SIZE: usize = 32;

/// Bytes in the buffer for the driver's version.
pub const SYSTEM_DRIVER_VERSION_BUFFER_SIZE: usize = 80;

/// Bytes in the buffer for the management library's version.
pub const SYSTEM_NVML_VERSION_BUFFER_SIZE: usize = 80;

/// Bytes in each text field of a unit's description.
pub const UNIT_INFO_FIELD_SIZE: usize = 96;

/// Bytes in the text field of a unit's LED state and of its power supply
/// state.
pub const UNIT_STATE_FIELD_SIZE: usize = 256;

/// Entries in the array of a unit's fans.
pub const UNIT_FAN_CAPACITY: usize = 24;

/// The temperature sensors of a device. `COUNT` is the driver's marker for
/// the number of sensor kinds.
#[derive(Debug, Clone, Copy, PartialEq, Eq, Structural)]
pub enum DeviceSensorType {
    GPU,
    COUNT,
}

/// The places in an enclosure where its temperature is taken.
#[derive(Debug, Clone, Copy, PartialEq, Eq, Structural)]
pub enum TemperatureType {
    Intake,
    Exhaust,
    Board,
}

/// The two clocks of a device that are read.
#[derive(Debug, Clone, Copy, PartialEq, Eq, Structural)]
pub enum ClockType {
    Cores,
    Memory,
}

/// What can be asked of a device.
#[derive(Debug, Clone, Copy, PartialEq, Eq, Structural)]
pub enum Attribute {
    Name,
    Uuid,
    MinorNumber,
    PowerManagementLimit,
    MemoryInfo,
    PciInfo,
    Bar1MemoryInfo,
    MaxPcieLinkGeneration,
    MaxPcieLinkWidth,
    ClockInfo(ClockType),
    CudaComputeCapability,
    Temperature(DeviceSensorType),
}

/// What can be asked of an enclosure unit. The device list is asked for
/// with the number of entries that the caller's array has.
#[derive(Debug, Clone, Copy, PartialEq, Eq, Structural)]
pub enum UnitAttribute {
    Info,
    LedState,
    PsuInfo,
    FanSpeedInfo,
    Devices(u32),
    Temperature(TemperatureType),
}

/// One piece of work outside the library: a call of the driver, or the
/// reading of a device's NUMA node file.
#[derive(Debug, Clone, PartialEq, Eq)]
pub enum Query {
    /// Initialise the driver: the call that opens a session.
    Init,
    /// Shut the driver down: the call that ends a session.
    Shutdown,
    /// The number of devices.
    DeviceCount,
    /// The number of enclosure units.
    UnitCount,
    /// The version of the driver, as text.
    DriverVersion,
    /// The version of the management library, as text.
    LibraryVersion,
    /// The version of the CUDA driver, as a number.
    CudaDriverVersion,
    /// The handle of the device at an index.
    DeviceHandle(u32),
    /// The handle of the unit at an index.
    UnitHandle(u32),
    /// An attribute of the device behind a handle.
    Device(usize, Attribute),
    /// An attribute of the unit behind a handle.
    Unit(usize, UnitAttribute),
    /// The content of the file at a path.
    NumaNode(String),
}

/// The driver's ordinal of a device sensor.
pub open spec fn sensor_ordinal(sensor: DeviceSensorType) -> u32 {
    match sensor {
        DeviceSensorType::GPU => 0,
        DeviceSensorType::COUNT => 1,
    }
}

/// The driver's ordinal of a place in an enclosure.
pub open spec fn place_ordinal(place: TemperatureType) -> u64 {
    match place {
        TemperatureType::Intake => 0,
        TemperatureType::Exhaust => 1,
        TemperatureType::Board => 2,
    }
}

impl From<DeviceSensorType> for u32 {
    fn from(sensor: DeviceSensorType) -> (ordinal: u32) {
        match sensor {
            DeviceSensorType::GPU => 0,
            DeviceSensorType::COUNT => 1,
        }
    }
}

impl vstd::std_specs::convert::FromSpecImpl<DeviceSensorType> for u32 {
    open spec fn obeys_from_spec() -> bool {
        true
    }

    open spec fn from_spec(sensor: DeviceSensorType) -> u32 {
        sensor_ordinal(sensor)
    }
}

impl From<TemperatureType> for u64 {
    fn from(place: TemperatureType) -> (ordinal: u64) {
        match place {
            TemperatureType::Intake => 0,
            TemperatureType::Exhaust => 1,
            TemperatureType::Board => 2,
        }
    }
}

impl vstd::std_specs::convert::FromSpecImpl<TemperatureType> for u64 {
    open spec fn obeys_from_spec() -> bool {
        true
    }

    open spec fn from_spec(place: TemperatureType) -> u64 {
        place_ordinal(place)
    }
}

/// The size of the text buffer that a call fills, and 0 for a call that
/// fills none. Text that comes inside a larger structure has its size from
/// that structure and is not counted here.
pub open spec fn buffer_size(query: Query) -> usize {
    match query {
        Query::DriverVersion => SYSTEM_DRIVER_VERSION_BUFFER_SIZE,
        Query::LibraryVersion => SYSTEM_NVML_VERSION_BUFFER_SIZE,
        Query::Device(_, attribute) => match attribute {
            Attribute::Name => DEVICE_NAME_BUFFER_SIZE,
            Attribute::Uuid => DEVICE_UUID_BUFFER_SIZE,
            _ => 0,
        },
        _ => 0,
    }
}

impl Query {
    /// The size of the text buffer to hand to the call.
    pub fn capacity(&self) -> (size: usize)
        ensures
            size == buffer_size(*self),
    {
        match self {
            Query::DriverVersion => SYSTEM_DRIVER_VERSION_BUFFER_SIZE,
            Query::LibraryVersion => SYSTEM_NVML_VERSION_BUFFER_SIZE,
            Query::Device(_, Attribute::Name) => DEVICE_NAME_BUFFER_SIZE,
            Query::Device(_, Attribute::Uuid) => DEVICE_UUID_BUFFER_SIZE,
            _ => 0,
        }
    }
}

/// Distinct sensors and distinct places have distinct ordinals.
pub proof fn lemma_ordinals_are_distinct(
    first: DeviceSensorType,
    second: DeviceSensorType,
    here: TemperatureType,
    there: TemperatureType,
)
    ensures
        sensor_ordinal(first) == sensor_ordinal(second) ==> first == second,
        place_ordinal(here) == place_ordinal(there) ==> here == there,
{
}

} // verus!
