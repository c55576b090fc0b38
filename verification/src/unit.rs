//! Enclosure units: the chassis parts that several devices share.

use vstd::prelude::*;
use crate::error::{
    failure, outcome, query_failure, Error, ErrorKind, ErrorView, Result, SUCCESS,
};
use crate::handle::Handler;
use crate::query::{
    Query, UnitAttribute, UNIT_FAN_CAPACITY, UNIT_INFO_FIELD_SIZE, UNIT_STATE_FIELD_SIZE,
};
use crate::reply::{handle_of, mismatch, unsigned_of, Fan, Payload, Reply};
use crate::session::{widened, NVML};
use crate::text::{decode, decoded};

verus! {

/// The driver's reference to one enclosure unit. Like the handle of a
/// device it is good for as long as the session that it borrows.
#[derive(Debug, Clone, Copy)]
pub struct Unit<'s> {
    pub session: &'s NVML,
    pub handle: usize,
}

/// The description of a unit.
#[derive(Debug, Clone, PartialEq, Eq)]
pub struct UnitInfo {
    pub name: String,
    pub id: String,
    pub serial: String,
    pub firmware_version: String,
}

/// The mathematical content of a [`UnitInfo`].
pub struct UnitInfoView {
    pub name: Seq<char>,
    pub id: Seq<char>,
    pub serial: Seq<char>,
    pub firmware_version: Seq<char>,
}

impl View for UnitInfo {
    type V = UnitInfoView;

    open spec fn view(&self) -> UnitInfoView {
        UnitInfoView {
            name: self.name@,
            id: self.id@,
            serial: self.serial@,
            firmware_version: self.firmware_version@,
        }
    }
}

/// The state of a unit's LED: the ordinal of its colour, and the cause
/// where the colour signals a fault.
#[derive(Debug, Clone, PartialEq, Eq)]
pub struct LedState {
    pub cause: String,
    pub color: u32,
}

/// The state of a unit's power supply, with current, voltage and power in
/// the driver's units.
#[derive(Debug, Clone, PartialEq, Eq)]
pub struct PsuInfo {
    pub state: String,
    pub current: u32,
    pub voltage: u32,
    pub power: u32,
}

/// The message of the failure to read a list whose count is larger than
/// the array it came in.
pub open spec fn overlong() -> Seq<char> {
    "the driver counted more entries than the array holds"@
}

/// The first `count` entries of an array of which no more than `capacity`
/// may be read; a local failure where the count reaches beyond the array
/// or beyond that capacity.
pub open spec fn counted<T>(entries: Seq<T>, count: u32, capacity: nat) -> std::result::Result<
    Seq<T>,
    ErrorView,
> {
    if count <= entries.len() && count <= capacity {
        Ok(entries.take(count as int))
    } else {
        Err(failure(ErrorKind::LocalError, overlong()))
    }
}

/// The description of a unit in a reply. Of the four texts the first that
/// is ill-formed gives the failure.
pub open spec fn info_of(reply: Reply) -> std::result::Result<UnitInfoView, ErrorView> {
    if reply.status.code != SUCCESS {
        Err(query_failure(reply.status))
    } else {
        match reply.payload {
            Payload::UnitInfo { name, id, serial, firmware_version } => match decoded(
                name@,
                UNIT_INFO_FIELD_SIZE as nat,
            ) {
                Err(error) => Err(error),
                Ok(name) => match decoded(id@, UNIT_INFO_FIELD_SIZE as nat) {
                    Err(error) => Err(error),
                    Ok(id) => match decoded(serial@, UNIT_INFO_FIELD_SIZE as nat) {
                        Err(error) => Err(error),
                        Ok(serial) => match decoded(
                            firmware_version@,
                            UNIT_INFO_FIELD_SIZE as nat,
                        ) {
                            Err(error) => Err(error),
                            Ok(firmware_version) => Ok(
                                UnitInfoView { name, id, serial, firmware_version },
                            ),
                        },
                    },
                },
            },
            _ => Err(mismatch()),
        }
    }
}

/// The LED state in a reply: cause and colour.
pub open spec fn led_of(reply: Reply) -> std::result::Result<(Seq<char>, u32), ErrorView> {
    if reply.status.code != SUCCESS {
        Err(query_failure(reply.status))
    } else {
        match reply.payload {
            Payload::Led { cause, color } => match decoded(cause@, UNIT_STATE_FIELD_SIZE as nat) {
                Err(error) => Err(error),
                Ok(cause) => Ok((cause, color)),
            },
            _ => Err(mismatch()),
        }
    }
}

/// The power supply state in a reply: state, current, voltage and power.
pub open spec fn psu_of(reply: Reply) -> std::result::Result<
    (Seq<char>, u32, u32, u32),
    ErrorView,
> {
    if reply.status.code != SUCCESS {
        Err(query_failure(reply.status))
    } else {
        match reply.payload {
            Payload::Psu { state, current, voltage, power } => match decoded(
                state@,
                UNIT_STATE_FIELD_SIZE as nat,
            ) {
                Err(error) => Err(error),
                Ok(state) => Ok((state, current, voltage, power)),
            },
            _ => Err(mismatch()),
        }
    }
}

/// The fans in a reply: as many from the start of the array as the driver
/// counted.
pub open spec fn fans_of(reply: Reply) -> std::result::Result<Seq<Fan>, ErrorView> {
    if reply.status.code != SUCCESS {
        Err(query_failure(reply.status))
    } else {
        match reply.payload {
            Payload::Fans { fans, count } => counted(fans@, count, UNIT_FAN_CAPACITY as nat),
            _ => Err(mismatch()),
        }
    }
}

/// The device handles in a reply: as many from the start of the array as
/// the driver counted.
pub open spec fn devices_of(reply: Reply) -> std::result::Result<Seq<usize>, ErrorView> {
    if reply.status.code != SUCCESS {
        Err(query_failure(reply.status))
    } else {
        match reply.payload {
            Payload::Devices { handles, count } => counted(handles@, count, handles@.len()),
            _ => Err(mismatch()),
        }
    }
}

/// The query for the devices of the unit behind `handle`, from the reply to
/// the count of the system's devices: that count is the size of the array.
pub open spec fn list_query(handle: usize, count: Reply) -> std::result::Result<
    Query,
    ErrorView,
> {
    match unsigned_of(count) {
        Ok(capacity) => Ok(Query::Unit(handle, UnitAttribute::Devices(capacity))),
        Err(error) => Err(error),
    }
}

/// Every failure to read what a unit answered has a message: none is the
/// sentinel. And none tells of a missing library.
pub proof fn lemma_unit_failures_have_messages(reply: Reply)
    ensures
        info_of(reply) is Err ==> info_of(reply)->Err_0.message is Some,
        led_of(reply) is Err ==> led_of(reply)->Err_0.message is Some,
        psu_of(reply) is Err ==> psu_of(reply)->Err_0.message is Some,
        fans_of(reply) is Err ==> fans_of(reply)->Err_0.message is Some,
        devices_of(reply) is Err ==> devices_of(reply)->Err_0.message is Some,
        info_of(reply) is Err ==> info_of(reply)->Err_0.kind != ErrorKind::LibraryNotFound,
        led_of(reply) is Err ==> led_of(reply)->Err_0.kind != ErrorKind::LibraryNotFound,
        psu_of(reply) is Err ==> psu_of(reply)->Err_0.kind != ErrorKind::LibraryNotFound,
        fans_of(reply) is Err ==> fans_of(reply)->Err_0.kind != ErrorKind::LibraryNotFound,
        devices_of(reply) is Err ==> devices_of(reply)->Err_0.kind
            != ErrorKind::LibraryNotFound,
{
}

/// A counted list is as long as the count says and holds the array's
/// entries in their order.
pub proof fn lemma_counted_is_a_prefix<T>(entries: Seq<T>, count: u32, capacity: nat)
    requires
        counted(entries, count, capacity) is Ok,
    ensures
        counted(entries, count, capacity)->Ok_0.len() == count,
        forall|i: int|
            0 <= i < count ==> counted(entries, count, capacity)->Ok_0[i] == entries[i],
{
}

impl<'s> Unit<'s> {
    /// The handle of a unit, given the reply to its lookup by index. A
    /// lookup that the driver refuses, for an index out of range or for
    /// any other reason, is a driver error.
    pub fn new(session: &'s NVML, reply: &Reply) -> (result: Result<Unit<'s>>)
        ensures
            match result {
                Ok(unit) => handle_of(*reply) == Ok::<usize, ErrorView>(unit.handle),
                Err(error) => handle_of(*reply) == Err::<usize, ErrorView>(error@),
            },
    {
        let handle: usize = reply.handle()?;
        Ok(Unit { session, handle })
    }

    /// The unit's description.
    pub fn info(&self, reply: &Reply) -> (result: Result<UnitInfo>)
        ensures
            match result {
                Ok(info) => info_of(*reply) == Ok::<UnitInfoView, ErrorView>(info@),
                Err(error) => info_of(*reply) == Err::<UnitInfoView, ErrorView>(error@),
            },
    {
        reply.check()?;
        match &reply.payload {
            Payload::UnitInfo { name, id, serial, firmware_version } => {
                let name = decode(name.as_slice(), UNIT_INFO_FIELD_SIZE)?;
                let id = decode(id.as_slice(), UNIT_INFO_FIELD_SIZE)?;
                let serial = decode(serial.as_slice(), UNIT_INFO_FIELD_SIZE)?;
                let firmware_version = decode(firmware_version.as_slice(), UNIT_INFO_FIELD_SIZE)?;
                Ok(UnitInfo { name, id, serial, firmware_version })
            },
            _ => Err(Error::new("the reply does not hold what was asked for")),
        }
    }

    /// The state of the unit's LED.
    pub fn led_state(&self, reply: &Reply) -> (result: Result<LedState>)
        ensures
            match result {
                Ok(led) => led_of(*reply) == Ok::<(Seq<char>, u32), ErrorView>(
                    (led.cause@, led.color),
                ),
                Err(error) => led_of(*reply) == Err::<(Seq<char>, u32), ErrorView>(error@),
            },
    {
        reply.check()?;
        match &reply.payload {
            Payload::Led { cause, color } => {
                let cause = decode(cause.as_slice(), UNIT_STATE_FIELD_SIZE)?;
                Ok(LedState { cause, color: *color })
            },
            _ => Err(Error::new("the reply does not hold what was asked for")),
        }
    }

    /// The state of the unit's power supply.
    pub fn psu_info(&self, reply: &Reply) -> (result: Result<PsuInfo>)
        ensures
            match result {
                Ok(psu) => psu_of(*reply) == Ok::<(Seq<char>, u32, u32, u32), ErrorView>(
                    (psu.state@, psu.current, psu.voltage, psu.power),
                ),
                Err(error) => psu_of(*reply) == Err::<(Seq<char>, u32, u32, u32), ErrorView>(
                    error@,
                ),
            },
    {
        reply.check()?;
        match &reply.payload {
            Payload::Psu { state, current, voltage, power } => {
                let state = decode(state.as_slice(), UNIT_STATE_FIELD_SIZE)?;
                Ok(PsuInfo { state, current: *current, voltage: *voltage, power: *power })
            },
            _ => Err(Error::new("the reply does not hold what was asked for")),
        }
    }

    /// The temperature at one place in the unit, in degrees Celsius.
    pub fn temperature(&self, reply: &Reply) -> (result: Result<u64>)
        ensures
            outcome(result) == widened(unsigned_of(*reply)),
    {
        let degrees: u32 = reply.unsigned()?;
        Ok(degrees as u64)
    }

    /// The unit's fans.
    pub fn fan_speed(&self, reply: &Reply) -> (result: Result<Vec<Fan>>)
        ensures
            match result {
                Ok(fans) => fans_of(*reply) == Ok::<Seq<Fan>, ErrorView>(fans@),
                Err(error) => fans_of(*reply) == Err::<Seq<Fan>, ErrorView>(error@),
            },
    {
        reply.check()?;
        match &reply.payload {
            Payload::Fans { fans, count } => {
                let count: usize = *count as usize;
                if count > fans.len() || count > UNIT_FAN_CAPACITY {
                    return Err(Error::new("the driver counted more entries than the array holds"));
                }
                let mut copied: Vec<Fan> = Vec::with_capacity(count);
                let mut i: usize = 0;
                while i < count
                    invariant
                        i <= count <= fans@.len(),
                        copied@ == fans@.take(i as int),
                    decreases count - i,
                {
                    copied.push(fans[i]);
                    i += 1;
                }
                Ok(copied)
            },
            _ => Err(Error::new("the reply does not hold what was asked for")),
        }
    }

    /// What to ask for the devices in the unit, given the reply to the
    /// count of the system's devices: the device list, with an array that
    /// has room for every device of the system, and so for every device of
    /// one unit.
    pub fn devices_query(&self, count: &Reply) -> (result: Result<Query>)
        ensures
            outcome(result) == list_query(self.handle, *count),
    {
        let capacity: u32 = count.unsigned()?;
        Ok(Query::Unit(self.handle, UnitAttribute::Devices(capacity)))
    }

    /// The devices in the unit, each as a handle in the unit's session.
    pub fn devices(&self, reply: &Reply) -> (result: Result<Vec<Handler<'s>>>)
        ensures
            match result {
                Ok(devices) => {
                    &&& devices_of(*reply) is Ok
                    &&& devices@.len() == devices_of(*reply)->Ok_0.len()
                    &&& forall|i: int|
                        0 <= i < devices@.len() ==> (#[trigger] devices@[i]).dev == devices_of(
                            *reply,
                        )->Ok_0[i]
                },
                Err(error) => devices_of(*reply) == Err::<Seq<usize>, ErrorView>(error@),
            },
    {
        reply.check()?;
        match &reply.payload {
            Payload::Devices { handles, count } => {
                let count: usize = *count as usize;
                if count > handles.len() {
                    return Err(Error::new("the driver counted more entries than the array holds"));
                }
                let mut devices: Vec<Handler<'s>> = Vec::with_capacity(count);
                let mut i: usize = 0;
                while i < count
                    invariant
                        i <= count <= handles@.len(),
                        devices@.len() == i,
                        forall|j: int| 0 <= j < i ==> devices@[j].dev == handles@[j],
                    decreases count - i,
                {
                    devices.push(Handler { session: self.session, dev: handles[i] });
                    i += 1;
                }
                Ok(devices)
            },
            _ => Err(Error::new("the reply does not hold what was asked for")),
        }
    }
}

impl NVML {
    /// The handle of a unit in this session, given the reply to its lookup
    /// by index.
    pub fn unit_handle_by_index<'s>(&'s self, reply: &Reply) -> (result: Result<Unit<'s>>)
        ensures
            match result {
                Ok(unit) => handle_of(*reply) == Ok::<usize, ErrorView>(unit.handle),
                Err(error) => handle_of(*reply) == Err::<usize, ErrorView>(error@),
            },
    {
        Unit::new(self, reply)
    }
}

} // verus!
