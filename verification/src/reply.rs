//! What a driver call hands back, as plain values.

use vstd::prelude::*;
use crate::error::{
    failure, lookup_failure, outcome, query_checked, query_failure, text_outcome, Error,
    ErrorKind, ErrorView, Result, Status, NOT_SUPPORTED, SUCCESS,
};
use crate::text::{decode, decoded};

verus! {

/// The three sizes that the driver reports of a memory region, in bytes.
#[derive(Debug, Clone, Copy, PartialEq, Eq, Structural)]
pub struct Memory {
    pub total: u64,
    pub free: u64,
    pub used: u64,
}

/// One fan of an enclosure: its speed in percent and the ordinal of its
/// state.
#[derive(Debug, Clone, Copy, PartialEq, Eq, Structural)]
pub struct Fan {
    pub speed: u32,
    pub state: u32,
}

/// The values that a call wrote through its output parameters. Text is
/// handed over as the raw buffer, which was zeroed before the call.
#[derive(Debug, Clone, PartialEq, Eq)]
pub enum Payload {
    /// The call has no output.
    Nothing,
    /// An opaque handle of a device or of a unit.
    Handle(usize),
    /// One unsigned number.
    Unsigned(u32),
    /// One signed number.
    Signed(i32),
    /// Two signed numbers.
    Pair(i32, i32),
    /// One text buffer.
    Text(Vec<u8>),
    /// The sizes of a memory region.
    Memory(Memory),
    /// The four text buffers that describe a unit.
    UnitInfo { name: Vec<u8>, id: Vec<u8>, serial: Vec<u8>, firmware_version: Vec<u8> },
    /// The state of a unit's LED.
    Led { cause: Vec<u8>, color: u32 },
    /// The state of a unit's power supply.
    Psu { state: Vec<u8>, current: u32, voltage: u32, power: u32 },
    /// The array of fans of a unit and how many of them were filled in.
    Fans { fans: Vec<Fan>, count: u32 },
    /// The array of device handles of a unit and how many were filled in.
    Devices { handles: Vec<usize>, count: u32 },
    /// The content of a file, or nothing where it could not be read.
    File(Option<String>),
}

/// The outcome of one call: its status and what it wrote.
#[derive(Debug, Clone, PartialEq, Eq)]
pub struct Reply {
    pub status: Status,
    pub payload: Payload,
}

/// The message of the failure to find the expected values in a reply.
pub open spec fn unexpected() -> Seq<char> {
    "the reply does not hold what was asked for"@
}

/// The failure to find the expected values in a reply.
pub open spec fn mismatch() -> ErrorView {
    failure(ErrorKind::LocalError, unexpected())
}

/// The handle in the reply to a lookup by index. Whatever makes a lookup
/// fail, an index out of range or anything else, it is a plain driver
/// error with the driver's text; a lookup tells no kinds apart.
pub open spec fn handle_of(reply: Reply) -> std::result::Result<usize, ErrorView> {
    if reply.status.code != SUCCESS {
        Err(lookup_failure(reply.status))
    } else {
        match reply.payload {
            Payload::Handle(handle) => Ok(handle),
            _ => Err(mismatch()),
        }
    }
}

/// The unsigned number in a reply.
pub open spec fn unsigned_of(reply: Reply) -> std::result::Result<u32, ErrorView> {
    if reply.status.code != SUCCESS {
        Err(query_failure(reply.status))
    } else {
        match reply.payload {
            Payload::Unsigned(value) => Ok(value),
            _ => Err(mismatch()),
        }
    }
}

/// The signed number in a reply.
pub open spec fn signed_of(reply: Reply) -> std::result::Result<i32, ErrorView> {
    if reply.status.code != SUCCESS {
        Err(query_failure(reply.status))
    } else {
        match reply.payload {
            Payload::Signed(value) => Ok(value),
            _ => Err(mismatch()),
        }
    }
}

/// The two signed numbers in a reply.
pub open spec fn pair_of(reply: Reply) -> std::result::Result<(i32, i32), ErrorView> {
    if reply.status.code != SUCCESS {
        Err(query_failure(reply.status))
    } else {
        match reply.payload {
            Payload::Pair(first, second) => Ok((first, second)),
            _ => Err(mismatch()),
        }
    }
}

/// The memory sizes in a reply.
pub open spec fn memory_of(reply: Reply) -> std::result::Result<Memory, ErrorView> {
    if reply.status.code != SUCCESS {
        Err(query_failure(reply.status))
    } else {
        match reply.payload {
            Payload::Memory(memory) => Ok(memory),
            _ => Err(mismatch()),
        }
    }
}

/// The text in a reply, read from a field of `capacity` bytes.
pub open spec fn text_of(reply: Reply, capacity: nat) -> std::result::Result<
    Seq<char>,
    ErrorView,
> {
    if reply.status.code != SUCCESS {
        Err(query_failure(reply.status))
    } else {
        match reply.payload {
            Payload::Text(buffer) => decoded(buffer@, capacity),
            _ => Err(mismatch()),
        }
    }
}

impl Reply {
    /// A reply from its parts.
    pub fn new(status: Status, payload: Payload) -> (reply: Reply)
        ensures
            reply.status == status,
            reply.payload == payload,
    {
        Reply { status, payload }
    }

    /// The reply to a query that has no output: nothing, or the query's
    /// failure.
    pub fn check(&self) -> (result: Result<()>)
        ensures
            outcome(result) == query_checked(self.status),
    {
        self.status.check_query()
    }

    /// The reply to a lookup of a handle by index.
    pub fn handle(&self) -> (result: Result<usize>)
        ensures
            outcome(result) == handle_of(*self),
    {
        if !self.status.is_success() {
            return Err(self.status.refuse_lookup());
        }
        match &self.payload {
            Payload::Handle(handle) => Ok(*handle),
            _ => Err(Error::new("the reply does not hold what was asked for")),
        }
    }

    /// The reply to a call that writes one unsigned number.
    pub fn unsigned(&self) -> (result: Result<u32>)
        ensures
            outcome(result) == unsigned_of(*self),
    {
        self.status.check_query()?;
        match &self.payload {
            Payload::Unsigned(value) => Ok(*value),
            _ => Err(Error::new("the reply does not hold what was asked for")),
        }
    }

    /// The reply to a call that writes one signed number.
    pub fn signed(&self) -> (result: Result<i32>)
        ensures
            outcome(result) == signed_of(*self),
    {
        self.status.check_query()?;
        match &self.payload {
            Payload::Signed(value) => Ok(*value),
            _ => Err(Error::new("the reply does not hold what was asked for")),
        }
    }

    /// The reply to a call that writes two signed numbers.
    pub fn pair(&self) -> (result: Result<(i32, i32)>)
        ensures
            outcome(result) == pair_of(*self),
    {
        self.status.check_query()?;
        match &self.payload {
            Payload::Pair(first, second) => Ok((*first, *second)),
            _ => Err(Error::new("the reply does not hold what was asked for")),
        }
    }

    /// The reply to a call that writes the sizes of a memory region.
    pub fn memory(&self) -> (result: Result<Memory>)
        ensures
            outcome(result) == memory_of(*self),
    {
        self.status.check_query()?;
        match &self.payload {
            Payload::Memory(memory) => Ok(*memory),
            _ => Err(Error::new("the reply does not hold what was asked for")),
        }
    }

    /// The reply to a call that fills a text field of `capacity` bytes.
    pub fn text(&self, capacity: usize) -> (result: Result<String>)
        ensures
            text_outcome(result) == text_of(*self, capacity as nat),
    {
        self.status.check_query()?;
        match &self.payload {
            Payload::Text(buffer) => decode(buffer.as_slice(), capacity),
            _ => Err(Error::new("the reply does not hold what was asked for")),
        }
    }
}

/// A lookup that fails is a driver error with the driver's text, whatever
/// the code and whatever the payload: never "not supported", never
/// "library not found".
pub proof fn lemma_a_failed_lookup_is_a_driver_error(reply: Reply)
    requires
        reply.status.code != SUCCESS,
    ensures
        handle_of(reply) == Err::<usize, ErrorView>(
            failure(ErrorKind::DriverError, reply.status.text@),
        ),
{
}

/// The status decides first: a failing status gives the query's failure
/// whatever the payload holds. That failure is "not supported" exactly for
/// the driver's code for it, and a plain driver error for every other
/// code.
pub proof fn lemma_status_comes_first(reply: Reply, capacity: nat)
    requires
        reply.status.code != SUCCESS,
    ensures
        unsigned_of(reply) == Err::<u32, ErrorView>(query_failure(reply.status)),
        signed_of(reply) == Err::<i32, ErrorView>(query_failure(reply.status)),
        pair_of(reply) == Err::<(i32, i32), ErrorView>(query_failure(reply.status)),
        memory_of(reply) == Err::<Memory, ErrorView>(query_failure(reply.status)),
        text_of(reply, capacity) == Err::<Seq<char>, ErrorView>(query_failure(reply.status)),
        query_failure(reply.status).kind == ErrorKind::NotSupported <==> reply.status.code
            == NOT_SUPPORTED,
        query_failure(reply.status).kind != ErrorKind::NotSupported ==> query_failure(
            reply.status,
        ).kind == ErrorKind::DriverError,
        query_failure(reply.status).message == Some(reply.status.text@),
{
}

/// Every failure to read a reply has a message: none is the sentinel. And
/// none tells of a missing library.
pub proof fn lemma_failures_have_messages(reply: Reply, capacity: nat)
    ensures
        handle_of(reply) is Err ==> handle_of(reply)->Err_0.message is Some,
        unsigned_of(reply) is Err ==> unsigned_of(reply)->Err_0.message is Some,
        signed_of(reply) is Err ==> signed_of(reply)->Err_0.message is Some,
        pair_of(reply) is Err ==> pair_of(reply)->Err_0.message is Some,
        memory_of(reply) is Err ==> memory_of(reply)->Err_0.message is Some,
        text_of(reply, capacity) is Err ==> text_of(reply, capacity)->Err_0.message is Some,
        handle_of(reply) is Err ==> handle_of(reply)->Err_0.kind != ErrorKind::LibraryNotFound,
        unsigned_of(reply) is Err ==> unsigned_of(reply)->Err_0.kind
            != ErrorKind::LibraryNotFound,
        signed_of(reply) is Err ==> signed_of(reply)->Err_0.kind != ErrorKind::LibraryNotFound,
        pair_of(reply) is Err ==> pair_of(reply)->Err_0.kind != ErrorKind::LibraryNotFound,
        memory_of(reply) is Err ==> memory_of(reply)->Err_0.kind != ErrorKind::LibraryNotFound,
        text_of(reply, capacity) is Err ==> text_of(reply, capacity)->Err_0.kind
            != ErrorKind::LibraryNotFound,
{
}

} // verus!
