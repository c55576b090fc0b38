//! The session with the driver.

use vstd::prelude::*;
use crate::error::{
    failure, open_failure, outcome, text_outcome, Error, ErrorKind, ErrorView, Result, SUCCESS,
};
use crate::query::{SYSTEM_DRIVER_VERSION_BUFFER_SIZE, SYSTEM_NVML_VERSION_BUFFER_SIZE};
use crate::reply::{signed_of, text_of, unsigned_of, Reply};

verus! {

/// An open session. There is one only where the driver's initialisation
/// succeeded, and everything else is asked through it: a handle borrows the
/// session that it was resolved in, so none is left when the session ends.
#[derive(Debug)]
pub struct NVML {
    opened: (),
}

/// An unsigned number of the driver at the width of the library's results.
pub open spec fn widened(value: std::result::Result<u32, ErrorView>) -> std::result::Result<
    u64,
    ErrorView,
> {
    match value {
        Ok(value) => Ok(value as u64),
        Err(error) => Err(error),
    }
}

/// The message of the failure to read a number that cannot be negative.
pub open spec fn negative() -> Seq<char> {
    "the driver reported a negative number"@
}

/// A signed number of the driver that stands for a quantity: itself where
/// it is not negative, and a local failure where it is.
pub open spec fn natural(value: i32) -> std::result::Result<u64, ErrorView> {
    if value < 0 {
        Err(failure(ErrorKind::LocalError, negative()))
    } else {
        Ok(value as u64)
    }
}

/// The version number in a reply.
pub open spec fn version_of(reply: Reply) -> std::result::Result<u64, ErrorView> {
    match signed_of(reply) {
        Ok(value) => natural(value),
        Err(error) => Err(error),
    }
}

/// Reads a signed number of the driver as a quantity.
pub fn quantity(value: i32) -> (result: Result<u64>)
    ensures
        outcome(result) == natural(value),
{
    if value < 0 {
        Err(Error::new("the driver reported a negative number"))
    } else {
        Ok(value as u64)
    }
}

impl NVML {
    /// Opens a session, given the reply to the driver's initialisation.
    /// There is a session exactly where the status is the success code.
    pub fn new(reply: &Reply) -> (result: Result<NVML>)
        ensures
            result is Ok <==> reply.status.code == SUCCESS,
            result is Err ==> result->Err_0@ == open_failure(reply.status),
    {
        match reply.status.check() {
            Ok(_) => Ok(NVML { opened: () }),
            Err(error) => Err(error.generic_unless(ErrorKind::LibraryNotFound)),
        }
    }

    /// The number of devices, given the reply to the count of devices.
    pub fn device_count(&self, reply: &Reply) -> (result: Result<u32>)
        ensures
            outcome(result) == unsigned_of(*reply),
    {
        reply.unsigned()
    }

    /// The driver's version, given the reply to the query for it.
    pub fn driver_version(&self, reply: &Reply) -> (result: Result<String>)
        ensures
            text_outcome(result) == text_of(*reply, SYSTEM_DRIVER_VERSION_BUFFER_SIZE as nat),
    {
        reply.text(SYSTEM_DRIVER_VERSION_BUFFER_SIZE)
    }

    /// The management library's version, given the reply to the query for
    /// it.
    pub fn version(&self, reply: &Reply) -> (result: Result<String>)
        ensures
            text_outcome(result) == text_of(*reply, SYSTEM_NVML_VERSION_BUFFER_SIZE as nat),
    {
        reply.text(SYSTEM_NVML_VERSION_BUFFER_SIZE)
    }

    /// The version of the CUDA driver, given the reply to the query for it.
    pub fn cuda_version(&self, reply: &Reply) -> (result: Result<u64>)
        ensures
            outcome(result) == version_of(*reply),
    {
        let value: i32 = reply.signed()?;
        quantity(value)
    }

    /// The number of enclosure units, given the reply to the count of
    /// units.
    pub fn unit_count(&self, reply: &Reply) -> (result: Result<u64>)
        ensures
            outcome(result) == widened(unsigned_of(*reply)),
    {
        let count: u32 = reply.unsigned()?;
        Ok(count as u64)
    }
}

} // verus!
