//! A typed reading of what a GPU management driver answers.
//!
//! The driver is reached through a C interface, and reaching it is the
//! caller's business. This library holds everything that happens around the
//! calls: which call comes next while a device record is assembled, how a
//! status code becomes an error, how a fixed buffer becomes text, and what is
//! derived from the answers.

pub mod assembly;
pub mod bandwidth;
pub mod device;
pub mod error;
pub mod handle;
pub mod numa;
pub mod query;
pub mod reply;
pub mod session;
pub mod text;
pub mod unit;
