//! Status codes of the driver and the errors they become.

use vstd::prelude::*;

verus! {

/// The code with which the driver reports that a call succeeded.
pub const SUCCESS: u32 = 0;

/// The code with which the driver reports that the device lacks an attribute.
pub const NOT_SUPPORTED: u32 = 3;

/// The code with which the driver reports that its library cannot be found.
pub const LIBRARY_NOT_FOUND: u32 = 12;

/// What a driver call returned: its code, and the driver's own rendering of
/// that code as text.
#[derive(Debug, Clone, PartialEq, Eq)]
pub struct Status {
    pub code: u32,
    pub text: String,
}

/// The kinds of failure.
#[derive(Debug, Clone, Copy, PartialEq, Eq, Structural)]
pub enum ErrorKind {
    /// The driver's library is not installed where it is looked for. Only
    /// the opening of a session reports this.
    LibraryNotFound,
    /// The attribute does not exist on this hardware or under this driver.
    NotSupported,
    /// Any other failing status of the driver.
    DriverError,
    /// A failure that did not come from the driver.
    LocalError,
}

/// A failure with its message. The one value without a message is the
/// sentinel that stands for "no failure"; no operation of this library
/// returns it as an error.
#[derive(Debug, Clone, PartialEq, Eq)]
pub struct Error {
    kind: ErrorKind,
    message: Option<String>,
}

/// The mathematical content of an [`Error`].
pub struct ErrorView {
    pub kind: ErrorKind,
    pub message: Option<Seq<char>>,
}

pub type Result<T> = std::result::Result<T, Error>;

impl View for Error {
    type V = ErrorView;

    closed spec fn view(&self) -> ErrorView {
        ErrorView {
            kind: self.kind,
            message: match self.message {
                Some(text) => Some(text@),
                None => None,
            },
        }
    }
}

/// The kind that a failing status code has by itself. What an operation
/// reports is narrower: see [`open_failure`], [`lookup_failure`] and
/// [`query_failure`].
pub open spec fn kind_of(code: u32) -> ErrorKind {
    if code == LIBRARY_NOT_FOUND {
        ErrorKind::LibraryNotFound
    } else if code == NOT_SUPPORTED {
        ErrorKind::NotSupported
    } else {
        ErrorKind::DriverError
    }
}

/// The error that a status translates to: the sentinel for the success
/// code, and for any other code an error of that code's kind which carries
/// the driver's text unchanged.
pub open spec fn translation(status: Status) -> ErrorView {
    ErrorView {
        kind: kind_of(status.code),
        message: if status.code == SUCCESS {
            None
        } else {
            Some(status.text@)
        },
    }
}

/// A failure of the given kind with the given message.
pub open spec fn failure(kind: ErrorKind, message: Seq<char>) -> ErrorView {
    ErrorView { kind, message: Some(message) }
}

/// The result of checking a status: nothing on success, and otherwise the
/// status's translation.
pub open spec fn checked(status: Status) -> std::result::Result<(), ErrorView> {
    if status.code == SUCCESS {
        Ok(())
    } else {
        Err(translation(status))
    }
}

/// `error` under the kind `DriverError`, unless its kind is `keep`.
pub open spec fn generic_unless(error: ErrorView, keep: ErrorKind) -> ErrorView {
    if error.kind == keep {
        error
    } else {
        ErrorView { kind: ErrorKind::DriverError, message: error.message }
    }
}

/// The failure that the opening of a session reports for a failing status:
/// a missing library under its own kind, every other code as a plain
/// driver error.
pub open spec fn open_failure(status: Status) -> ErrorView {
    generic_unless(translation(status), ErrorKind::LibraryNotFound)
}

/// The failure that a lookup of a handle reports for a failing status: a
/// plain driver error, whatever the code.
pub open spec fn lookup_failure(status: Status) -> ErrorView {
    generic_unless(translation(status), ErrorKind::DriverError)
}

/// The failure that a query reports for a failing status: "not supported"
/// under its own kind, every other code as a plain driver error. A query
/// does not tell of a missing library; only the opening of a session does.
pub open spec fn query_failure(status: Status) -> ErrorView {
    generic_unless(translation(status), ErrorKind::NotSupported)
}

/// The result of checking the status of a query: nothing on success, and
/// otherwise the query's failure.
pub open spec fn query_checked(status: Status) -> std::result::Result<(), ErrorView> {
    if status.code == SUCCESS {
        Ok(())
    } else {
        Err(query_failure(status))
    }
}

/// The view of a result whose value is plain data.
pub open spec fn outcome<T>(result: Result<T>) -> std::result::Result<T, ErrorView> {
    match result {
        Ok(value) => Ok(value),
        Err(error) => Err(error@),
    }
}

/// The view of a result whose value is text.
pub open spec fn text_outcome(result: Result<String>) -> std::result::Result<
    Seq<char>,
    ErrorView,
> {
    match result {
        Ok(text) => Ok(text@),
        Err(error) => Err(error@),
    }
}

impl Status {
    /// A status from a code and the driver's rendering of it.
    pub fn new(code: u32, text: &str) -> (status: Status)
        ensures
            status.code == code,
            status.text@ == text@,
    {
        Status { code, text: text.to_owned() }
    }

    /// Whether the status reports success.
    pub fn is_success(&self) -> (success: bool)
        ensures
            success == (self.code == SUCCESS),
    {
        self.code == SUCCESS
    }

    /// Checks the status of a query: nothing on success, otherwise the
    /// query's failure.
    pub fn check_query(&self) -> (result: Result<()>)
        ensures
            outcome(result) == query_checked(*self),
    {
        match self.check() {
            Ok(_) => Ok(()),
            Err(error) => Err(error.generic_unless(ErrorKind::NotSupported)),
        }
    }

    /// The failure of a lookup with this status.
    pub fn refuse_lookup(&self) -> (error: Error)
        ensures
            error@ == lookup_failure(*self),
    {
        Error::from(self).generic_unless(ErrorKind::DriverError)
    }

    /// Checks the status: nothing on success, otherwise its translation.
    pub fn check(&self) -> (result: Result<()>)
        ensures
            outcome(result) == checked(*self),
    {
        if self.code == SUCCESS {
            Ok(())
        } else {
            Err(Error::from(self))
        }
    }
}

impl Error {
    /// A local failure with the given message.
    pub fn new(message: &str) -> (error: Error)
        ensures
            error@ == failure(ErrorKind::LocalError, message@),
    {
        Error { kind: ErrorKind::LocalError, message: Some(message.to_owned()) }
    }

    /// A failure of the given kind with the given message.
    pub fn of(kind: ErrorKind, message: &str) -> (error: Error)
        ensures
            error@ == failure(kind, message@),
    {
        Error { kind, message: Some(message.to_owned()) }
    }

    /// Translates a status. The success code gives the sentinel.
    pub fn from(status: &Status) -> (error: Error)
        ensures
            error@ == translation(*status),
    {
        let kind = if status.code == LIBRARY_NOT_FOUND {
            ErrorKind::LibraryNotFound
        } else if status.code == NOT_SUPPORTED {
            ErrorKind::NotSupported
        } else {
            ErrorKind::DriverError
        };
        if status.code == SUCCESS {
            Error { kind, message: None }
        } else {
            Error { kind, message: Some(status.text.clone()) }
        }
    }

    /// The failure's kind.
    pub fn kind(&self) -> (kind: ErrorKind)
        ensures
            kind == self@.kind,
    {
        self.kind
    }

    /// The failure's message; none for the sentinel.
    pub fn message(&self) -> (message: Option<&String>)
        ensures
            match message {
                Some(text) => self@.message == Some(text@),
                None => self@.message is None,
            },
    {
        self.message.as_ref()
    }

    /// Whether this is a failure, and not the sentinel.
    pub fn is_failure(&self) -> (failed: bool)
        ensures
            failed == self@.message is Some,
    {
        self.message.is_some()
    }

    /// The same failure under the kind `DriverError`, unless its kind is
    /// `keep`.
    pub fn generic_unless(self, keep: ErrorKind) -> (error: Error)
        ensures
            error@ == generic_unless(self@, keep),
    {
        if self.kind == keep {
            self
        } else {
            Error { kind: ErrorKind::DriverError, message: self.message }
        }
    }
}

impl Default for Error {
    /// The sentinel: no failure.
    fn default() -> (error: Error)
        ensures
            error@ == (ErrorView { kind: ErrorKind::DriverError, message: None }),
    {
        Error { kind: ErrorKind::DriverError, message: None }
    }
}

/// The success code translates to the sentinel, and checks to "no error",
/// whatever text comes with it.
pub proof fn lemma_success_is_no_error(status: Status)
    requires
        status.code == SUCCESS,
    ensures
        translation(status).message is None,
        checked(status) == Ok::<(), ErrorView>(()),
{
}

/// Every failing code translates to an error whose message is the driver's
/// text for it, so a message that is not empty where that text is not.
pub proof fn lemma_failure_carries_text(status: Status)
    requires
        status.code != SUCCESS,
    ensures
        checked(status) == Err::<(), ErrorView>(translation(status)),
        translation(status).message == Some(status.text@),
        status.text@.len() > 0 ==> translation(status).message->Some_0.len() > 0,
{
}

/// Translation depends on the code and the text alone: two statuses that
/// agree in both translate alike, and translating twice changes nothing.
pub proof fn lemma_translation_is_a_function(first: Status, second: Status)
    requires
        first.code == second.code,
        first.text@ == second.text@,
    ensures
        translation(first) == translation(second),
        checked(first) == checked(second),
{
}

/// The kind of a failing code is `LibraryNotFound` for that one code,
/// `NotSupported` for that one code, and `DriverError` for every other.
pub proof fn lemma_kinds_are_distinct(code: u32)
    ensures
        kind_of(code) == ErrorKind::LibraryNotFound <==> code == LIBRARY_NOT_FOUND,
        kind_of(code) == ErrorKind::NotSupported <==> code == NOT_SUPPORTED,
        kind_of(code) != ErrorKind::LocalError,
{
}

/// Who may report what: the opening of a session never reports "not
/// supported", a query never reports a missing library, and a lookup
/// reports neither. Each keeps the driver's text as its message.
pub proof fn lemma_kinds_by_operation(status: Status)
    requires
        status.code != SUCCESS,
    ensures
        open_failure(status) == failure(
            if status.code == LIBRARY_NOT_FOUND {
                ErrorKind::LibraryNotFound
            } else {
                ErrorKind::DriverError
            },
            status.text@,
        ),
        query_failure(status) == failure(
            if status.code == NOT_SUPPORTED {
                ErrorKind::NotSupported
            } else {
                ErrorKind::DriverError
            },
            status.text@,
        ),
        lookup_failure(status) == failure(ErrorKind::DriverError, status.text@),
{
}

} // verus!
