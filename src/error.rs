//! Error taxonomy and the translation of native status codes.

use vstd::prelude::*;
use vstd::string::StringExecFns;

verus! {

/// The native library reports success.
pub const STATUS_SUCCESS: u32 = 0;
/// Passed-in arguments are not valid.
pub const STATUS_INVALID_ARGS: u32 = 1;
/// The requested information or action is not available on this system.
pub const STATUS_NOT_SUPPORTED: u32 = 2;
/// A file could not be accessed.
pub const STATUS_FILE_ERROR: u32 = 3;
/// Permission denied.
pub const STATUS_PERMISSION: u32 = 4;
/// Memory or another resource could not be acquired.
pub const STATUS_OUT_OF_RESOURCES: u32 = 5;
/// An internal exception was caught.
pub const STATUS_INTERNAL_EXCEPTION: u32 = 6;
/// An input lies outside the allowed range.
pub const STATUS_INPUT_OUT_OF_BOUNDS: u32 = 7;
/// The native library failed to set up its internal data.
pub const STATUS_INIT_ERROR: u32 = 8;
/// The requested function is not implemented.
pub const STATUS_NOT_YET_IMPLEMENTED: u32 = 9;
/// A searched-for item was not found.
pub const STATUS_NOT_FOUND: u32 = 10;
/// Not enough room was available for the operation.
pub const STATUS_INSUFFICIENT_SIZE: u32 = 11;
/// The call was interrupted.
pub const STATUS_INTERRUPT: u32 = 12;
/// An unexpected amount of data was read.
pub const STATUS_UNEXPECTED_SIZE: u32 = 13;
/// No data was found for the given input.
pub const STATUS_NO_DATA: u32 = 14;
/// The data read or provided is not what was expected.
pub const STATUS_UNEXPECTED_DATA: u32 = 15;
/// A resource or mutex is already in use.
pub const STATUS_BUSY: u32 = 16;
/// An internal reference counter overflowed.
pub const STATUS_REFCOUNT_OVERFLOW: u32 = 17;
/// An error the native library does not classify.
pub const STATUS_UNKNOWN_ERROR: u32 = 0xFFFF_FFFF;

#[verifier::external_type_specification]
#[verifier::external_body]
pub struct ExLoadingError(libloading::Error);

/// Every failure that an operation of this library can report.
#[derive(Debug)]
pub enum RsmiError {
    /// The shared library could not be opened.
    LibloadingError(libloading::Error),
    /// An entry point is absent from the loaded library; holds its name, then the loader's message.
    FailedToLoadSymbol(String),
    /// Native text output is not valid UTF-8.
    InvalidUtf8,
    InvalidArgs,
    NotSupported,
    File,
    Permission,
    OutOfResources,
    Internal,
    InputOutOfBounds,
    Init,
    NotYetImplemented,
    NotFound,
    InsufficientSize,
    Interrupt,
    UnexpectedSize,
    NoData,
    UnexpectedData,
    Busy,
    RefcountOverflow,
    Unknown,
    /// A status code outside the known set, kept as it came.
    Unexpected(u32),
}

/// The error that a status code stands for, or `None` for success.
pub open spec fn status_error(code: u32) -> Option<RsmiError> {
    if code == STATUS_SUCCESS {
        None
    } else if code == STATUS_INVALID_ARGS {
        Some(RsmiError::InvalidArgs)
    } else if code == STATUS_NOT_SUPPORTED {
        Some(RsmiError::NotSupported)
    } else if code == STATUS_FILE_ERROR {
        Some(RsmiError::File)
    } else if code == STATUS_PERMISSION {
        Some(RsmiError::Permission)
    } else if code == STATUS_OUT_OF_RESOURCES {
        Some(RsmiError::OutOfResources)
    } else if code == STATUS_INTERNAL_EXCEPTION {
        Some(RsmiError::Internal)
    } else if code == STATUS_INPUT_OUT_OF_BOUNDS {
        Some(RsmiError::InputOutOfBounds)
    } else if code == STATUS_INIT_ERROR {
        Some(RsmiError::Init)
    } else if code == STATUS_NOT_YET_IMPLEMENTED {
        Some(RsmiError::NotYetImplemented)
    } else if code == STATUS_NOT_FOUND {
        Some(RsmiError::NotFound)
    } else if code == STATUS_INSUFFICIENT_SIZE {
        Some(RsmiError::InsufficientSize)
    } else if code == STATUS_INTERRUPT {
        Some(RsmiError::Interrupt)
    } else if code == STATUS_UNEXPECTED_SIZE {
        Some(RsmiError::UnexpectedSize)
    } else if code == STATUS_NO_DATA {
        Some(RsmiError::NoData)
    } else if code == STATUS_UNEXPECTED_DATA {
        Some(RsmiError::UnexpectedData)
    } else if code == STATUS_BUSY {
        Some(RsmiError::Busy)
    } else if code == STATUS_REFCOUNT_OVERFLOW {
        Some(RsmiError::RefcountOverflow)
    } else if code == STATUS_UNKNOWN_ERROR {
        Some(RsmiError::Unknown)
    } else {
        Some(RsmiError::Unexpected(code))
    }
}

/// Translates a native status code: `Ok` on success, otherwise the error it stands for.
pub fn rsmi_try(code: u32) -> (r: Result<(), RsmiError>)
    ensures
        code == STATUS_SUCCESS <==> r is Ok,
        r is Err ==> Some(r->Err_0) == status_error(code),
{
    match code {
        STATUS_SUCCESS => Ok(()),
        STATUS_INVALID_ARGS => Err(RsmiError::InvalidArgs),
        STATUS_NOT_SUPPORTED => Err(RsmiError::NotSupported),
        STATUS_FILE_ERROR => Err(RsmiError::File),
        STATUS_PERMISSION => Err(RsmiError::Permission),
        STATUS_OUT_OF_RESOURCES => Err(RsmiError::OutOfResources),
        STATUS_INTERNAL_EXCEPTION => Err(RsmiError::Internal),
        STATUS_INPUT_OUT_OF_BOUNDS => Err(RsmiError::InputOutOfBounds),
        STATUS_INIT_ERROR => Err(RsmiError::Init),
        STATUS_NOT_YET_IMPLEMENTED => Err(RsmiError::NotYetImplemented),
        STATUS_NOT_FOUND => Err(RsmiError::NotFound),
        STATUS_INSUFFICIENT_SIZE => Err(RsmiError::InsufficientSize),
        STATUS_INTERRUPT => Err(RsmiError::Interrupt),
        STATUS_UNEXPECTED_SIZE => Err(RsmiError::UnexpectedSize),
        STATUS_NO_DATA => Err(RsmiError::NoData),
        STATUS_UNEXPECTED_DATA => Err(RsmiError::UnexpectedData),
        STATUS_BUSY => Err(RsmiError::Busy),
        STATUS_REFCOUNT_OVERFLOW => Err(RsmiError::RefcountOverflow),
        STATUS_UNKNOWN_ERROR => Err(RsmiError::Unknown),
        _ => Err(RsmiError::Unexpected(code)),
    }
}

/// The text that `RsmiError::message` gives for a variant whose message is fixed;
/// the two variants that carry a loader's message give their prefix.
pub open spec fn fixed_message(e: RsmiError) -> Seq<char> {
    match e {
        RsmiError::LibloadingError(_) => "a libloading error occurred: "@,
        RsmiError::FailedToLoadSymbol(_) => "failed to load a symbol: "@,
        RsmiError::InvalidUtf8 => "a function returned invalid utf8 encoding and the wrapper cannot convert it"@,
        RsmiError::InvalidArgs => "passed in arguments are not valid"@,
        RsmiError::NotSupported => "the requested information or action is not available for the given input, on the given system"@,
        RsmiError::File => "problem accessing a file, this may because the operation is not supported by the linux kernel version running on the executing machine"@,
        RsmiError::Permission => "permission denied/EACCESS file error, many functions require root access to run"@,
        RsmiError::OutOfResources => "unable to acquire memory or another resource"@,
        RsmiError::Internal => "an internal exception was caught"@,
        RsmiError::InputOutOfBounds => "the provided input is out of the allowable or safe range"@,
        RsmiError::Init => "an error occurred while the native library initialized its internal data"@,
        RsmiError::NotYetImplemented => "the requested function has not yet been implemented"@,
        RsmiError::NotFound => "an item was searched for but not found"@,
        RsmiError::InsufficientSize => "not enough resources were available for the operation"@,
        RsmiError::Interrupt => "an interrupt occurred during execution of the function"@,
        RsmiError::UnexpectedSize => "an unexpected amount of data was read"@,
        RsmiError::NoData => "no data was found for the given input"@,
        RsmiError::UnexpectedData => "the data read or provided is not what was expected"@,
        RsmiError::Busy => "a resource or mutex could not be acquired because it is already in use"@,
        RsmiError::RefcountOverflow => "an internal reference counter overflowed"@,
        RsmiError::Unknown => "the native library reported an unknown error"@,
        RsmiError::Unexpected(_) => "the native library returned a status code outside the known set"@,
    }
}

impl RsmiError {
    /// A human-readable description of the error.
    pub fn message(&self) -> (r: String)
        ensures
            self is LibloadingError ==> exists|t: Seq<char>| r@ == fixed_message(*self) + t,
            self is FailedToLoadSymbol ==> r@ == fixed_message(*self) + self->FailedToLoadSymbol_0@,
            !(self is LibloadingError) && !(self is FailedToLoadSymbol) ==> r@ == fixed_message(*self),
    {
        match self {
            RsmiError::LibloadingError(e) => {
                let prefix = String::from_str("a libloading error occurred: ");
                let text = loading_error_text(e);
                let r = prefix.concat(text.as_str());
                assert(r@ == fixed_message(*self) + text@);
                r
            },
            RsmiError::FailedToLoadSymbol(s) => {
                String::from_str("failed to load a symbol: ").concat(s.as_str())
            },
            RsmiError::InvalidUtf8 => String::from_str("a function returned invalid utf8 encoding and the wrapper cannot convert it"),
            RsmiError::InvalidArgs => String::from_str("passed in arguments are not valid"),
            RsmiError::NotSupported => String::from_str("the requested information or action is not available for the given input, on the given system"),
            RsmiError::File => String::from_str("problem accessing a file, this may because the operation is not supported by the linux kernel version running on the executing machine"),
            RsmiError::Permission => String::from_str("permission denied/EACCESS file error, many functions require root access to run"),
            RsmiError::OutOfResources => String::from_str("unable to acquire memory or another resource"),
            RsmiError::Internal => String::from_str("an internal exception was caught"),
            RsmiError::InputOutOfBounds => String::from_str("the provided input is out of the allowable or safe range"),
            RsmiError::Init => String::from_str("an error occurred while the native library initialized its internal data"),
            RsmiError::NotYetImplemented => String::from_str("the requested function has not yet been implemented"),
            RsmiError::NotFound => String::from_str("an item was searched for but not found"),
            RsmiError::InsufficientSize => String::from_str("not enough resources were available for the operation"),
            RsmiError::Interrupt => String::from_str("an interrupt occurred during execution of the function"),
            RsmiError::UnexpectedSize => String::from_str("an unexpected amount of data was read"),
            RsmiError::NoData => String::from_str("no data was found for the given input"),
            RsmiError::UnexpectedData => String::from_str("the data read or provided is not what was expected"),
            RsmiError::Busy => String::from_str("a resource or mutex could not be acquired because it is already in use"),
            RsmiError::RefcountOverflow => String::from_str("an internal reference counter overflowed"),
            RsmiError::Unknown => String::from_str("the native library reported an unknown error"),
            RsmiError::Unexpected(_) => String::from_str("the native library returned a status code outside the known set"),
        }
    }
}

impl From<libloading::Error> for RsmiError {
    fn from(err: libloading::Error) -> (r: Self)
        ensures
            r == RsmiError::LibloadingError(err),
    {
        RsmiError::LibloadingError(err)
    }
}

impl vstd::std_specs::convert::FromSpecImpl<libloading::Error> for RsmiError {
    open spec fn obeys_from_spec() -> bool {
        true
    }

    open spec fn from_spec(v: libloading::Error) -> RsmiError {
        RsmiError::LibloadingError(v)
    }
}

/// The second stage of every call: `value` when `code` reports success,
/// otherwise the error the code stands for.
pub fn with_status<T>(code: u32, value: T) -> (r: Result<T, RsmiError>)
    ensures
        code == STATUS_SUCCESS ==> r == Ok::<T, RsmiError>(value),
        code != STATUS_SUCCESS ==> r == Err::<T, RsmiError>(status_error(code)->Some_0),
{
    match rsmi_try(code) {
        Ok(()) => Ok(value),
        Err(e) => Err(e),
    }
}

/// Relies on `libloading::Error`'s `Display`: the loader's message for the failure.
/// The message may come from the system loader, so nothing is stated of it.
#[verifier::external_body]
fn loading_error_text(e: &libloading::Error) -> (r: String) {
    e.to_string()
}

/// `msg` begins with the entry point's name `name`.
pub open spec fn names_symbol(msg: Seq<char>, name: Seq<char>) -> bool {
    msg.len() >= name.len() && msg.take(name.len() as int) == name
}

/// Turns the outcome of looking up the entry point `name` into this library's
/// result: a clone of the resolved value, or `FailedToLoadSymbol` whose message
/// is `name`, a colon, and the loader's message.
pub fn rsmi_sym<T: Clone>(name: &str, res: &Result<T, libloading::Error>) -> (r: Result<T, RsmiError>)
    ensures
        res is Ok <==> r is Ok,
        r is Ok ==> cloned(res->Ok_0, r->Ok_0),
        r is Err ==> r->Err_0 is FailedToLoadSymbol,
        r is Err ==> names_symbol(r->Err_0->FailedToLoadSymbol_0@, name@),
{
    match res {
        Ok(t) => Ok(t.clone()),
        Err(e) => {
            let text = loading_error_text(e);
            let msg = String::from_str(name).concat(": ").concat(text.as_str());
            assert(msg@.take(name@.len() as int) =~= name@);
            Err(RsmiError::FailedToLoadSymbol(msg))
        },
    }
}

} // verus!
