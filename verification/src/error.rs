//! The error type shared by the whole library.

use vstd::prelude::*;

verus! {

/// Declaration of `std::io::Error`, carried by [`Error::Io`].
#[verifier::external_type_specification]
#[verifier::external_body]
pub struct ExIoError(std::io::Error);

/// The main error type of the library.
#[derive(Debug)]
pub enum Error {
    /// A panic inside the model's `update` or `view`.
    ProgramPanic(String),
    /// The program was explicitly killed.
    ProgramKilled,
    /// The program was interrupted (for example by Ctrl+C).
    Interrupted,
    /// An I/O error.
    Io(std::io::Error),
    /// An error of a terminal operation.
    Terminal(String),
    /// Sending on a channel failed.
    ChannelSend,
    /// Receiving from a channel failed.
    ChannelReceive,
    /// A configuration error.
    Configuration(String),
    /// An error while executing a command.
    CommandExecution(String),
    /// A message could not be sent.
    SendError,
    /// A bounded channel was full.
    ChannelFull,
    /// A channel was closed.
    ChannelClosed,
}

impl From<String> for Error {
    fn from(msg: String) -> (r: Self)
    {
        Error::Configuration(msg)
    }
}

impl vstd::std_specs::convert::FromSpecImpl<String> for Error {
    open spec fn obeys_from_spec() -> bool {
        true
    }

    open spec fn from_spec(v: String) -> Self {
        Error::Configuration(v)
    }
}


impl<'a> From<&'a str> for Error {
    fn from(msg: &'a str) -> (r: Self)
        ensures
            is_configuration_error(r, msg@),
    {
        Error::Configuration(msg.to_string())
    }
}

/// Whether `e` is a configuration error with the message `text`.
pub open spec fn is_configuration_error(e: Error, text: Seq<char>) -> bool {
    e matches Error::Configuration(m) && m@ == text
}

/// Two strings with the same text may differ as values, so `from` is not
/// claimed to equal one particular error; its own `ensures` states the text.
impl<'a> vstd::std_specs::convert::FromSpecImpl<&'a str> for Error {
    open spec fn obeys_from_spec() -> bool {
        false
    }

    open spec fn from_spec(v: &'a str) -> Self {
        choose|e: Error| #[trigger] is_configuration_error(e, v@)
    }
}

/// Declaration of tokio's `mpsc::error::SendError`.
#[verifier::external_type_specification]
#[verifier::external_body]
#[verifier::reject_recursive_types(T)]
pub struct ExSendError<T>(tokio::sync::mpsc::error::SendError<T>);

impl<T> From<tokio::sync::mpsc::error::SendError<T>> for Error {
    fn from(e: tokio::sync::mpsc::error::SendError<T>) -> (r: Self)
    {
        Error::ChannelSend
    }
}

impl<T> vstd::std_specs::convert::FromSpecImpl<tokio::sync::mpsc::error::SendError<T>> for Error {
    open spec fn obeys_from_spec() -> bool {
        true
    }

    open spec fn from_spec(v: tokio::sync::mpsc::error::SendError<T>) -> Self {
        Error::ChannelSend
    }
}

impl From<std::io::Error> for Error {
    fn from(e: std::io::Error) -> (r: Self)
    {
        Error::Io(e)
    }
}

impl vstd::std_specs::convert::FromSpecImpl<std::io::Error> for Error {
    open spec fn obeys_from_spec() -> bool {
        true
    }

    open spec fn from_spec(v: std::io::Error) -> Self {
        Error::Io(v)
    }
}

/// Declaration of tokio's `mpsc::error::TryRecvError`.
#[verifier::external_type_specification]
#[verifier::external_body]
pub struct ExTryRecvError(tokio::sync::mpsc::error::TryRecvError);

impl From<tokio::sync::mpsc::error::TryRecvError> for Error {
    fn from(e: tokio::sync::mpsc::error::TryRecvError) -> (r: Self)
    {
        Error::ChannelReceive
    }
}

impl vstd::std_specs::convert::FromSpecImpl<tokio::sync::mpsc::error::TryRecvError> for Error {
    open spec fn obeys_from_spec() -> bool {
        true
    }

    open spec fn from_spec(v: tokio::sync::mpsc::error::TryRecvError) -> Self {
        Error::ChannelReceive
    }
}

/// Declaration of tokio's `oneshot::error::RecvError`.
#[verifier::external_type_specification]
#[verifier::external_body]
pub struct ExOneshotRecvError(tokio::sync::oneshot::error::RecvError);

impl From<tokio::sync::oneshot::error::RecvError> for Error {
    fn from(e: tokio::sync::oneshot::error::RecvError) -> (r: Self)
    {
        Error::ChannelReceive
    }
}

impl vstd::std_specs::convert::FromSpecImpl<tokio::sync::oneshot::error::RecvError> for Error {
    open spec fn obeys_from_spec() -> bool {
        true
    }

    open spec fn from_spec(v: tokio::sync::oneshot::error::RecvError) -> Self {
        Error::ChannelReceive
    }
}

/// Declaration of tokio's `mpsc::error::TrySendError`.
#[verifier::external_type_specification]
#[verifier::external_body]
#[verifier::reject_recursive_types(T)]
pub struct ExTrySendError<T>(tokio::sync::mpsc::error::TrySendError<T>);

/// Tells the two variants of tokio's `mpsc::error::TrySendError` apart:
/// `true` for `Full` (the channel had no room), `false` for `Closed` (the
/// receiver is gone). The value is opaque here, so the contract states
/// nothing of which variant it is.
#[verifier::external_body]
fn try_send_error_is_full<T>(e: &tokio::sync::mpsc::error::TrySendError<T>) -> (full: bool) {
    match e {
        tokio::sync::mpsc::error::TrySendError::Full(_) => true,
        tokio::sync::mpsc::error::TrySendError::Closed(_) => false,
    }
}

/// Whether `e` is one of the two errors of a failed non-blocking send.
pub open spec fn is_try_send_failure(e: Error) -> bool {
    e is ChannelFull || e is ChannelClosed
}

/// The error of a failed non-blocking send: `ChannelFull` when the channel
/// had no room, `ChannelClosed` when its receiver was gone.
pub open spec fn spec_try_send_failure(full: bool) -> Error {
    if full {
        Error::ChannelFull
    } else {
        Error::ChannelClosed
    }
}

/// The error of a failed non-blocking send, given whether the channel was
/// full (`ChannelFull`) or its receiver gone (`ChannelClosed`).
pub fn try_send_failure(full: bool) -> (e: Error)
    ensures
        e == spec_try_send_failure(full),
{
    if full {
        Error::ChannelFull
    } else {
        Error::ChannelClosed
    }
}

impl<T> From<tokio::sync::mpsc::error::TrySendError<T>> for Error {
    /// `ChannelFull` when the channel had no room, `ChannelClosed` when its
    /// receiver is gone: [`try_send_failure`] applied to the variant of `e`.
    fn from(e: tokio::sync::mpsc::error::TrySendError<T>) -> (r: Self)
        ensures
            exists|full: bool| r == #[trigger] spec_try_send_failure(full),
    {
        try_send_failure(try_send_error_is_full(&e))
    }
}

/// Which of the two errors a given `TrySendError` becomes rests on its
/// variant, which is opaque here; `from` states it of its own result.
impl<T> vstd::std_specs::convert::FromSpecImpl<tokio::sync::mpsc::error::TrySendError<T>> for Error {
    open spec fn obeys_from_spec() -> bool {
        false
    }

    open spec fn from_spec(v: tokio::sync::mpsc::error::TrySendError<T>) -> Self {
        choose|e: Error| #[trigger] is_try_send_failure(e)
    }
}

/// The message of an error, except for `Error::Io`, whose message ends with
/// the text of the I/O error.
pub open spec fn error_text(e: &Error) -> Seq<char> {
    match e {
        Error::ProgramPanic(m) => "Program panic: "@ + m@,
        Error::ProgramKilled => "Program was killed"@,
        Error::Interrupted => "Program was interrupted"@,
        Error::Io(_) => "I/O error: "@,
        Error::Terminal(m) => "Terminal error: "@ + m@,
        Error::ChannelSend => "Channel send error"@,
        Error::ChannelReceive => "Channel receive error"@,
        Error::Configuration(m) => "Configuration error: "@ + m@,
        Error::CommandExecution(m) => "Command execution error: "@ + m@,
        Error::SendError => "Send error"@,
        Error::ChannelFull => "Channel is full"@,
        Error::ChannelClosed => "Channel is closed"@,
    }
}

/// A new string holding `a` followed by `b`.
fn concat(a: &str, b: &str) -> (s: String)
    ensures
        s@ == a@ + b@,
{
    let mut s = String::new();
    s.append(a);
    s.append(b);
    s
}

impl Error {
    /// The message of this error, for example `Program panic: boom` or
    /// `Program was killed`. For `Error::Io` it is `I/O error: ` followed by
    /// the text of the I/O error.
    pub fn to_string(&self) -> (s: String)
        ensures
            !(self is Io) ==> s@ == error_text(self),
            self matches Error::Io(e) ==> exists|t: String|
                vstd::string::to_string_from_display_ensures::<std::io::Error>(e, t) && s@ == error_text(self) + t@,
    {
        match self {
            Error::ProgramPanic(m) => concat("Program panic: ", m.as_str()),
            Error::ProgramKilled => "Program was killed".to_string(),
            Error::Interrupted => "Program was interrupted".to_string(),
            Error::Io(e) => {
                let t = e.to_string();
                let s = concat("I/O error: ", t.as_str());
                assert(vstd::string::to_string_from_display_ensures::<std::io::Error>(e, t));
                s
            },
            Error::Terminal(m) => concat("Terminal error: ", m.as_str()),
            Error::ChannelSend => "Channel send error".to_string(),
            Error::ChannelReceive => "Channel receive error".to_string(),
            Error::Configuration(m) => concat("Configuration error: ", m.as_str()),
            Error::CommandExecution(m) => concat("Command execution error: ", m.as_str()),
            Error::SendError => "Send error".to_string(),
            Error::ChannelFull => "Channel is full".to_string(),
            Error::ChannelClosed => "Channel is closed".to_string(),
        }
    }
}

} // verus!
