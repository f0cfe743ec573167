//! The ways in which a command can fail.

use vstd::prelude::*;
use vstd::string::*;
use crate::text::{decimal, decimal_chars};

verus! {

/// The failure that the host USB layer reported for one operation.
#[derive(Clone, Copy, Debug, PartialEq, Eq, Structural)]
pub enum UsbError {
    Io,
    InvalidParam,
    Access,
    NoDevice,
    NotFound,
    Busy,
    Timeout,
    Overflow,
    Pipe,
    Interrupted,
    NoMem,
    NotSupported,
    BadDescriptor,
    Other,
}

/// Why a command was not carried out.
#[derive(Clone, Debug, PartialEq, Eq)]
pub enum CommandError {
    /// A USB operation failed: the operation's label, then the reported failure.
    Usb(String, UsbError),
    /// A parameter is outside what the model accepts: the parameter's name,
    /// then the reason.
    InvalidArgument(&'static str, String),
    /// The model has no encoding for this kind of command.
    InvalidCommand,
}

pub type CommandResult<T> = Result<T, CommandError>;

/// A `CommandError` with its texts as sequences of characters.
pub enum CommandErrorView {
    Usb(Seq<char>, UsbError),
    InvalidArgument(Seq<char>, Seq<char>),
    InvalidCommand,
}

impl View for CommandError {
    type V = CommandErrorView;

    open spec fn view(&self) -> CommandErrorView {
        match *self {
            CommandError::Usb(context, code) => CommandErrorView::Usb(context@, code),
            CommandError::InvalidArgument(name, reason) => CommandErrorView::InvalidArgument(
                name@,
                reason@,
            ),
            CommandError::InvalidCommand => CommandErrorView::InvalidCommand,
        }
    }
}

/// The reason given for a value that breaks a limit: the value, how it
/// stands to the limit (` < `, ` > `, ` != `), and the limit, as in `31 < 32`.
pub open spec fn limit_message(value: nat, relation: Seq<char>, limit: nat) -> Seq<char> {
    decimal_chars(value) + relation + decimal_chars(limit)
}

impl CommandError {
    /// A USB failure under the label of the operation that failed.
    pub fn usb(context: &str, code: UsbError) -> (e: CommandError)
        ensures
            e@ == CommandErrorView::Usb(context@, code),
    {
        CommandError::Usb(String::from_str(context), code)
    }

    /// An invalid argument whose reason is a fixed text.
    pub fn invalid(name: &'static str, reason: &str) -> (e: CommandError)
        ensures
            e@ == CommandErrorView::InvalidArgument(name@, reason@),
    {
        CommandError::InvalidArgument(name, String::from_str(reason))
    }

    /// An invalid argument whose reason sets the value against a limit, as in
    /// `31 < 32`; `relation` holds the sign with a space on either side.
    pub fn out_of_range(name: &'static str, value: u32, relation: &str, limit: u32) -> (e:
        CommandError)
        ensures
            e@ == CommandErrorView::InvalidArgument(
                name@,
                limit_message(value as nat, relation@, limit as nat),
            ),
    {
        let mut reason = decimal(value);
        reason.append(relation);
        let limit_text = decimal(limit);
        reason.append(limit_text.as_str());
        CommandError::InvalidArgument(name, reason)
    }
}

} // verus!
