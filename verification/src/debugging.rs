//! Reading the flags that the validation layers attach to their messages.

use vstd::prelude::*;

verus! {

/// How grave a message is.
#[derive(Clone, Copy, Debug, PartialEq, Eq, Structural)]
pub enum Severity {
    Verbose,
    Info,
    Warning,
    Error,
}

/// What a message is about.
#[derive(Clone, Copy, Debug, PartialEq, Eq, Structural)]
pub enum MessageType {
    General,
    Validation,
    Performance,
    DeviceAddressBinding,
}

impl Severity {
    /// The severity that a flag word stands for: the word of exactly one of
    /// the four severity bits.
    pub open spec fn of(flags: u32) -> Option<Severity> {
        if flags == 0x1 {
            Some(Severity::Verbose)
        } else if flags == 0x10 {
            Some(Severity::Info)
        } else if flags == 0x100 {
            Some(Severity::Warning)
        } else if flags == 0x1000 {
            Some(Severity::Error)
        } else {
            None
        }
    }

    /// Reads a severity flag word; `None` where the word is not exactly one
    /// severity bit.
    pub fn from_flags(flags: u32) -> (severity: Option<Severity>)
        ensures
            severity == Severity::of(flags),
    {
        if flags == 0x1 {
            Some(Severity::Verbose)
        } else if flags == 0x10 {
            Some(Severity::Info)
        } else if flags == 0x100 {
            Some(Severity::Warning)
        } else if flags == 0x1000 {
            Some(Severity::Error)
        } else {
            None
        }
    }
}

impl MessageType {
    /// The message type that a flag word stands for: the word of exactly one
    /// of the four type bits.
    pub open spec fn of(flags: u32) -> Option<MessageType> {
        if flags == 0x1 {
            Some(MessageType::General)
        } else if flags == 0x2 {
            Some(MessageType::Validation)
        } else if flags == 0x4 {
            Some(MessageType::Performance)
        } else if flags == 0x8 {
            Some(MessageType::DeviceAddressBinding)
        } else {
            None
        }
    }

    /// Reads a message type flag word; `None` where the word is not exactly
    /// one type bit.
    pub fn from_flags(flags: u32) -> (message_type: Option<MessageType>)
        ensures
            message_type == MessageType::of(flags),
    {
        if flags == 0x1 {
            Some(MessageType::General)
        } else if flags == 0x2 {
            Some(MessageType::Validation)
        } else if flags == 0x4 {
            Some(MessageType::Performance)
        } else if flags == 0x8 {
            Some(MessageType::DeviceAddressBinding)
        } else {
            None
        }
    }
}

} // verus!
