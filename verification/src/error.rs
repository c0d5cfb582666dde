//! The error type of the client library.

use vstd::prelude::*;
use vstd::string::*;

use crate::text::{decimal_chars, push_decimal};

verus! {

/// Errors produced by the client's request sizing, configuration and
/// response-validation logic.
#[derive(Debug)]
pub enum Error {
    /// A request or configuration value cannot be encoded or is out of range.
    Encoding(String),
    /// A received value could not be decoded or does not fit its request.
    Decoding { offset: usize, message: String },
    /// The peer answered with a BACnet-Error-PDU.
    Protocol { class: u32, code: u32 },
    /// The peer answered with a BACnet-Reject-PDU.
    Reject { reason: u8 },
    /// The transaction ended with a BACnet-Abort-PDU.
    Abort { reason: u8 },
    /// A router answered Reject-Message-To-Network reason 4 for this DNET.
    RoutedPathTooLong { dnet: u16 },
    /// The routed-path table is full of entries that must be retained.
    RoutedPathCapacityExceeded { capacity: usize },
    /// A segmented transfer cannot proceed.
    Segmentation(String),
    /// No answer arrived within the given number of milliseconds.
    Timeout { millis: u64 },
    /// A configuration value lies outside its permitted range.
    OutOfRange(String),
}

/// Text of the message carried by [`Error::message`].
pub open spec fn error_text(e: Error) -> Seq<char> {
    match e {
        Error::Encoding(m) => m@,
        Error::Decoding { message, .. } => message@,
        Error::Protocol { class, code } => "BACnet error: class="@ + decimal_chars(class as nat)
            + ", code="@ + decimal_chars(code as nat),
        Error::Reject { reason } => "BACnet reject: reason="@ + decimal_chars(reason as nat),
        Error::Abort { reason } => "BACnet abort: reason="@ + decimal_chars(reason as nat),
        Error::RoutedPathTooLong { dnet } => "routed path to network "@ + decimal_chars(
            dnet as nat,
        ) + " rejected the message as too long"@,
        Error::RoutedPathCapacityExceeded { capacity } => "routed path table capacity "@
            + decimal_chars(capacity as nat) + " exceeded"@,
        Error::Segmentation(m) => m@,
        Error::Timeout { millis } => "timed out after "@ + decimal_chars(millis as nat) + " ms"@,
        Error::OutOfRange(m) => m@,
    }
}

impl Error {
    /// A decoding error at `offset` with a fixed message.
    pub fn decoding(offset: usize, message: &str) -> (r: Error)
        ensures
            r matches Error::Decoding { offset: o, message: m } && o == offset && m@ == message@,
    {
        Error::Decoding { offset, message: String::from_str(message) }
    }

    /// Human-readable description of the error.
    pub fn message(&self) -> (r: String)
        ensures
            r@ == error_text(*self),
    {
        match self {
            Error::Encoding(m) => m.clone(),
            Error::Decoding { message, .. } => message.clone(),
            Error::Segmentation(m) => m.clone(),
            Error::OutOfRange(m) => m.clone(),
            Error::Protocol { class, code } => {
                let mut s = String::from_str("BACnet error: class=");
                push_decimal(&mut s, *class as u64);
                s.append(", code=");
                push_decimal(&mut s, *code as u64);
                s
            },
            Error::Reject { reason } => {
                let mut s = String::from_str("BACnet reject: reason=");
                push_decimal(&mut s, *reason as u64);
                s
            },
            Error::Abort { reason } => {
                let mut s = String::from_str("BACnet abort: reason=");
                push_decimal(&mut s, *reason as u64);
                s
            },
            Error::RoutedPathTooLong { dnet } => {
                let mut s = String::from_str("routed path to network ");
                push_decimal(&mut s, *dnet as u64);
                s.append(" rejected the message as too long");
                s
            },
            Error::RoutedPathCapacityExceeded { capacity } => {
                let mut s = String::from_str("routed path table capacity ");
                push_decimal(&mut s, *capacity as u64);
                s.append(" exceeded");
                s
            },
            Error::Timeout { millis } => {
                let mut s = String::from_str("timed out after ");
                push_decimal(&mut s, *millis);
                s.append(" ms");
                s
            },
        }
    }
}

} // verus!
