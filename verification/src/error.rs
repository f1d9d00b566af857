//! What can end an aggregation, and how each error reads.

use crate::codec::DecodeError;
use crate::registered_account::CryptoError;
use crate::scan::ScanError;
use vstd::prelude::*;
use vstd::string::StringExecFns;

verus! {

/// Why one kind of entity could not be listed.
#[derive(Clone, Copy, Debug, PartialEq, Eq, Structural)]
pub enum AggregationError {
    /// The node could not be reached, or refused the connection.
    Connection,
    /// The scan of the storage map failed.
    Scan(ScanError),
    /// An entry of the storage map could not be decoded.
    Decode(DecodeError),
}

/// How a scan error reads.
pub open spec fn scan_error_text(error: ScanError) -> Seq<char> {
    match error {
        ScanError::NoBlockHash => "Error getting block hash"@,
        ScanError::Transport => "Error reading storage from the node"@,
        ScanError::MalformedKey => "Storage key is too short to hold an identity"@,
        ScanError::UnexpectedAnswer => "Unexpected answer from the node"@,
        ScanError::Unfinished => "Storage scan ended before its last entry"@,
    }
}

/// How a decode error reads.
pub open spec fn decode_error_text(error: DecodeError) -> Seq<char> {
    match error {
        DecodeError::MalformedLength => "Malformed length prefix"@,
        DecodeError::Truncated => "Not enough data to decode the record"@,
        DecodeError::InvalidTag => "Unknown variant tag"@,
        DecodeError::InvalidUtf8 => "Text is not valid UTF-8"@,
    }
}

/// How a key error reads.
pub open spec fn crypto_error_text(error: CryptoError) -> Seq<char> {
    match error {
        CryptoError::InvalidEncoding => "Verifying key is not an encoded curve point"@,
        CryptoError::InvalidPoint => "Verifying key is not on the curve"@,
    }
}

/// How an aggregation error reads: the text of the error that caused it.
pub open spec fn aggregation_error_text(error: AggregationError) -> Seq<char> {
    match error {
        AggregationError::Connection => "Could not connect to the chain endpoint"@,
        AggregationError::Scan(e) => scan_error_text(e),
        AggregationError::Decode(e) => decode_error_text(e),
    }
}

impl ScanError {
    /// How the error reads.
    pub fn message(&self) -> (text: &'static str)
        ensures
            text@ == scan_error_text(*self),
    {
        match self {
            ScanError::NoBlockHash => "Error getting block hash",
            ScanError::Transport => "Error reading storage from the node",
            ScanError::MalformedKey => "Storage key is too short to hold an identity",
            ScanError::UnexpectedAnswer => "Unexpected answer from the node",
            ScanError::Unfinished => "Storage scan ended before its last entry",
        }
    }
}

impl DecodeError {
    /// How the error reads.
    pub fn message(&self) -> (text: &'static str)
        ensures
            text@ == decode_error_text(*self),
    {
        match self {
            DecodeError::MalformedLength => "Malformed length prefix",
            DecodeError::Truncated => "Not enough data to decode the record",
            DecodeError::InvalidTag => "Unknown variant tag",
            DecodeError::InvalidUtf8 => "Text is not valid UTF-8",
        }
    }
}

impl CryptoError {
    /// How the error reads.
    pub fn message(&self) -> (text: &'static str)
        ensures
            text@ == crypto_error_text(*self),
    {
        match self {
            CryptoError::InvalidEncoding => "Verifying key is not an encoded curve point",
            CryptoError::InvalidPoint => "Verifying key is not on the curve",
        }
    }
}

impl AggregationError {
    /// The message that the page shows in place of the list.
    pub fn message(&self) -> (text: String)
        ensures
            text@ == aggregation_error_text(*self),
    {
        match self {
            AggregationError::Connection => String::from_str(
                "Could not connect to the chain endpoint",
            ),
            AggregationError::Scan(e) => String::from_str(e.message()),
            AggregationError::Decode(e) => String::from_str(e.message()),
        }
    }
}

} // verus!
