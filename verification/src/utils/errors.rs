use vstd::prelude::*;
use vstd::string::*;

use crate::utils::text::{decimal, format_decimal};

verus! {

/// The ways reading or answering about a capture fails. Each carries the
/// text that its message ends with (for input/output and JSON failures, the
/// text of the underlying error).
#[derive(Debug)]
pub enum PcapNGError {
    FileNotFound(String),
    FileError(String),
    InvalidFormat(String),
    ParseError(String),
    IoError(String),
    JsonError(String),
    McpError(String),
    TimestampError(String),
    UnsupportedLinkType(u16),
}

/// A result whose error is a [`PcapNGError`].
pub type PcapNGResult<T> = core::result::Result<T, PcapNGError>;

/// Another name for [`PcapNGResult`].
pub type Result<T> = core::result::Result<T, PcapNGError>;

impl PcapNGError {
    /// The message of this error.
    pub open spec fn message(&self) -> Seq<char> {
        match self {
            PcapNGError::FileNotFound(s) => "File not found: "@ + s@,
            PcapNGError::FileError(s) => "File error: "@ + s@,
            PcapNGError::InvalidFormat(s) => "Invalid PcapNG format: "@ + s@,
            PcapNGError::ParseError(s) => "Parsing error: "@ + s@,
            PcapNGError::IoError(s) => "IO error: "@ + s@,
            PcapNGError::JsonError(s) => "JSON serialization error: "@ + s@,
            PcapNGError::McpError(s) => "MCP error: "@ + s@,
            PcapNGError::TimestampError(s) => "Invalid timestamp: "@ + s@,
            PcapNGError::UnsupportedLinkType(code) => "Unsupported link type: "@ + decimal(*code as nat),
        }
    }

    /// Writes the message of this error.
    pub fn to_string(&self) -> (s: String)
        ensures
            s@ == self.message(),
    {
        let (prefix, detail): (&str, String) = match self {
            PcapNGError::FileNotFound(s) => ("File not found: ", s.clone()),
            PcapNGError::FileError(s) => ("File error: ", s.clone()),
            PcapNGError::InvalidFormat(s) => ("Invalid PcapNG format: ", s.clone()),
            PcapNGError::ParseError(s) => ("Parsing error: ", s.clone()),
            PcapNGError::IoError(s) => ("IO error: ", s.clone()),
            PcapNGError::JsonError(s) => ("JSON serialization error: ", s.clone()),
            PcapNGError::McpError(s) => ("MCP error: ", s.clone()),
            PcapNGError::TimestampError(s) => ("Invalid timestamp: ", s.clone()),
            PcapNGError::UnsupportedLinkType(code) => ("Unsupported link type: ", format_decimal(*code as u64)),
        };
        let mut out = String::from_str(prefix);
        out.append(detail.as_str());
        out
    }
}

} // verus!
