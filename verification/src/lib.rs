//! Reading PcapNG and classic PCAP captures, summarising them, and answering
//! the JSON-RPC requests of a Model Context Protocol tool server about them.

pub mod mcp;
pub mod pcapng;
pub mod utils;
