# pcapng_mcp_server

A verified library for reading PcapNG and classic PCAP captures and for
answering the JSON-RPC requests of a Model Context Protocol (MCP) tool server
about them, with the server program around it.

- `src/pcapng/blocks.rs` walks the blocks of a PcapNG capture and the records
  of a classic PCAP capture; `pcap-parser` decodes each block or record.
- `src/pcapng/parser.rs` builds a capture's summary (format, packet count,
  interfaces with their names, descriptions and packet counts, first and
  last packet, capture window), its metadata (section header, interfaces,
  section comments) and its timing figures, over all packets or those of
  one interface; it also lists a capture's packets.
- `src/pcapng/packets.rs` reads the protocols, addresses and ports of
  Ethernet frames and selects the packets that meet a filter on them.
- `src/pcapng/analyzer.rs` filters packets and computes time ranges,
  per-interface statistics and size distributions.
- `src/mcp/` holds the server's answers, the routing of JSON-RPC requests,
  the replies, and the tool definitions.
- `src/pcapng/properties.rs`, `src/pcapng/statistics_properties.rs` and
  `src/mcp/properties.rs` state and prove properties that span functions.
- `app/main.rs` is the program: command line, logging, reading files, the
  stdin/stdout loop and JSON writing.

The whole content of a capture file is read into memory and handed to the
library.
