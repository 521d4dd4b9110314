//! The core of a game client: the model of decoded packet values, the opcode
//! table, the packet parsers, the pipeline that picks packets for output, and
//! the decisions the client makes on messages from its web page, on web
//! requests and on new windows.

pub mod client;
pub mod client_laws;
pub mod command_laws;
pub mod json;
pub mod laws;
pub mod opcodes;
pub mod overlay;
pub mod packet_laws;
pub mod packets;
pub mod parser;
pub mod payload;
pub mod text;
pub mod web_message;
