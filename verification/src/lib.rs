//! Incremental markup-parsing engine: the orchestration state machine that
//! feeds an external tokenizer from network- and script-originated input,
//! together with its input queues, byte-order-mark sniffing, network
//! decoding, tree-construction adapter and fetch-response bridge.

pub mod bom;
pub mod decode;
pub mod document;
pub mod dom;
pub mod util;
pub mod parser;
pub mod queue;
pub mod response;
pub mod sink;
