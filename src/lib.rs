//! Orchestration core of a peer-to-peer file transfer: safe placement of
//! remote-supplied names, progress aggregation, the send, receive and export
//! state machines, and the ticket's peer-address model.
pub mod error;
pub mod path;
pub mod progress;
pub mod interconnect;
pub mod hash;
pub mod export;
pub mod serve;
pub mod receive;
pub mod view;
pub mod ticket;
