//! Protocol-step event pipeline for a two-party DIDComm messaging demo.
//!
//! Message flows emit one event record per protocol step, hand each record to
//! a broadcast channel for live observers, and return the ordered list of
//! records to the caller that triggered them.
pub mod api;
pub mod flows;
pub mod identity;
pub mod json;
pub mod mediator;
pub mod packet_logger;
pub mod text;
