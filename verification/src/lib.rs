//! A verified core for a UDP OSC highlight bridge: datagrams from a pattern
//! runtime are decoded, address-filtered, translated to canonical highlight
//! events, queued in a FIFO buffer, and re-encoded for an editor plugin.

pub mod args;
pub mod buffer;
pub mod config;
pub mod decode;
pub mod event;
pub mod packet;
pub mod translate;
pub mod wire;

