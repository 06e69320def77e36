//! Core of a two-peer LAN chat renderer: a fixed-size bordered scroll
//! region, a row-cursor handoff protocol between a peer line feed and a
//! local input editor, a bounded line-editing buffer, and an outbound
//! FIFO of committed lines.
//!
//! Everything here is protocol-free logic: the surrounding program
//! performs the terminal drawing and socket I/O and feeds events in as
//! plain values.

pub mod chat;
pub mod editor;
pub mod input;
pub mod laws;
pub mod outbound;
pub mod peer;
pub mod region;
pub mod relay;
pub mod render;
pub mod session;
