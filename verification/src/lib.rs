//! Decode-orchestration and sample-normalization pipeline.
//!
//! The library selects a decodable track out of a probed media container,
//! drives a packet-decode loop as a pure state machine, normalizes the
//! codec-native sample representations (unsigned/signed 8/16/32-bit
//! integers and 32/64-bit IEEE floating point, the latter carried as bit
//! patterns) into one output integer type, and accumulates channel-0
//! samples into a single growable buffer.
//!
//! All I/O — opening files, probing the container, fetching packets and
//! decoding them — happens outside the library; the surrounding program
//! reports each outcome to the decode controller and performs the action
//! the controller hands back.

pub mod accumulator;
pub mod controller;
pub mod error;
pub mod ieee;
pub mod normalize;
pub mod sample;
pub mod track;
