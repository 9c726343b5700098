//! Verified core of a headset mix-dial service.
//!
//! A physical volume-mix dial on a headset reports game/chat balance over a
//! raw 4-byte HID frame stream.  This crate holds the verified logic of the
//! service that watches that stream: decoding frames, discovering which
//! device node carries the dial's protocol, the session state machine that
//! turns frames into audio-routing operations, and the small parsers that
//! interpret the audio collaborator's output.  The surrounding process
//! performs the actual device and audio-server I/O and feeds plain values in
//! and out of this crate.

pub mod audio;
pub mod controller;
pub mod frame;
pub mod locator;
pub mod parse;
