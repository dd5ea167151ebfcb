//! The decisions behind a pair of GStreamer elements that carry media over MoQ.
//!
//! `MoqSrc` subscribes to a broadcast and turns each of its tracks into a source pad;
//! `MoqSink` publishes the fragments that reach its sink pad. Everything the two elements
//! decide (which settings are acceptable, which caps a track gets, what a frame's buffer looks
//! like, what comes next in a session) is a function of this crate on plain values. The
//! glue that talks to GStreamer, to the network and to the async runtime performs the actions
//! that these functions ask for and reports back what happened.

pub mod caps;
pub mod catalog;
pub mod element;
pub mod forward;
pub mod outside;
pub mod pad_setup;
pub mod pads;
pub mod properties;
pub mod pump;
pub mod service;
pub mod settings;
pub mod sink;
pub mod sink_session;
pub mod source;
pub mod source_session;
pub mod track;
