//! Verified decision logic of a small RTSP/WebRTC camera toolkit: the
//! signalling messages that a WebRTC bridge exchanges with a browser, the
//! session machine that drives a bridge, the capture and viewer loops, the
//! GStreamer pad and bus decisions, and the worker registry of the controller.
pub mod text;
pub mod json;
pub mod signaling;
pub mod session;
pub mod pipeline;
pub mod capture;
pub mod registry;
pub mod api;
