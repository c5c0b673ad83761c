//! The decisions of a WebRTC signalling server: what a text frame means, who
//! is told what, and in which order a peer connection is set up.

pub mod chat;
pub mod framing;
pub mod json;
pub mod laws;
pub mod media;
pub mod message;
pub mod negotiation;
pub mod promises;
pub mod registry;
pub mod server;
pub mod session;
pub mod settings;
pub mod text;
