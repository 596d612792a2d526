//! Fan-out of one live capture source to many HTTP clients.
//!
//! `frames` holds the subscriber bookkeeping that decides when the capture
//! source runs and how each subscriber walks the frames of its epoch, which
//! reach it through the fan-out channel that `channel` declares;
//! `lifecycle` states what whole runs of that bookkeeping guarantee;
//! `http` decides the responses; `size` reads a capture resolution;
//! `text` writes numbers as decimal text.
pub mod channel;
pub mod frames;
pub mod http;
pub mod lifecycle;
pub mod size;
pub mod text;
