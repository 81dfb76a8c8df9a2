//! Streaming chat core: an incremental decoder for `field: value` event
//! streams, the backend adapters that turn decoded events into text chunks,
//! and the configuration helpers of the local state-space model example.

pub mod adapter;
pub mod decoder;
pub mod event;
pub mod mamba;
pub mod pipeline;
pub mod text;
