//! A relay from cloud log batches and notifications to a chat webhook.
//!
//! The library holds everything that decides: how configuration is resolved,
//! how an inbound payload is decoded into messages, which chat payload each
//! message becomes, and in which order deliveries are attempted and abandoned.
//! Performing a delivery is left to the caller, who reports each outcome back.

pub mod codec;
pub mod config;
pub mod decode;
pub mod error;
pub mod event;
pub mod json;
pub mod notify;
pub mod relay;
