//! Verified request-sizing, segmentation, routing-path and subscription logic
//! of a BACnet client.

pub mod text;
pub mod error;
pub mod limits;
pub mod model;
pub mod target;
pub mod routed_path;
pub mod config;
pub mod segmentation;
pub mod segmented_send;
pub mod request;
pub mod transaction;
pub mod dispatch;
pub mod cov;
pub mod builder;
pub mod events;
pub mod file_access;
pub mod event_text;
