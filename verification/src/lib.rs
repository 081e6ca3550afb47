//! Verified core of the SumUp SDK: webhook signature checking, webhook event
//! classification, the package manifest reader and the SDK data model.
pub mod client;
pub mod clock;
pub mod datetime;
pub mod decimal;
pub mod hex_codec;
pub mod http;
pub mod mac;
pub mod resources;
pub mod samples;
pub mod manifest;
pub mod secret;
pub mod text;
pub mod trace;
pub mod version;
pub mod webhooks;

pub use client::{Authorization, Client};
