//! A client for the Feedbin REST API, kept apart from the wire.
//!
//! The library decides which request belongs to an operation and what a
//! response to it means; performing the HTTP exchange is left to the caller.

pub mod client;
pub mod decimal;
pub mod decode;
pub mod error;
pub mod json;
pub mod subscription;

pub use client::{Feedbin, Request, Response};
pub use decode::{decode_subscriptions, subscription_from_json, subscriptions_from_json};
pub use error::{DecodeError, Error, Field, ShapeError, SyntaxError, TransportFailure};
pub use subscription::Subscription;
