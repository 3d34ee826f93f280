//! A bridge that exposes profiles of an upstream social platform through
//! WebFinger and ActivityPub actor documents.
//!
//! The library holds the logic: it frames requests to the upstream batched
//! query protocol, decodes its tagged responses, interprets the loader state
//! embedded in profile pages, decides whether an account exists, and builds
//! the discovery and actor documents. Transport is left to the caller.

pub mod activitystreams;
pub mod client;
pub mod codec;
pub mod document;
pub mod envelope;
pub mod error;
pub mod json;
pub mod loader;
pub mod resolver;
pub mod text;
pub mod types;
pub mod webfinger;
