//! A caching reverse proxy for package repositories: the decisions of the
//! request pipeline and of the cache lifecycle, stated and proved.
//!
//! Nothing in this library touches the disk or the network. A caller performs
//! the actions that the state machines hand out and reports back what happened.

pub mod config;
pub mod error;
pub mod expiry;
pub mod key;
pub mod request;
pub mod session;
pub mod store;
pub mod sweep;
pub mod tee;
