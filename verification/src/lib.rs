//! The fetch-and-cache pipeline of a reader for the NewsAPI service.
//!
//! The library decides; the program around it acts. Every decision is a
//! function from plain values to plain values with a proved contract:
//!
//! - [`newsapi`] plans the requests to the service and turns its answers
//!   into results;
//! - [`cache`] names the entries of the on-disk image cache, validates
//!   payloads and drives the resolution of one image URL step by step;
//! - [`ui`] holds the screens as state machines: the listing with one image
//!   slot per article, the source switches, and the generations that tell
//!   fresh image completions from stale ones;
//! - [`laws`] proves what holds of all of this whatever it is fed;
//! - [`trusted`] lists what is taken on trust of the crates that do the
//!   hashing, the sniffing and the header checks.
//!
//! Nothing here touches the network, the disk or the clock. A screen
//! answers a message with commands; whoever carries them out reports back
//! with further messages.

pub mod cache;
pub mod laws;
pub mod newsapi;
pub mod trusted;
pub mod ui;
