//! Resolving playable media links for Twitch recordings and live channels.
//!
//! A recording is known to the public metadata service by a thumbnail
//! template only. [`vod`] decodes the template into the path under which the
//! recording is stored and composes one candidate link for each known
//! delivery host; [`probe`] keeps what the probes of those candidates came
//! back with and reports the links that are served, in the order of the
//! hosts. A live channel is reached through a signed token: [`stream`]
//! decodes the token, composes the address of the master playlist and parses
//! the playlist into its variants.
//!
//! The library sends nothing and reads no file. It composes each
//! [`http::Request`] and judges each [`http::Reply`]; the caller carries them
//! over the network. [`target`] tells a recording from a channel, and
//! [`secrets`] decodes the caller's credentials.
//!
//! Four things are the work of others and are taken on trust: the search of
//! a text for a pattern ([`pattern`]), the reading of JSON ([`json`]), and of
//! the standard library the appending of a character to a text ([`text`])
//! and the test for a letter ([`target`]). Everything else is proved against
//! the contracts written beside it.

pub mod error;
pub mod http;
pub mod json;
pub mod pattern;
pub mod probe;
pub mod secrets;
pub mod stream;
pub mod target;
pub mod text;
pub mod vod;

pub use crate::error::Error;
pub use crate::secrets::Secrets;
pub use crate::stream::{get_stream_token, StreamPlaybackAccessToken};
pub use crate::vod::estimate_vod_link;
