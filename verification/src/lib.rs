//! Verified core of a client for a session-authenticated, real-time tabletop
//! server: session negotiation, the transport's connection policy, the
//! request/response bridge over acknowledged events, and the ordered bootstrap
//! that ties them into one client handle.
//!
//! Nothing here performs I/O. Each stage decides from plain values what is to
//! be sent next and what a reply means; a thin driver performs the I/O and
//! hands the replies back.
//!
//! - [`session`]: what to ask of the join endpoint, and what its answers mean.
//! - [`endpoint`] and [`transport`]: what a connection is opened with, and
//!   the life cycle of a connection under the reconnect policy.
//! - [`rpc`]: one bounded request/response call over an acknowledged event.
//! - [`payload`], [`json`] and [`roster`]: what replies carry, and the lookup
//!   of an identity by display name.
//! - [`connection`] and [`bootstrap`]: the builder, the client handle, and the
//!   pipeline that leads from nothing to a client.
//! - [`world`], [`dnd5e`] and [`commands`]: the documents of a world, and the
//!   rules of the chat commands that read them.
//! - [`script`]: where the scripts of a server installation lie.
//! - [`error`] and [`text`]: the tagged failures, and helpers on strings.

pub mod bootstrap;
pub mod commands;
pub mod connection;
pub mod dnd5e;
pub mod endpoint;
pub mod error;
pub mod json;
pub mod payload;
pub mod roster;
pub mod rpc;
pub mod script;
pub mod session;
pub mod text;
pub mod transport;
pub mod world;
