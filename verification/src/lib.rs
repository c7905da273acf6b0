//! The event loop of an MQTT 3.1.1 client: how a connection to a broker is made, kept and made
//! again, and how packets travel between the user, the session and the network.
//!
//! The modules hold the decisions. Sockets, timers, threads and the session's own bookkeeping
//! belong to the caller, who reports what happened and carries out what is decided.
//!
//! * [`connection`]: the turns of the event loop, reconnection, and what streams run.
//! * [`session`]: the handshake, and the paths of requests and replies.
//! * [`stream`]: streams that choose between two sources.
//! * [`request`], [`notification`]: what the user asks for and is told.
//! * [`channel`]: the channel on which the user is told.
//! * [`options`], [`packet`], [`error`]: the data.
//! * [`info`], [`text`]: descriptions for logs.
//! * [`laws`]: what holds over all events and paths.
//! * [`connection_laws`], [`session_laws`], [`stream_laws`], [`text_laws`], [`info_laws`]: what
//!   each step does, in terms of what goes in and what comes out.
#![allow(unused_imports)]

pub mod channel;
pub mod connection;
pub mod connection_laws;
pub mod error;
pub mod info;
pub mod info_laws;
pub mod laws;
pub mod notification;
pub mod options;
pub mod packet;
pub mod request;
pub mod session;
pub mod session_laws;
pub mod stream;
pub mod stream_laws;
pub mod text;
pub mod text_laws;
