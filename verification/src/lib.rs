//! SRT transport on top of libsrt: the protocol's data types and the rules of
//! the bridge between libsrt's blocking C API and asynchronous callers.
//!
//! [`epoll_bridge`] holds the rules of the I/O thread, [`socket`], [`listener`]
//! and [`group`] those of setting connections up. Neither touches libsrt or a
//! channel: they say what is to be done, and are told what came of it.

use vstd::prelude::*;

pub mod access_control;
pub mod addr;
pub mod config;
pub mod duration;
pub mod epoll_bridge;
pub mod error;
pub mod fec;
pub mod flow;
pub mod group;
pub mod laws;
pub mod listener;
pub mod options;
pub mod received_packet;
pub mod socket;
pub mod stats;
pub mod text;

pub use access_control::{AccessControl, AccessControlFn, HandshakeInfo};
pub use config::{KeySize, MemberStatus, SocketStatus, SrtConfig, TransType};
pub use error::{RejectReason, SrtError};
pub use group::{GroupMemberStats, GroupMode, SrtGroup, SrtGroupBuilder};
pub use listener::{SrtListener, SrtListenerBuilder};
pub use received_packet::ReceivedPacket;
pub use socket::{SrtSocket, SrtSocketBuilder};
pub use stats::SrtStats;

verus! {

/// The name of the SRT backend.
pub const BACKEND_NAME: &'static str = "libsrt";

} // verus!
