//! Core of an RDP client that bridges a remote access gateway to a Windows
//! RDP server.  The crate models the session bring-up parameters, the channel
//! multiplexer, the drive-redirection bridge with its pending-request table,
//! the text clipboard, and the TDP (Teleport Desktop Protocol) message set
//! exchanged with the host process.  All transport and FFI plumbing lives
//! outside this crate; the functions here are pure state transitions over
//! plain values, with their behaviour stated in contracts.

pub mod cliprdr;
pub mod events;
pub mod path;
pub mod pin;
pub mod rdpdr;
pub mod session;
pub mod table;
pub mod tdp;
pub mod unicode;
pub mod util;
