//! Command protocol and signing workflow of a native-messaging host that
//! lists OpenPGP cards and asks them for ed25519 signatures: length-prefixed
//! frames, card identifiers, the card listing, the error taxonomy and the
//! signing state machine. Card I/O is left to the caller, which performs the
//! actions that the state machine hands out.
use vstd::prelude::*;

pub mod aid;
pub mod card;
pub mod error;
pub mod frame;
pub mod hex;
pub mod protocol;
pub mod workflow;
