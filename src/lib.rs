//! Rendezvous and NAT-traversal core of a peer-to-peer node network.
//!
//! Nodes register with a well-known root node, discover each other through it,
//! and have it coordinate hole punching so that two nodes behind address
//! translation can dial each other directly, trusting the certificate that the
//! root node handed over.

use vstd::prelude::*;

pub mod address;
pub mod identity;
pub mod registry;
pub mod protocol;
pub mod session;
pub mod cert;
pub mod status;
pub mod lock;
