//! Verified core of RemoteMic.
use vstd::prelude::*;

pub mod audio;
pub mod cli;
pub mod ice;
pub mod metrics;
pub mod page;
pub mod preflight;
pub mod queue;
pub mod rtp;
pub mod server;
pub mod session;
pub mod signaling;
pub mod text;
pub mod tls;
pub mod writer;

verus! {

} // verus!
