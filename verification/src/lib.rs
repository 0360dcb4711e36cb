//! Gossip round protocol engine.
//!
//! Pairs of nodes run gossip rounds to bring their shards of a distributed
//! hash table into agreement. This library sequences such rounds: it says
//! when each step of an exchange may occur and what to send next. It does not
//! compute or check what the messages carry, and it sends nothing itself.
//!
//! - [`round_model`] is the state machine of a single pairwise round.
//! - [`peer_model`] is the per-node coordinator of the rounds with all peers
//!   and of the node's own outstanding proposal; [`peer_laws`] holds what is
//!   proved of it.
//! - [`tie_break`] decides which of two nodes yields when both propose at once.
//! - [`gossip_model`] is a model of a network of such nodes with the messages
//!   in flight between them; [`gossip_laws`] holds what is proved of whole
//!   rounds running through it.
//! - [`error`] holds the failures. Each concerns one peer only.
//!
//! Beside the engine stands [`api_cell`], the API through which a cell of a
//! conductor reaches that conductor, as far as it decides anything.

use vstd::prelude::*;

pub mod api_cell;
pub mod error;
pub mod gossip_laws;
pub mod gossip_model;
pub mod peer_laws;
pub mod peer_model;
pub mod round_model;
pub mod tie_break;

verus! {

/// Identifies a remote peer. Peers are only ever compared and used as map keys.
pub type NodeId = u8;

} // verus!
