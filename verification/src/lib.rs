//! The decision core of a gateway-connected chat bot: classification of
//! gateway events, the shard status line, the command registry and its
//! routing, the raw-markdown commands and the error funnel.
//!
//! Every function here maps plain values to plain values; the connection,
//! the replies and the log output belong to the program around the library.

use vstd::prelude::*;

pub mod copy;
pub mod event;
pub mod funnel;
pub mod lifecycle;
pub mod link;
pub mod markdown;
pub mod registry;
pub mod router;
pub mod shard;
pub mod text;

verus! {

/// The user data handed to every command and to the event classifier. The
/// bot keeps no state of its own, so it has no field.
#[derive(Debug, Clone, Copy, PartialEq, Eq, Structural)]
pub struct Data {}

} // verus!
