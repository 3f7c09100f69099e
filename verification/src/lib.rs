//! Federation core of a distributed social-content platform.
//!
//! The crate models the protocol-handling mechanics for federated
//! activities: verifying an actor's authority over the scope an activity
//! targets, discarding duplicate deliveries through a dedup ledger,
//! deciding from site policy whether an inbound vote is applied or
//! undone, resolving externally supplied identifiers behind a trust
//! gate, and queueing locally originated side effects for asynchronous
//! outbound delivery.
//!
//! Storage and transport are collaborators of this core, not part of
//! it: network dereferences arrive as [`objects::Fetched`] values and
//! persistent state is modelled by the stores in this crate, which a
//! host binds to its database and delivery loop.

pub mod dedup;
pub mod dispatch;
pub mod objects;
pub mod policy;
pub mod purge;
pub mod resolve;
pub mod store;
pub mod votes;
pub mod voting;
