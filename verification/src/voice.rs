//! The orchestrator of personal voice channels: what it asks of the platform and the registry,
//! and how it decides on their answers.
//!
//! A channel is a lobby where the registry has a row for it with owner `0`, active where it
//! has a row with an owner, and absent where it has none. Joining a lobby creates a channel
//! and, once the platform has confirmed it, writes its row. Leaving an active channel has
//! its occupancy read anew; only where that is zero is the channel deleted, and only once
//! the platform has confirmed the deletion is the row removed. Between the request to delete
//! and its answer the channel is being reclaimed; a failed deletion leaves it active.
//!
//! Nothing here waits or calls out. [`handler::PresenceHandler`] and [`sweep::Sweep`] name
//! one call at a time and take its answer; the host makes the calls. What holds of every
//! run, whatever the answers are, is proved in [`runs`] and [`sweep_runs`]; what holds when
//! many runs take turns is proved in [`system`] and [`lifecycle`]; and [`world`] shows that
//! a second sweep finds nothing left to do.

pub mod handler;
pub mod lifecycle;
pub mod protocol;
pub mod runs;
pub mod sweep;
pub mod sweep_runs;
pub mod system;
pub mod world;
