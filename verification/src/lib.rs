//! Keeps a local, timestamped record of what a Spotify account is playing.
//!
//! The library holds the decisions of one polling cycle: which request to
//! make with which credential, what an answer means, whether an observation
//! is new, and what to write. Network, disk and clock belong to the host,
//! which performs each request the library asks for and hands the answer
//! back.
//!
//! - [`plugin`] starts a plugin from its configuration and persisted
//!   credential; [`credential`] is the cache of that credential.
//! - [`fetch`] and [`refresh`] read the player's state and renew the
//!   credential; [`blob`] keeps covers.
//! - [`cycle`] strings these together into one cycle, step by step, and
//!   [`poll`] says what follows a cycle.
//! - [`store`] is an event store in memory, [`run`] runs cycles against it,
//!   and [`timeline`] shows what it holds.
//! - [`laws`] and [`history`] state what holds of every cycle and of every
//!   store that cycles write to.
//! - [`outside`] holds the calls into other crates, whose contracts are
//!   believed and not proved.

pub mod blob;
pub mod credential;
pub mod cycle;
pub mod event;
pub mod fetch;
pub mod history;
pub mod laws;
pub mod outside;
pub mod plugin;
pub mod poll;
pub mod refresh;
pub mod run;
pub mod store;
pub mod text;
pub mod timeline;
pub mod views;
