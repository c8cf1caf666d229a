//! A persistent, typed actor runtime: the rules by which actors are named,
//! spawned, addressed, answered and watched, stated over plain values.
//!
//! Nothing here touches a store, a clock or a network. Each function takes
//! what was read from the store and says what is to be written or returned;
//! the program around the library performs the reads and writes.
//!
//! - `engine`: the options of an engine, and the steps that connect to a
//!   store, open the in-process store and reset a database.
//! - `backoff`: the schedule on which a failed connection is tried again.
//! - `schema`: the tables and indexes of the store and the script that
//!   defines them.
//! - `identity`: actor ids and the registry of actor tags.
//! - `lifecycle`: spawn, save, kill and health of an actor.
//! - `health`: heartbeats and the rule of staleness.
//! - `frame`: request and reply frames.
//! - `mailbox`: sending, the reply protocol, and the stream of replies.
//! - `behavior`: behavior tree nodes and the loop of an actor.
//! - `error`: the kinds of error.
//! - `time`: spans and instants.
//! - `text`: helpers on text and bytes.

pub mod backoff;
pub mod behavior;
pub mod engine;
pub mod error;
pub mod frame;
pub mod health;
pub mod identity;
pub mod lifecycle;
pub mod mailbox;
pub mod schema;
pub mod text;
pub mod time;
