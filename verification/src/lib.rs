//! Start-up guard for a persistent blockchain database.
//!
//! Before anything else touches an opened store, the guard decides whether the
//! store is empty and must be seeded with the network's genesis block, or was
//! filled earlier and must match the genesis block and the record layout of the
//! running software.  The guard never talks to a storage engine itself: it is a
//! state machine that says what the store has to be asked next and takes the
//! store's answer as its input, so that every decision it makes is a verified
//! function of plain values.
//!
//! * `hash`: block hashes and their byte-exact equality.
//! * `error`: the failures of a bootstrap, their messages and their severity.
//! * `protocol`: the requests that the guard makes and the replies it takes.
//! * `guard`: the state machine.
//! * `model`: a mathematical model of a store.
//! * `laws`: what is proved of the guard run against that model.
//! * `location`: which directory holds the database and which the peer table.

pub mod error;
pub mod guard;
pub mod hash;
pub mod laws;
pub mod location;
pub mod model;
pub mod protocol;
