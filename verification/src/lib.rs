//! A library for building `LS_COLORS` colour schemes: a colour/effect data
//! model with its deterministic wire encoding, a persistent multi-scheme
//! store, and the modal edit-session state machine that drives all
//! mutations from discrete input events.

pub mod colours;
pub mod controller;
pub mod scheme;
pub mod store;
