//! The core of a recorder of chat history.
//!
//! Listeners turn the events of their chat sessions into store messages
//! ([`protocol`], [`listener`]); a bounded queue carries the messages to the
//! one actor that writes ([`mailbox`], [`actor`]); the actor applies them, in
//! the order of their arrival, to a backend ([`backend`], [`tables`]); and a
//! supervisor ends all of them in an order that loses nothing
//! ([`supervisor`]). What the parts promise of each other is stated in
//! [`laws`].

pub mod actor;
pub mod backend;
pub mod event;
pub mod ident;
pub mod keys;
pub mod laws;
pub mod listener;
pub mod mailbox;
pub mod plan;
pub mod protocol;
pub mod record;
pub mod supervisor;
pub mod tables;
pub mod text;
