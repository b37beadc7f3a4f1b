//! The core of a polling service with passkey login and live tallies.
//!
//! Two things are decided here and proved. One is how a two-step credential
//! ceremony becomes a user and a session: `credential`, `challenge`, `auth`
//! and `session`. The other is how votes are applied, once and only to open
//! polls, and passed on to the viewers of a poll: `models`, `store`, `polls`
//! and `live`. `laws` states what holds across these. The web server, the
//! database, the session store and the sockets belong to the program around
//! this library.

pub mod auth;
pub mod challenge;
pub mod credential;
pub mod error;
pub mod ident;
pub mod laws;
pub mod live;
pub mod models;
pub mod polls;
pub mod session;
pub mod store;
pub mod text;
