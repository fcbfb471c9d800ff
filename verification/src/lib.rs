//! Coordination core of a terminal podcast client.
//!
//! The client has a foreground loop, which takes keys and draws, and a
//! background worker, which fetches feeds. They share nothing but two
//! queues. This library holds what both decide: how a line of input is read
//! ([`ui::input`]), what is sent over the queues ([`message`]), what the
//! worker does with a request ([`data`], [`feed`]), how the state of the
//! foreground changes ([`state`], [`foreground`]) and what is shown of it
//! ([`ui`]). Waiting, sending and drawing are left to the program around it.

pub mod data;
pub mod feed;
pub mod foreground;
pub mod message;
pub mod state;
pub mod text;
pub mod trace;
pub mod ui;
