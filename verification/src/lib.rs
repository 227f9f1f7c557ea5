//! Core of a remote mouse-control service: the wire format of a batch of mouse
//! actions, the order in which a batch is carried out, the status line of each
//! action, and the reply that goes back to the client.
//!
//! The crate moves no cursor and opens no socket. A driver around it performs
//! each [`execute::Command`] on the host and reports how it went.

pub mod text;
pub mod button;
pub mod number;
pub mod action;
pub mod execute;
pub mod json;
pub mod decode;
pub mod reply;
pub mod service;
