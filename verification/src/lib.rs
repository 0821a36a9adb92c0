//! A host that loads chat-bot scripts and routes chat events to the hooks they define.
//!
//! The engine itself (the JavaScript runtime, the chat client, the network) is driven
//! from outside; this crate holds the decisions: which hooks a script defines, which
//! scripts hear an event, how ids cross between the two worlds as text, and what each
//! value shows when it is printed.
pub mod api;
pub mod engine;
pub mod error;
pub mod host;
pub mod text;
