//! The decisions of a file link service: a bot stores files in a Telegram channel, and a web
//! server hands them out by link.
//!
//! The crate holds what the service decides and computes. Each exchange with the outside world
//! (an upload, a download, one item of the work queue) is a state machine: its state names the
//! one thing to do next, and a step function takes the state and what came of it to the next
//! state. Performing the work is left to the program around the crate.

pub mod download;
pub mod fetch;
pub mod file_info;
pub mod forward;
pub mod ident;
pub mod link;
pub mod message;
pub mod mime;
pub mod names;
pub mod pages;
pub mod queue;
pub mod record;
pub mod reply;
pub mod size;
pub mod text;
pub mod upload;
