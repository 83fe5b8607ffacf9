//! A verified client for the OpenModelica Compiler (OMC).
//!
//! The library decides what a session with an OMC server does: which process is started with
//! which arguments, which messages are sent and what the replies mean, where files lie, and which
//! error is reported when. It performs none of it. Each step hands out what is to be done next,
//! and is handed what came of it.
#![allow(unused_imports)]

pub mod connector;
pub mod error;
pub mod exchange;
pub mod expression;
pub mod identity;
pub mod message;
pub mod options;
pub mod path;
pub mod results;
pub mod session;
pub mod setup;
pub mod system;
pub mod text;
