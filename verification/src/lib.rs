//! The core of `gim`, a tool that drafts a commit message from the changes
//! in a working directory with the help of a remote language model, and
//! commits with it.
//!
//! The library holds the rules of the tool: how the changes become a text,
//! which endpoint a model is reached at, what is sent and what an answer
//! means, in which order the steps of a run follow each other, and when the
//! user is reminded of a newer version. It neither runs a subprocess nor
//! opens a file or a connection: whoever uses it does that, and hands over
//! what came of it.

pub mod cli;
pub mod config;
pub mod constants;
pub mod text;
