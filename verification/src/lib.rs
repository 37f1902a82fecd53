// SPDX-License-Identifier: GPL-3.0

//! Core of a panel applet for chatting with a language model that runs on
//! this machine.
//!
//! The library holds what the applet decides and computes, each function
//! with a contract that Verus proves:
//!
//! - [`ollama`]: the payload of a chat request, the catalog of models with
//!   their display sizes, and the texts of failures;
//! - [`stream`]: the streaming protocol, from raw chunks of a response body
//!   to the events that the consumer of a stream gets;
//! - [`context`]: the system context that is added to the prompt, made
//!   from what a handful of utilities print;
//! - [`web`]: what a web search asks and what its response comes to;
//! - [`history`]: the transcript that is kept between runs, and where;
//! - [`session`]: the conversation as the applet keeps it, as a state
//!   machine from events to actions;
//! - [`config`]: endpoint and model;
//! - [`text`]: the text utilities that the others are built on.
//!
//! Nothing here reads a file, runs a program or talks to a server. The
//! application around the library does that, and hands what it got to the
//! library as plain values.

pub mod config;
pub mod context;
pub mod history;
pub mod ollama;
pub mod session;
pub mod stream;
pub mod text;
pub mod web;
