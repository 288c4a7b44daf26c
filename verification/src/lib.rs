//! Streaming chat pipeline between a client connection and a local inference server.
//!
//! One connection is served by three workers (receiver, inference, sender) under a
//! gateway. Each worker is a state machine: a `step` function takes the state and the
//! outcome of the last request, and returns the next state with the next request. The
//! caller performs the request (a queue operation, a storage call, a network read or
//! write) and reports its outcome. Everything that is decided is decided here.

pub mod answer;
pub mod config;
pub mod delta;
pub mod error;
pub mod forms;
pub mod gateway;
pub mod ident;
pub mod inference;
pub mod models;
pub mod ollama;
pub mod receiver;
pub mod role;
pub mod routes;
pub mod sender;
pub mod stamp;
pub mod text;
pub mod transcript;
pub mod trace;
