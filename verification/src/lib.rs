//! A chat relay, verified.
//!
//! Clients connect over a persistent channel, authenticate with a token,
//! and exchange JSON envelopes with the service; prompts are answered by a
//! text-generation backend whose output is streamed back piece by piece,
//! and conversations are kept in one JSON document.
//!
//! This library holds the logic of that service: the token validator
//! (`auth`), the client registry (`registry`), the state machine of one
//! connection (`connection`) and the answers to its requests
//! (`operations`), the generation proxy (`generation`), and the
//! conversation store (`store`) with its document (`model`), its file
//! format (`archive`), the way it is opened for an operation (`opening`)
//! and the laws that hold of it (`laws`). It reads no
//! file and opens no socket: its caller does, and hands over what it read.
//!
//! Every function carries a contract that Verus proves. The calls into
//! other crates stand behind a few functions whose contracts are stated
//! and not proved; each of them says so.
pub mod accounts;
pub mod archive;
pub mod auth;
pub mod chat_ops;
pub mod config;
pub mod connection;
pub mod documents;
pub mod generation;
pub mod ids;
pub mod json;
pub mod laws;
pub mod lookup;
pub mod model;
pub mod opening;
pub mod operations;
pub mod order;
pub mod payloads;
pub mod profile;
pub mod registry;
pub mod responses;
pub mod select;
pub mod session_index;
pub mod store;
pub mod text;
pub mod time;
pub mod titles;
pub mod user_ops;
pub mod wire;
