//! Synchronization and transport engine for a two-node file mirror.
//!
//! A "desktop" node exposes a small HTTP surface (status, browse, transfer,
//! sync-project CRUD and reconciliation) backed by in-process tables, and a
//! "mobile" node runs a polling client that drains commands, applies typed
//! events to its own state, and reconciles tracked sync projects against the
//! desktop's watermarks.  This crate holds the verified core of both sides:
//! the tables and their transitions, the reconciliation and notification
//! rules, and the text helpers they share.  All I/O — HTTP, the overlay
//! network's local IPC, the filesystem, channels — lives outside this crate
//! and hands it plain values.

pub mod backend;
pub mod browse;
pub mod client;
pub mod models;
pub mod notify;
pub mod preview;
pub mod server;
pub mod store;
pub mod text;
