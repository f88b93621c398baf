//! Decision core of an SSH/SFTP session manager.
//!
//! Everything here works on plain values. The surrounding program performs the
//! network and file I/O, reports each outcome to this crate, and carries out
//! the step that this crate answers with.
//!
//! - `request` validates a connection request and derives the plan of the
//!   connection; `connect` is the state machine that the attempt runs through.
//! - `registry` holds the open sessions and decides what an operation on a
//!   session identifier amounts to; `session_id` reads and writes identifiers.
//! - `relay` decides what the terminal relay does after each read.
//! - `sftp` decides the calls of file system operations and the teardown of a
//!   session; `listing` builds directory listings; `transfer` decides the
//!   course of a file transfer and keeps its books.
//! - `history`, `store`, `known_hosts` and `locations` hold the rules of the
//!   files that the program keeps; `text` renders numbers.

pub mod connect;
pub mod history;
pub mod known_hosts;
pub mod listing;
pub mod locations;
pub mod registry;
pub mod relay;
pub mod request;
pub mod session_id;
pub mod sftp;
pub mod store;
pub mod text;
pub mod transfer;
