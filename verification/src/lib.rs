//! The command, selection and view logic of a terminal AI chat client.
pub mod config;
pub mod laws;
pub mod layout;
pub mod session;
pub mod text;
