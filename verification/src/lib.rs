//! A TLS connection server: a credential loader that assembles a certificate
//! chain and private key from a directory of PEM-encoded material, and a
//! connection server that binds a listening socket and hands encrypted
//! streams to caller-supplied handlers.

pub mod config;
pub mod db;
pub mod errors;
pub mod ext;
pub mod models;
pub mod server;
