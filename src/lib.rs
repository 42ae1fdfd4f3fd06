//! Encrypted persistence of a session link, and generation and checking of
//! the credentials embedded in it.
pub mod policy;
pub mod generator;
mod random;
pub mod keystore;
pub mod config;
pub mod link;
