//! kplock: unlock KeePassXC with an age-encrypted keyfile.
//!
//! The verified core of the tool: configuration defaults, path resolution and
//! validation, passphrase handling around age encryption, the secure wipe of the
//! temporary keyfile, and the small decisions of the command line front end.
//! Paths are handled as UTF-8 strings with the Unix conventions of `std::path`.
pub mod paths;
pub mod config;
pub mod crypto;
pub mod keyfile;
pub mod cli;
pub mod launcher;
pub mod commands;
