//! Verified core of a service that shares files end to end encrypted: a file
//! is encrypted for exactly one recipient and fetched through a share link
//! that is guarded by a password and limited in time.
//!
//! The core holds the storage model (`db`, `models`), the hybrid encryption
//! (`crypto`), the key pairs and the private key store (`keys`), password
//! hashing (`password`), bearer tokens (`token`), the share links (`share`),
//! the operations behind the routes (`auth_controller`, `file_controller`,
//! `user_controller`, with `dtos` for what they take and give), the guard
//! before them (`middleware`), and the recurring sweep of what has expired
//! (`reaper`). What holds across operations is stated in `laws`.
//!
//! Times are seconds since the Unix epoch throughout, and every operation
//! that depends on the time takes it as an argument.

pub mod auth_controller;
pub mod clock;
pub mod config;
pub mod crypto;
pub mod db;
pub mod dtos;
pub mod error;
pub mod file_controller;
pub mod ident;
pub mod keys;
pub mod laws;
pub mod middleware;
pub mod models;
pub mod password;
pub mod reaper;
pub mod seqs;
pub mod share;
pub mod text;
pub mod token;
pub mod user_controller;
