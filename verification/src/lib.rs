//! Credential checks, session tokens and the booking conflict guard of a
//! medical appointment service, written without I/O: every operation takes
//! what the store answered and says what to ask of it next.

pub mod access;
pub mod booking;
pub mod credentials;
pub mod database;
pub mod db_structs;
pub mod decimal;
pub mod error;
pub mod respond;
pub mod statement;
pub mod text;
pub mod token;
