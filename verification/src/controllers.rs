//! The decisions the HTTP handlers take, from the values they have read to
//! the reply they send or the record they store.

pub mod auth;
pub mod chamado;
pub mod user;
