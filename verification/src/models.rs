//! The records the service stores and the requests it accepts.

pub mod chamado;
pub mod user;
