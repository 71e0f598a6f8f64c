//! Verified core of the CityIssue service: input validation, HTML escaping,
//! password hashing, token claims and the decisions taken by the HTTP handlers.

pub mod text;
pub mod validation;
pub mod response;
pub mod models;
pub mod stamps;
pub mod password;
pub mod jwt;
pub mod controllers;
