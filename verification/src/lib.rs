//! Request validation, token handling and response shaping for a small
//! user-management HTTP API, with the rules proved by Verus.

pub mod text;
pub mod response;
pub mod pagination;
pub mod jwt;
pub mod firebase;
pub mod users;
pub mod login;
pub mod db;
pub mod auth;
pub mod routes;
