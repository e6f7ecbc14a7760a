//! A verified core for a social-posting service: the password credential
//! scheme the service stores and checks accounts with, and the plain data
//! types its storage and session layers exchange.
pub mod crypto;
pub mod database;
pub mod passwords;
pub mod routes;
pub mod session;
pub mod templates;
pub mod text;
pub mod timestamps;
