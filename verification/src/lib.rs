pub mod auth;
pub mod cli;
pub mod config;
pub mod http;
pub mod monzo;
pub mod pots;
pub mod text;
pub mod webhook;
