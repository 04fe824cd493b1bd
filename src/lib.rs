//! Short-link identity and redirection: identifier generation and
//! validation, the link store and its service operations, and the rules that
//! decide how a redirect is answered.
pub mod config;
pub mod error;
pub mod headers;
pub mod hosts;
pub mod link;
pub mod routes;
pub mod service;
pub mod store;
pub mod target;
pub mod text;
