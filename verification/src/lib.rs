//! A URL-shortening service core: identifier assignment, request validation and
//! the decisions of the create, redirect and statistics operations, stated and
//! proved over a mathematical model of the record store.

pub mod config;
pub mod handlers;
pub mod models;
pub mod store;
pub mod utils;
