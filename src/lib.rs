//! An in-memory store of authors and posts, with the read and write
//! operations a query API serves over them.

pub mod datetime;
pub mod model;
pub mod catalog;
pub mod repository;
pub mod resolver;
pub mod shared;
pub mod laws;
