//! In-memory user registry: the storage, business rules and response
//! mapping behind a small CRUD REST service for users.

pub mod timestamp;
pub mod entity;
pub mod dto;
pub mod repository;
pub mod service;
pub mod laws;
