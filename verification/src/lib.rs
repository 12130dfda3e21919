//! A profile-card lookup service: a rate-limited, cache-aside fetch of
//! remote profile records, with a persistent store keyed by record id and
//! looked up case-insensitively by username.
//!
//! The store, the rate-limit gate and the refresh protocol are verified
//! here; the HTTP transport, the database mirror and the image rendering
//! live outside the library and drive it through plain values.

pub mod controllers;
pub mod entities;
pub mod errors;
pub mod github_user_mapper;
pub mod github_user_repository;
pub mod github_user_service;
pub mod models;
pub mod numeric;
pub mod pronouns_mapper;
pub mod text;
pub mod time;
pub mod urls;
pub mod validators;
