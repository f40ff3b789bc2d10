//! A cloud-storage service: registration by e-mailed code, log-in with bearer
//! tokens, and files in per-user directory trees. Each service operation is a chain
//! of verified steps; the I/O between the steps is left to the caller.

pub mod api;
pub mod auth_service;
pub mod config;
pub mod constants;
pub mod controllers;
pub mod draws;
pub mod dto;
pub mod email;
pub mod encoding;
pub mod models;
pub mod paths;
pub mod registration_service;
pub mod repository;
pub mod storage;
pub mod storage_service;
pub mod text;
pub mod token;
pub mod verification;
