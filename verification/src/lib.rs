//! Verified core of the client decision receipt service.

pub mod clock;
pub mod text;
pub mod model;
pub mod error;
pub mod seal;
pub mod json;
pub mod receipt;
pub mod canonical;
pub mod delivery;
pub mod decision;
pub mod store;
pub mod export;
pub mod web;
pub mod database;
pub mod demo;
pub mod laws;
