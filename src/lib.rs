//! Generation and installation planning of supervisor unit files.

pub mod service;
pub mod config;
pub mod manager;
