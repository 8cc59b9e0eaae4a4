//! Synchronisation and decision engine for a tracked roster of players:
//! the shared state and its merges, the refresh scheduler, paginated roster
//! acquisition and the collection of strategy decisions.

pub mod acquisition;
pub mod action;
pub mod app;
pub mod error;
pub mod model;
pub mod repository;
pub mod scheduler;
pub mod state;
pub mod strategy;
pub mod text;
