//! Follower-cleanup rules, pacing, pairing checks and controller state, with
//! their contracts proved by Verus.
pub mod app;
pub mod apply;
pub mod background;
pub mod bridge;
pub mod config;
pub mod controller;
pub mod guards;
pub mod demo;
pub mod insect;
pub mod keys;
pub mod manager;
pub mod model;
pub mod native;
pub mod order;
pub mod pacing;
pub mod protocol;
pub mod results;
pub mod ritual;
pub mod schedule;
pub mod session;
pub mod setup;
pub mod text;
pub mod theme;
pub mod worker;
pub mod ui;
