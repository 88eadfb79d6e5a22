//! Reactive dispatch engine for a terminal dashboard that drives an external
//! command-line package manager.
//!
//! The crate models the closed vocabulary of inbound events ([`action::Action`]),
//! the closed vocabulary of side-effect requests ([`effect::Effect`]), the pure
//! state-transition function ([`reducer::reduce`]) over the dashboard state
//! ([`state::AppState`]), and the decision logic of the task supervisor
//! ([`supervisor`]).  All I/O — the terminal, the filesystem, the spawned
//! processes — lives outside this crate; it reaches the engine only as plain
//! values carried by actions, and leaves it only as effect values.

pub mod action;
pub mod effect;
pub mod files;
pub mod keys;
pub mod reducer;
pub mod state;
pub mod supervisor;
pub mod textutil;
