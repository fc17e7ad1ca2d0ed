//! Engagement cache layer for a social-content backend.
//!
//! Per post, the cache holds a set of likers, a set of dislikers and three
//! counters (likes, dislikes, comments). The library keeps the counters
//! consistent with the sets under idempotent like/dislike toggles, rebuilds
//! read models from the cache, cascades cache cleanup when a post is deleted,
//! emits comment notifications, and allocates time-ordered unique ids.
//!
//! Network edges (the relational store and the remote cache service) are the
//! caller's concern: the library exposes the decisions as functions from
//! plain values to plain values, plus an executable reference store that
//! gives the remote primitives their meaning.

pub mod commands;
pub mod dto;
pub mod errors;
pub mod idgen;
pub mod model;
pub mod msg;
pub mod post;
pub mod store;
pub mod sync;
