//! An in-memory task tracker: a task store, a route table with
//! specific-path-first resolution, the request handlers behind the routes,
//! and a hub that turns WebSocket frames into store updates and pushes.

pub mod text;
pub mod task;
pub mod store;
pub mod router;
pub mod api;
pub mod hub;
pub mod serve;
