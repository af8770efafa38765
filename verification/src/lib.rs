//! Live-sync notifications, rate limits and leader election for a vault server that
//! runs as several replicas.

pub mod backend;
pub mod backends;
pub mod config;
pub mod connections;
pub mod datetime;
pub mod error;
pub mod frame;
pub mod hub;
pub mod job_lock;
pub mod listener;
pub mod memory_backend;
pub mod message;
pub mod models;
pub mod notification;
pub mod ratelimit;
pub mod redis_backend;
pub mod redis_command;
pub mod redis_conn;
pub mod text;
pub mod token_bucket;
pub mod users;
pub mod value;
