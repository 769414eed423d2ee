//! Task and focus-session bookkeeping with a synchronization engine that
//! reconciles the local collections against a remote peer.

pub mod api;
pub mod ids;
pub mod json;
pub mod keyed;
pub mod models;
pub mod notifications;
pub mod requests;
pub mod rows;
pub mod startup;
pub mod storage;
pub mod sync;
pub mod text;
pub mod time;
pub mod tray;
