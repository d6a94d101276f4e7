//! Verified core of a live-stream engagement tracker.
//!
//! The library converts raw engagement signals of a live video (tips,
//! concurrent viewers, likes, new subscribers) into a single points score,
//! correlates requests and responses of a line-oriented worker protocol,
//! routes unsolicited push events, and fans the resulting snapshots out to
//! independently paced consumers.  Process management, timers and network
//! plumbing live outside the library; every decision the pipeline makes is
//! verified here.

pub mod codec;
pub mod config;
pub mod fanout;
pub mod json;
pub mod points;
pub mod router;
pub mod rpc;
pub mod session;
pub mod store;
pub mod video;
