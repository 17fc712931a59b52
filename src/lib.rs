//! Content-identity resolution and playback dispatch for a remote music
//! service: references are parsed into typed identifiers, play and queue
//! requests are planned as a sequence of remote calls, and every operation
//! answers with an ordered list of text lines.
pub mod choices;
pub mod config;
pub mod control;
pub mod device;
pub mod dispatch;
pub mod error;
pub mod model;
pub mod reference;
pub mod response;
pub mod search;
pub mod status;
pub mod text;
