//! Plain-data models of pjproject's SIP, SDP, RTP and WAV structures, with
//! the logic that this crate runs on them, verified with Verus.

pub mod errno;
pub mod error;
pub mod pj;
pub mod pjmedia;
pub mod pjsip;
pub mod status;
pub mod text;

pub use error::Error;
pub use status::{PjStatus, PJ_SUCCESS};
