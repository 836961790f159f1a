use vstd::prelude::*;

verus! {

/// The first status number of pjlib's error space.
pub const PJ_ERRNO_START: i32 = 20000;

/// The first status number of pjlib's own errors.
pub const PJ_ERRNO_START_STATUS: i32 = 70000;

/// The first status number of pjmedia's errors.
pub const PJMEDIA_ERRNO_START: i32 = 220000;

/// Invalid argument.
pub const PJ_EINVAL: i32 = PJ_ERRNO_START_STATUS + 4;

/// Operation not supported.
pub const PJ_ENOTSUP: i32 = PJ_ERRNO_START_STATUS + 12;

/// End of file.
pub const PJ_EEOF: i32 = PJ_ERRNO_START_STATUS + 16;

/// Not a valid WAVE file.
pub const PJMEDIA_ENOTVALIDWAVE: i32 = PJMEDIA_ERRNO_START + 180;

/// Unsupported WAVE format.
pub const PJMEDIA_EWAVEUNSUPP: i32 = PJMEDIA_ERRNO_START + 181;

} // verus!
