//! The backend that the host sets up once, at startup, for the platform it was
//! built for, and that every command reads afterwards.
use vstd::prelude::*;
use crate::desktop;
use crate::error::{forwarded, InvokeError, Result};
use crate::mobile;
use crate::native::NativeCall;

verus! {

/// The single backend of a running application: one variant, chosen when the
/// application starts and never replaced.
#[derive(Debug, Clone, Copy, PartialEq, Eq, Structural)]
pub enum Backend {
    Desktop(desktop::Buttonkit),
    Mobile(mobile::Buttonkit),
}

/// What a command does next: answer at once, or have the host make one call
/// into the native plugin and hand its reply to the mobile backend.
#[derive(Debug)]
pub enum Step<T> {
    Answered(Result<T>),
    Forward { backend: mobile::Buttonkit, call: NativeCall },
}

/// The answer that the UI layer gets for `step`, where `reply` is what the
/// native plugin returned if it was called at all.
pub open spec fn settle<T>(step: Step<T>, reply: core::result::Result<T, InvokeError>) -> Result<T> {
    match step {
        Step::Answered(r) => r,
        Step::Forward { .. } => forwarded(reply),
    }
}

} // verus!
