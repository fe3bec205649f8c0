//! Failures that a command can report to the UI layer.
use vstd::prelude::*;

verus! {

/// Why a call into the native plugin failed.
#[derive(Debug, PartialEq, Eq)]
pub enum InvokeError {
    /// The native side could not be reached.
    Unreachable(String),
    /// The native plugin answered the call with an error.
    Rejected { code: Option<String>, message: Option<String> },
    /// The native answer did not have the expected shape.
    MalformedResponse(String),
    /// The request could not be put on the wire.
    MalformedPayload(String),
}

/// The one error category of this library: a failed native call, kept as it came.
#[derive(Debug, PartialEq, Eq)]
pub enum Error {
    PluginInvoke(InvokeError),
}

pub type Result<T> = core::result::Result<T, Error>;

impl From<InvokeError> for Error {
    fn from(e: InvokeError) -> (r: Error)
        ensures
            r == Error::PluginInvoke(e),
    {
        Error::PluginInvoke(e)
    }
}

impl vstd::std_specs::convert::FromSpecImpl<InvokeError> for Error {
    open spec fn obeys_from_spec() -> bool {
        true
    }

    open spec fn from_spec(e: InvokeError) -> Self {
        Error::PluginInvoke(e)
    }
}

/// What the caller of a forwarded call sees: the native answer unchanged, or
/// its failure as this library's error.
pub open spec fn forwarded<T>(reply: core::result::Result<T, InvokeError>) -> Result<T> {
    match reply {
        Ok(v) => Ok(v),
        Err(e) => Err(Error::PluginInvoke(e)),
    }
}

/// Turns the answer of a native call into the answer of a command.
pub fn forward<T>(reply: core::result::Result<T, InvokeError>) -> (r: Result<T>)
    ensures
        r == forwarded(reply),
{
    match reply {
        Ok(v) => Ok(v),
        Err(e) => Err(Error::from(e)),
    }
}

} // verus!
