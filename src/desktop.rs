//! The desktop backend: an in-process stub that answers at once and never
//! fails. Desktop has no volume-button signal routed through this layer, so it
//! never produces a button event.
use vstd::prelude::*;
use crate::error::{Error, Result};
use crate::models::{PingRequest, PingResponse};

verus! {

/// Access to the button APIs on desktop.
#[derive(Debug, Clone, Copy, PartialEq, Eq, Structural)]
pub struct Buttonkit;

/// Sets up the desktop backend; it has nothing to register and cannot fail.
pub fn init() -> (r: Result<Buttonkit>)
    ensures
        r == Ok::<Buttonkit, Error>(Buttonkit),
{
    Ok(Buttonkit)
}

impl Buttonkit {
    /// Echoes the request's value.
    pub fn ping(&self, payload: PingRequest) -> (r: Result<PingResponse>)
        ensures
            r == Ok::<PingResponse, Error>(PingResponse { value: payload.value }),
    {
        Ok(PingResponse { value: payload.value })
    }

    /// Starts listening for physical button events: nothing to do here.
    pub fn start_listening(&self) -> (r: Result<()>)
        ensures
            r == Ok::<(), Error>(()),
    {
        Ok(())
    }

    /// Stops listening for physical button events: nothing to do here.
    pub fn stop_listening(&self) -> (r: Result<()>)
        ensures
            r == Ok::<(), Error>(()),
    {
        Ok(())
    }
}

} // verus!
