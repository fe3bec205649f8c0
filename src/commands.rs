//! The operations that the UI layer invokes. Each one resolves the
//! application's backend and passes the call on, with no logic of its own.
use vstd::prelude::*;
use crate::backend::{settle, Backend, Step};
use crate::error::{Error, InvokeError};
use crate::models::{PingRequest, PingResponse};
use crate::native::NativeCall;

verus! {

pub open spec fn ping_step(b: Backend, payload: PingRequest) -> Step<PingResponse> {
    match b {
        Backend::Desktop(_) => Step::Answered(Ok(PingResponse { value: payload.value })),
        Backend::Mobile(m) => Step::Forward { backend: m, call: NativeCall::Ping(payload) },
    }
}

pub open spec fn start_step(b: Backend) -> Step<()> {
    match b {
        Backend::Desktop(_) => Step::Answered(Ok(())),
        Backend::Mobile(m) => Step::Forward { backend: m, call: NativeCall::StartListening },
    }
}

pub open spec fn stop_step(b: Backend) -> Step<()> {
    match b {
        Backend::Desktop(_) => Step::Answered(Ok(())),
        Backend::Mobile(m) => Step::Forward { backend: m, call: NativeCall::StopListening },
    }
}

/// Liveness / round-trip check.
pub fn ping(backend: &Backend, payload: PingRequest) -> (r: Step<PingResponse>)
    ensures
        r == ping_step(*backend, payload),
{
    match backend {
        Backend::Desktop(d) => Step::Answered(d.ping(payload)),
        Backend::Mobile(m) => Step::Forward { backend: *m, call: m.ping(payload) },
    }
}

/// Enables the delivery of button events.
pub fn start_listening_to_buttons(backend: &Backend) -> (r: Step<()>)
    ensures
        r == start_step(*backend),
{
    match backend {
        Backend::Desktop(d) => Step::Answered(d.start_listening()),
        Backend::Mobile(m) => Step::Forward { backend: *m, call: m.start_listening() },
    }
}

/// Disables the delivery of button events.
pub fn stop_listening_to_buttons(backend: &Backend) -> (r: Step<()>)
    ensures
        r == stop_step(*backend),
{
    match backend {
        Backend::Desktop(d) => Step::Answered(d.stop_listening()),
        Backend::Mobile(m) => Step::Forward { backend: *m, call: m.stop_listening() },
    }
}

/// On desktop a ping answers with the value it was given, whatever the value,
/// and without asking the native plugin.
pub proof fn desktop_ping_round_trips(
    b: Backend,
    payload: PingRequest,
    reply: core::result::Result<PingResponse, InvokeError>,
)
    requires
        b is Desktop,
    ensures
        settle(ping_step(b, payload), reply) == Ok::<PingResponse, Error>(
            PingResponse { value: payload.value },
        ),
{
}

/// Starting, or stopping, twice in a row succeeds both times on either
/// backend, where the native plugin accepts each call (its own idempotence is
/// assumed). Commands only read the backend, so the second call meets the
/// backend that the first one did and is answered the same way.
pub proof fn listening_toggles_are_idempotent(
    b: Backend,
    first: core::result::Result<(), InvokeError>,
    second: core::result::Result<(), InvokeError>,
)
    requires
        b is Mobile ==> first is Ok && second is Ok,
    ensures
        settle(start_step(b), first) == Ok::<(), Error>(()),
        settle(start_step(b), second) == Ok::<(), Error>(()),
        settle(stop_step(b), first) == Ok::<(), Error>(()),
        settle(stop_step(b), second) == Ok::<(), Error>(()),
{
}

/// Stopping needs no earlier start: the backend keeps no record of earlier
/// calls, so a stop on any backend, a fresh one included, succeeds where the
/// native plugin accepts it, and on desktop whatever it would have said.
pub proof fn stop_without_start_succeeds(b: Backend, reply: core::result::Result<(), InvokeError>)
    requires
        b is Mobile ==> reply is Ok,
    ensures
        settle(stop_step(b), reply) == Ok::<(), Error>(()),
        b is Mobile ==> stop_step(b)->call == NativeCall::StopListening,
{
}

/// On mobile a ping that the native plugin fails reaches the caller as that
/// failure, never as an empty success.
pub proof fn mobile_ping_failure_propagates(b: Backend, payload: PingRequest, e: InvokeError)
    requires
        b is Mobile,
    ensures
        settle(ping_step(b, payload), Err(e)) == Err::<PingResponse, Error>(Error::PluginInvoke(e)),
{
}

} // verus!
