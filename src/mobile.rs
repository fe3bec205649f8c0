//! The mobile backend. Each command becomes one named call into the native
//! plugin, whose answer is handed back unchanged; each button event that the
//! plugin pushes is republished on the application event bus. The calls and
//! the publication themselves are made by the host around this module.
use vstd::prelude::*;
use crate::error::{forward, forwarded, Error, InvokeError, Result};
use crate::models::{ButtonEvent, PingRequest, PingResponse};
use crate::native::{Emission, MobileOs, NativeCall, BUTTON_EVENT_TOPIC};

verus! {

/// Access to the button APIs on a mobile operating system.
#[derive(Debug, Clone, Copy, PartialEq, Eq, Structural)]
pub struct Buttonkit {
    os: MobileOs,
}

/// Sets up the mobile backend once the native plugin's registration on `os`
/// (see `native::registration`) has been attempted; a failed registration is
/// the setup's failure.
pub fn init(os: MobileOs, registered: core::result::Result<(), InvokeError>) -> (r: Result<
    Buttonkit,
>)
    ensures
        match registered {
            Ok(()) => r is Ok && r->Ok_0.os_spec() == os,
            Err(e) => r == Err::<Buttonkit, Error>(Error::PluginInvoke(e)),
        },
{
    match registered {
        Ok(()) => Ok(Buttonkit { os }),
        Err(e) => Err(Error::from(e)),
    }
}

impl Buttonkit {
    pub closed spec fn os_spec(&self) -> MobileOs {
        self.os
    }

    /// The operating system whose native plugin this backend talks to.
    pub fn os(&self) -> (r: MobileOs)
        ensures
            r == self.os_spec(),
    {
        self.os
    }

    /// The native call that answers a ping: the request, passed on verbatim.
    pub fn ping(&self, payload: PingRequest) -> (r: NativeCall)
        ensures
            r == NativeCall::Ping(payload),
    {
        NativeCall::Ping(payload)
    }

    /// The answer to a ping, from what the native plugin returned.
    pub fn ping_reply(&self, reply: core::result::Result<PingResponse, InvokeError>) -> (r: Result<
        PingResponse,
    >)
        ensures
            r == forwarded(reply),
    {
        forward(reply)
    }

    /// The native call that starts listening for physical button events.
    pub fn start_listening(&self) -> (r: NativeCall)
        ensures
            r == NativeCall::StartListening,
    {
        NativeCall::StartListening
    }

    /// The native call that stops listening for physical button events.
    pub fn stop_listening(&self) -> (r: NativeCall)
        ensures
            r == NativeCall::StopListening,
    {
        NativeCall::StopListening
    }

    /// The answer to a start or stop, from what the native plugin returned.
    /// Whether the plugin was already in that state is its own concern.
    pub fn listening_reply(&self, reply: core::result::Result<(), InvokeError>) -> (r: Result<()>)
        ensures
            r == forwarded(reply),
    {
        forward(reply)
    }

    /// Republishes a button event pushed by the native plugin: one publication
    /// on the button topic, carrying the event as it came. Nothing is kept, so
    /// an event that no subscriber takes is gone.
    pub fn process_button_event(&self, event: ButtonEvent) -> (r: Emission)
        ensures
            r.topic@ == BUTTON_EVENT_TOPIC@,
            r.event == event,
    {
        Emission { topic: BUTTON_EVENT_TOPIC, event }
    }
}

} // verus!
