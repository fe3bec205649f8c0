//! The wire boundary with the native plugin: its identity, the calls it
//! answers, and the topic on which its button events are republished.
use vstd::prelude::*;
use crate::models::{ButtonEvent, PingRequest};

verus! {

/// Name under which the plugin registers with the host application.
pub const PLUGIN_NAME: &'static str = "buttonkit";

/// Package of the Android plugin class.
pub const ANDROID_PACKAGE: &'static str = "com.plugin.buttonkit";

/// Class of the Android plugin.
pub const ANDROID_CLASS: &'static str = "ButtonkitPlugin";

/// Topic of the application event bus that carries button presses.
pub const BUTTON_EVENT_TOPIC: &'static str = "button-event";

/// The mobile operating systems that have a native plugin.
#[derive(Debug, Clone, Copy, PartialEq, Eq, Structural)]
pub enum MobileOs {
    Android,
    Ios,
}

/// How the native plugin is found on a given operating system.
#[derive(Debug, Clone, Copy, PartialEq, Eq)]
pub enum Registration {
    /// An Android class, found by package and class name.
    Android { package: &'static str, class: &'static str },
    /// The iOS plugin, bound by its initialiser symbol.
    Ios,
}

/// The plugin's identity on `os`.
pub open spec fn registration_of(os: MobileOs) -> Registration {
    match os {
        MobileOs::Android => Registration::Android { package: ANDROID_PACKAGE, class: ANDROID_CLASS },
        MobileOs::Ios => Registration::Ios,
    }
}

/// Where the host finds the native plugin on `os`.
pub fn registration(os: MobileOs) -> (r: Registration)
    ensures
        r == registration_of(os),
{
    match os {
        MobileOs::Android => Registration::Android { package: ANDROID_PACKAGE, class: ANDROID_CLASS },
        MobileOs::Ios => Registration::Ios,
    }
}

/// One call into the native plugin, with its payload.
#[derive(Debug)]
pub enum NativeCall {
    Ping(PingRequest),
    StartListening,
    StopListening,
}

impl NativeCall {
    /// The method name that the native plugin knows this call by.
    pub open spec fn method_name(&self) -> Seq<char> {
        match self {
            NativeCall::Ping(_) => "ping"@,
            NativeCall::StartListening => "startListening"@,
            NativeCall::StopListening => "stopListening"@,
        }
    }

    pub fn method(&self) -> (r: &'static str)
        ensures
            r@ == self.method_name(),
    {
        match self {
            NativeCall::Ping(_) => "ping",
            NativeCall::StartListening => "startListening",
            NativeCall::StopListening => "stopListening",
        }
    }
}

/// One publication on the application event bus.
#[derive(Debug, Clone, Copy, PartialEq, Eq)]
pub struct Emission {
    pub topic: &'static str,
    pub event: ButtonEvent,
}

} // verus!
