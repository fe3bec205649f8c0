//! The values that cross the boundary between the UI layer, this library and
//! the native plugin.
use vstd::prelude::*;

verus! {

/// Input of a liveness / round-trip check.
#[derive(Debug)]
pub struct PingRequest {
    pub value: Option<String>,
}

/// Answer of a liveness / round-trip check. Its default holds no value.
#[derive(Debug)]
pub struct PingResponse {
    pub value: Option<String>,
}

/// The physical buttons that can be reported.
#[derive(Debug, Clone, Copy, PartialEq, Eq, Structural)]
pub enum ButtonType {
    VolumeUp,
    VolumeDown,
}

/// One press of a physical button, stamped in milliseconds.
#[derive(Debug, Clone, Copy, PartialEq, Eq, Structural)]
pub struct ButtonEvent {
    pub button: ButtonType,
    pub timestamp: u64,
}

fn clone_value(v: &Option<String>) -> (r: Option<String>)
    ensures
        r == *v,
{
    match v {
        Some(s) => Some(s.clone()),
        None => None,
    }
}

impl Clone for PingRequest {
    fn clone(&self) -> (r: Self)
        ensures
            r == *self,
    {
        PingRequest { value: clone_value(&self.value) }
    }
}

impl Clone for PingResponse {
    fn clone(&self) -> (r: Self)
        ensures
            r == *self,
    {
        PingResponse { value: clone_value(&self.value) }
    }
}

impl Default for PingResponse {
    fn default() -> (r: Self)
        ensures
            r.value is None,
    {
        PingResponse { value: None }
    }
}

} // verus!
