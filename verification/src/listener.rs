//! Host values offered as listeners.

use vstd::prelude::*;
use crate::error::{listener_not_callable_message, result_view, BridgeError, BridgeErrorView};

verus! {

/// What the bridge knows of a host value that is offered as a listener: a
/// number by which the host finds the value again, and whether the host
/// reports it as invocable. The value itself never leaves the host.
#[derive(Clone, Copy, Debug, PartialEq, Eq, Structural)]
pub struct HostObject {
    pub handle: u64,
    pub callable: bool,
}

/// The handle under which a listener is registered, or the argument
/// failure for a value that cannot be invoked.
pub open spec fn spec_accept(listener: HostObject) -> Result<u64, BridgeErrorView> {
    if listener.callable {
        Ok(listener.handle)
    } else {
        Err(BridgeErrorView::Argument(listener_not_callable_message()))
    }
}

/// Checks a listener argument. This check comes before anything else a
/// registration does, so that a value that cannot be invoked never reaches
/// the SDK.
pub fn accept(listener: HostObject) -> (func: Result<u64, BridgeError>)
    ensures
        result_view(func) == spec_accept(listener),
{
    if listener.callable {
        Ok(listener.handle)
    } else {
        Err(BridgeError::listener_not_callable())
    }
}

} // verus!
