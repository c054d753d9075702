//! The navigation emitter: the one-way notice that tells the script layer
//! of a window to show another route.

use vstd::prelude::*;

use crate::error::BridgeError;

verus! {

/// The name of the event that the script layer listens for.
pub const NAVIGATE: &'static str = "navigate";

/// The route of the page on which a token is created.
pub const CREATE_TOKEN_ROUTE: &'static str = "/createToken";

/// A named signal with one string as its payload: the route to show.
#[derive(Debug, PartialEq, Eq)]
pub struct NavigationEvent {
    pub name: String,
    pub payload: String,
}

/// The window that an invocation came from, as far as the emitter needs to
/// know it: its label, and whether the host runtime still holds it.
#[derive(Debug, PartialEq, Eq)]
pub struct WindowHandle {
    pub label: String,
    pub live: bool,
}

/// `event` is the navigation event for `route`.
pub open spec fn is_navigation_to(event: NavigationEvent, route: Seq<char>) -> bool {
    &&& event.name@ == NAVIGATE@
    &&& event.payload@ == route
}

/// Prepares the navigation of `window` to `route`.
///
/// On a live window this is the one event to deliver, named `navigate` and
/// carrying `route`. A window that is gone gets no event: the emission
/// fails with `EmitFailed`, which the caller of the command is told.
pub fn emit_navigation(window: &WindowHandle, route: &str) -> (result: Result<NavigationEvent, BridgeError>)
    ensures
        window.live ==> (result matches Ok(event) && is_navigation_to(event, route@)),
        !window.live ==> (result matches Err(error) && error == BridgeError::EmitFailed),
{
    if window.live {
        Ok(NavigationEvent { name: NAVIGATE.to_owned(), payload: route.to_owned() })
    } else {
        Err(BridgeError::EmitFailed)
    }
}

/// Concludes an emission once the host runtime has tried to post the event:
/// an event that the window did not take is a failed emission, and is
/// reported, never passed over.
pub fn confirm_delivery(delivered: bool) -> (result: Result<(), BridgeError>)
    ensures
        result == if delivered {
            Ok::<(), BridgeError>(())
        } else {
            Err::<(), BridgeError>(BridgeError::EmitFailed)
        },
{
    if delivered {
        Ok(())
    } else {
        Err(BridgeError::EmitFailed)
    }
}

} // verus!
