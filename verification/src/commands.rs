//! The command surface: the names under which the web view reaches the two
//! commands, the table that is set up when the process starts, and the
//! commands themselves, which report a failure as a string.

use vstd::pervasive::unreached;
use vstd::prelude::*;

use crate::error::{message_text, BridgeError};
use crate::native::{fetch_native_text, handle_bytes, is_native_text, is_terminated};
use crate::navigation::{
    emit_navigation, is_navigation_to, NavigationEvent, WindowHandle, CREATE_TOKEN_ROUTE,
};
use crate::registry::{Command, Registry};

verus! {

/// The name under which the web view invokes the native text command.
pub const HELLO_WORLD: &'static str = "hello_world";

/// The name under which the web view invokes the navigation command.
pub const NAVIGATE_TO_CREATE_TOKEN: &'static str = "navigate_to_create_token";

/// The table of the shell: each of the two commands under its name.
pub open spec fn command_table() -> Map<Seq<char>, Command> {
    Map::<Seq<char>, Command>::empty().insert(HELLO_WORLD@, Command::HelloWorld).insert(
        NAVIGATE_TO_CREATE_TOKEN@,
        Command::NavigateToCreateToken,
    )
}

/// Sets up the command table at the start of the process.
pub fn startup() -> (registry: Registry)
    ensures
        registry@ == command_table(),
{
    proof {
        reveal_strlit("hello_world");
        reveal_strlit("navigate_to_create_token");
        assert(HELLO_WORLD@.len() != NAVIGATE_TO_CREATE_TOKEN@.len());
    }
    match Registry::new().register(HELLO_WORLD, Command::HelloWorld) {
        Ok(registry) => match registry.register(
            NAVIGATE_TO_CREATE_TOKEN,
            Command::NavigateToCreateToken,
        ) {
            Ok(registry) => registry,
            Err(_) => unreached(),
        },
        Err(_) => unreached(),
    }
}

/// The `hello_world` command: the text behind the handle that the native
/// routine returned, or the reason why there is none, as a string.
pub fn hello_world(handle: Option<&[u8]>) -> (result: Result<String, String>)
    requires
        handle matches Some(bytes) ==> is_terminated(bytes@),
    ensures
        result matches Ok(text) ==> is_native_text(handle_bytes(handle), Ok(text@)),
        result matches Err(message) ==> exists|error: BridgeError|
            #[trigger] is_native_text(handle_bytes(handle), Err(error)) && message@ == message_text(
                error,
            ),
{
    match fetch_native_text(handle) {
        Ok(text) => Ok(text),
        Err(error) => Err(error.message()),
    }
}

/// The `navigate_to_create_token` command: the event that sends the
/// invoking window to the page on which a token is created, or, where the
/// window is gone, the failure as a string.
pub fn navigate_to_create_token(window: &WindowHandle) -> (result: Result<NavigationEvent, String>)
    ensures
        window.live ==> (result matches Ok(event) && is_navigation_to(event, CREATE_TOKEN_ROUTE@)),
        !window.live ==> (result matches Err(message) && message@ == message_text(
            BridgeError::EmitFailed,
        )),
{
    match emit_navigation(window, CREATE_TOKEN_ROUTE) {
        Ok(event) => Ok(event),
        Err(error) => Err(error.message()),
    }
}

} // verus!
