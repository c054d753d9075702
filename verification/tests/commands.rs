use shell_bridge::commands::{hello_world, startup};
use shell_bridge::error::BridgeError;
use shell_bridge::navigation::{confirm_delivery, WindowHandle};
use shell_bridge::registry::Step;

/// Plays the host runtime for one invocation: a native routine that returns
/// `native`, and a window that takes an event if `takes_events` says so.
/// The answer is what the web view would be told, and the events that the
/// window received.
fn invoke(
    name: &str,
    native: Option<&[u8]>,
    live: bool,
    takes_events: bool,
) -> (Result<String, String>, Vec<(String, String)>) {
    let registry = startup();
    let window = WindowHandle { label: "main".to_string(), live };
    let mut received = Vec::new();
    let answer = match registry.dispatch(name, &window) {
        Err(error) => Err(error.message()),
        Ok(Step::CallNative) => hello_world(native),
        Ok(Step::Emit(event)) => {
            if takes_events {
                received.push((event.name, event.payload));
            }
            confirm_delivery(takes_events)
                .map(|()| String::new())
                .map_err(|error| error.message())
        }
    };
    (answer, received)
}

#[test]
fn hello_world_returns_the_native_text() {
    assert_eq!(hello_world(Some(b"hi\0")), Ok("hi".to_string()));
}

#[test]
fn hello_world_reports_a_null_pointer_as_a_string() {
    assert_eq!(hello_world(None), Err("native call failed".to_string()));
}

#[test]
fn hello_world_reports_malformed_text_with_its_offset() {
    assert_eq!(
        hello_world(Some(b"caf\xe9\0")),
        Err("native text is not UTF-8 after byte 3".to_string())
    );
}

#[test]
fn invocation_by_name_reaches_the_native_text() {
    let (answer, received) = invoke("hello_world", Some(b"hi\0"), true, true);
    assert_eq!(answer, Ok("hi".to_string()));
    assert!(received.is_empty());
}

#[test]
fn invocation_with_a_null_pointer_ends_in_a_failure_string() {
    let (answer, received) = invoke("hello_world", None, true, true);
    assert_eq!(answer, Err("native call failed".to_string()));
    assert!(received.is_empty());
}

#[test]
fn invocation_by_name_reaches_the_navigation() {
    let (answer, received) = invoke("navigate_to_create_token", None, true, true);
    assert_eq!(answer, Ok(String::new()));
    assert_eq!(received, vec![("navigate".to_string(), "/createToken".to_string())]);
}

#[test]
fn navigation_to_a_closed_window_raises_no_event() {
    let (answer, received) = invoke("navigate_to_create_token", None, false, false);
    assert_eq!(answer, Err("failed to emit".to_string()));
    assert!(received.is_empty());
}

#[test]
fn navigation_that_the_window_does_not_take_is_reported() {
    let (answer, received) = invoke("navigate_to_create_token", None, true, false);
    assert_eq!(answer, Err("failed to emit".to_string()));
    assert!(received.is_empty());
}

#[test]
fn invocation_of_an_unknown_name_runs_nothing() {
    let (answer, received) = invoke("delete_everything", Some(b"hi\0"), true, true);
    assert_eq!(answer, Err("unknown command".to_string()));
    assert!(received.is_empty());
}

#[test]
fn every_failure_has_its_message() {
    assert_eq!(BridgeError::UnknownCommand.message(), "unknown command");
    assert_eq!(BridgeError::NativeCallFailed.message(), "native call failed");
    assert_eq!(BridgeError::EmitFailed.message(), "failed to emit");
    assert_eq!(
        BridgeError::EncodingError { offset: 0 }.message(),
        "native text is not UTF-8 after byte 0"
    );
}

#[test]
fn offsets_are_written_in_decimal() {
    let text = |offset: usize| BridgeError::EncodingError { offset }.message();
    assert_eq!(text(7), "native text is not UTF-8 after byte 7");
    assert_eq!(text(9), "native text is not UTF-8 after byte 9");
    assert_eq!(text(10), "native text is not UTF-8 after byte 10");
    assert_eq!(text(99), "native text is not UTF-8 after byte 99");
    assert_eq!(text(100), "native text is not UTF-8 after byte 100");
    assert_eq!(text(4096), "native text is not UTF-8 after byte 4096");
    assert_eq!(text(1234567890), "native text is not UTF-8 after byte 1234567890");
    assert_eq!(
        text(usize::MAX),
        format!("native text is not UTF-8 after byte {}", usize::MAX)
    );
}
