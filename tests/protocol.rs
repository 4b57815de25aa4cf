use remote_input::backend::tool_args;
use remote_input::command::{map_button, map_key, translate, ClientMessage, InputAction, KeyName, MouseButton};
use remote_input::decimal::{i32_decimal, u64_decimal};
use remote_input::response::{encode_response, frame_response, ServerResponse};
use remote_input::session::{run_outcome, Connection, ConnectionState, Frame, Step};

fn message(kind: &str, dx: Option<i32>, dy: Option<i32>, button: Option<&str>, key: Option<&str>) -> ClientMessage {
    ClientMessage {
        msg_type: kind.to_string(),
        dx,
        dy,
        button: button.map(|b| b.to_string()),
        key: key.map(|k| k.to_string()),
    }
}

fn args_of(m: &ClientMessage) -> Option<Vec<String>> {
    translate(m).map(|a| tool_args(&a))
}

fn strings(v: &[&str]) -> Vec<String> {
    v.iter().map(|s| s.to_string()).collect()
}

#[test]
fn decimal_rendering() {
    assert_eq!(u64_decimal(0), "0");
    assert_eq!(u64_decimal(1234567890), "1234567890");
    assert_eq!(u64_decimal(u64::MAX), u64::MAX.to_string());
    assert_eq!(i32_decimal(-42), "-42");
    assert_eq!(i32_decimal(7), "7");
    assert_eq!(i32_decimal(i32::MIN), "-2147483648");
    assert_eq!(i32_decimal(i32::MAX), "2147483647");
}

#[test]
fn mouse_moves_by_offsets() {
    let m = message("mouse", Some(12), Some(-7), None, None);
    assert_eq!(args_of(&m), Some(strings(&["mousemove_relative", "--", "12", "-7"])));
}

#[test]
fn mouse_offsets_default_to_zero() {
    let m = message("mouse", None, Some(3), None, None);
    assert_eq!(args_of(&m), Some(strings(&["mousemove_relative", "--", "0", "3"])));
    let m = message("mouse", None, None, None, None);
    match translate(&m) {
        Some(InputAction::MoveRelative { dx: 0, dy: 0 }) => {}
        other => panic!("unexpected {:?}", other),
    }
}

#[test]
fn click_buttons() {
    let cases = [
        (Some("left"), "1"),
        (Some("middle"), "2"),
        (Some("right"), "3"),
        (None, "1"),
        (Some(""), "1"),
        (Some("garbage!#"), "1"),
        (Some("LEFT"), "1"),
        (Some("Right"), "1"),
    ];
    for (button, number) in cases {
        let m = message("click", Some(5), None, button, None);
        assert_eq!(args_of(&m), Some(strings(&["click", number])), "button {:?}", button);
    }
}

#[test]
fn button_mapping() {
    assert_eq!(map_button("middle"), MouseButton::Middle);
    assert_eq!(map_button("right"), MouseButton::Right);
    assert_eq!(map_button(""), MouseButton::Left);
    assert_eq!(map_button("rightt"), MouseButton::Left);
}

#[test]
fn scroll_by_sign() {
    assert!(translate(&message("scroll", None, Some(0), None, None)).is_none());
    assert!(translate(&message("scroll", Some(9), None, None, None)).is_none());
    assert_eq!(args_of(&message("scroll", None, Some(5), None, None)), Some(strings(&["click", "4"])));
    assert_eq!(args_of(&message("scroll", None, Some(-3), None, None)), Some(strings(&["click", "5"])));
    assert_eq!(args_of(&message("scroll", Some(-1000), Some(1), None, None)), Some(strings(&["click", "4"])));
    assert_eq!(args_of(&message("scroll", Some(1000), Some(i32::MIN), None, None)), Some(strings(&["click", "5"])));
}

#[test]
fn named_keys() {
    let cases = [
        ("space", "space"),
        ("enter", "Return"),
        ("escape", "Escape"),
        ("tab", "Tab"),
        ("backspace", "BackSpace"),
        ("delete", "Delete"),
        ("up", "Up"),
        ("down", "Down"),
        ("left", "Left"),
        ("right", "Right"),
        ("ctrl", "ctrl"),
        ("alt", "alt"),
        ("shift", "shift"),
    ];
    for (name, symbol) in cases {
        let m = message("key", None, None, None, Some(name));
        assert_eq!(args_of(&m), Some(strings(&["key", symbol])), "key {}", name);
    }
    assert_eq!(map_key("enter"), Some(KeyName::Enter));
    assert_eq!(map_key("Enter"), None);
}

#[test]
fn single_characters_are_typed() {
    for key in ["a", "Z", "@", "7", " ", "é"] {
        let m = message("key", None, None, None, Some(key));
        assert_eq!(args_of(&m), Some(strings(&["type", key])), "key {:?}", key);
    }
}

#[test]
fn unknown_keys_and_kinds_do_nothing() {
    assert!(translate(&message("key", None, None, None, Some("F13"))).is_none());
    assert!(translate(&message("key", None, None, None, Some(""))).is_none());
    assert!(translate(&message("key", None, None, None, None)).is_none());
    assert!(translate(&message("teleport", Some(1), Some(1), Some("left"), Some("a"))).is_none());
    assert!(translate(&message("", None, None, None, None)).is_none());
}

#[test]
fn response_json() {
    let ok = encode_response(&ServerResponse::ok());
    assert_eq!(ok, r#"{"status":"ok","message":null}"#);
    let err = encode_response(&ServerResponse::error("Command failed: no \"display\"\n".to_string()));
    assert_eq!(err, r#"{"status":"error","message":"Command failed: no \"display\"\n"}"#);
    assert_eq!(frame_response("\"a\"", Some("\"b\"")), r#"{"status":"a","message":"b"}"#);
}

#[test]
fn run_outcomes() {
    assert!(run_outcome(true, b"ignored").is_ok());
    assert_eq!(run_outcome(false, b"Can't open display").unwrap_err(), "Command failed: Can't open display");
    assert_eq!(run_outcome(false, b"bad \xff byte").unwrap_err(), "Command failed: bad \u{FFFD} byte");
    assert_eq!(run_outcome(false, b"").unwrap_err(), "Command failed: ");
}

#[test]
fn outcome_acknowledgments() {
    let c = Connection::new();
    let ok = c.on_outcome(Ok(()));
    assert_eq!(ok.status, "ok");
    assert!(ok.message.is_none());
    let err = c.on_outcome(Err("Command failed: x".to_string()));
    assert_eq!(err.status, "error");
    assert_eq!(err.message.as_deref(), Some("Command failed: x"));
}

/// Feeds frames to a connection, runs every action successfully, and
/// collects the responses that would be sent.
fn responses(c: &mut Connection, frames: Vec<Frame>) -> Vec<String> {
    let mut out = Vec::new();
    for f in frames {
        match c.on_frame(f) {
            Step::Perform(_) => out.push(encode_response(&c.on_outcome(Ok(())))),
            Step::Reply(r) => out.push(encode_response(&r)),
            Step::Ignore => {}
            Step::Stop => break,
        }
    }
    out
}

#[test]
fn malformed_frame_is_ignored() {
    let mut c = Connection::new();
    let out = responses(
        &mut c,
        vec![Frame::Undecodable, Frame::Command(message("mouse", Some(1), Some(1), None, None))],
    );
    assert_eq!(out, vec![r#"{"status":"ok","message":null}"#.to_string()]);
    assert_eq!(c.state, ConnectionState::Open);
}

#[test]
fn unknown_kind_is_acknowledged() {
    let mut c = Connection::new();
    match c.on_frame(Frame::Command(message("teleport", None, None, None, None))) {
        Step::Reply(r) => {
            assert_eq!(r.status, "ok");
            assert!(r.message.is_none());
        }
        other => panic!("unexpected {:?}", other),
    }
    assert!(matches!(c.on_frame(Frame::Other), Step::Ignore));
    assert_eq!(c.state, ConnectionState::Open);
}

#[test]
fn close_and_errors_end_the_connection() {
    let mut c = Connection::new();
    assert!(matches!(c.on_frame(Frame::Close), Step::Stop));
    assert_eq!(c.state, ConnectionState::Closed);
    assert!(matches!(c.on_frame(Frame::Command(message("mouse", None, None, None, None))), Step::Stop));
    let mut d = Connection::new();
    assert!(matches!(d.on_frame(Frame::TransportError), Step::Stop));
    assert_eq!(d.state, ConnectionState::Closed);
}

#[test]
fn interleaved_connections_answer_separately() {
    let mut a = Connection::new();
    let mut b = Connection::new();
    let mut moves_a = Vec::new();
    let mut moves_b = Vec::new();
    for i in 0..4 {
        for (c, moves, sign) in [(&mut a, &mut moves_a, 1), (&mut b, &mut moves_b, -1)] {
            match c.on_frame(Frame::Command(message("mouse", Some(sign * i), Some(i), None, None))) {
                Step::Perform(InputAction::MoveRelative { dx, dy }) => moves.push((dx, dy)),
                other => panic!("unexpected {:?}", other),
            }
        }
    }
    assert_eq!(moves_a, vec![(0, 0), (1, 1), (2, 2), (3, 3)]);
    assert_eq!(moves_b, vec![(0, 0), (-1, 1), (-2, 2), (-3, 3)]);
    let frames = |sign: i32| -> Vec<Frame> {
        (0..3).map(|i| Frame::Command(message("mouse", Some(sign * i), None, None, None))).collect()
    };
    assert_eq!(responses(&mut a, frames(1)).len(), 3);
    assert_eq!(responses(&mut b, frames(-1)).len(), 3);
}

#[test]
fn response_json_escapes_control_characters() {
    let err = encode_response(&ServerResponse::error("a\u{1}b\tc\\d\u{1f}\u{7f}é".to_string()));
    assert_eq!(err, "{\"status\":\"error\",\"message\":\"a\\u0001b\\tc\\\\d\\u001f\u{7f}é\"}");
}
