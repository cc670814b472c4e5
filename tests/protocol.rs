use qontinui_runner::json::JsonNode;
use qontinui_runner::protocol::{
    decode_frame, decode_line, read_output_line, route, single_member, text_object, Decoded, Delivery,
    ExecutorCommand, Frame,
};

fn command(id: &str, name: &str, params: Option<&str>) -> ExecutorCommand {
    ExecutorCommand {
        cmd_type: "command".to_string(),
        id: id.to_string(),
        command: name.to_string(),
        params: params.map(|p| serde_json::from_str(p).unwrap()),
    }
}

#[test]
fn command_line_without_params() {
    let line = command("abc", "status", None).to_line();
    assert_eq!(
        line,
        "{\"type\":\"command\",\"id\":\"abc\",\"command\":\"status\",\"params\":null}\n"
    );
}

#[test]
fn command_line_with_params() {
    let line = command("id-1", "load", Some("{\"config_path\":\"/x/y.json\"}")).to_line();
    assert_eq!(
        line,
        "{\"type\":\"command\",\"id\":\"id-1\",\"command\":\"load\",\"params\":{\"config_path\":\"/x/y.json\"}}\n"
    );
}

#[test]
fn command_line_escapes_strings() {
    let line = command("a\"b", "x\\y", None).to_line();
    assert_eq!(
        line,
        "{\"type\":\"command\",\"id\":\"a\\\"b\",\"command\":\"x\\\\y\",\"params\":null}\n"
    );
}

#[test]
fn command_line_is_one_json_line() {
    let line = command("i", "start", Some("{\"mode\":\"mock\"}")).to_line();
    assert!(line.ends_with('\n'));
    assert_eq!(line.matches('\n').count(), 1);
    let v: serde_json::Value = serde_json::from_str(line.trim_end()).unwrap();
    assert_eq!(v["type"], "command");
    assert_eq!(v["id"], "i");
    assert_eq!(v["command"], "start");
    assert_eq!(v["params"]["mode"], "mock");
}

#[test]
fn new_command_has_fresh_ids() {
    let a = ExecutorCommand::new("status", None);
    let b = ExecutorCommand::new("status", None);
    assert_eq!(a.cmd_type, "command");
    assert_eq!(a.command, "status");
    assert_eq!(a.id.len(), 36);
    assert_ne!(a.id, b.id);
}

#[test]
fn single_member_quotes_value() {
    assert_eq!(single_member("config_path", "C:\\a \"b\""), "{\"config_path\":\"C:\\\\a \\\"b\\\"\"}");
    assert_eq!(single_member("mode", "mock"), "{\"mode\":\"mock\"}");
}

#[test]
fn decodes_tick_event() {
    let d = decode_line("{\"type\":\"event\",\"event\":\"tick\",\"timestamp\":1.0,\"sequence\":1,\"data\":{}}");
    match d {
        Decoded::Event(e) => {
            assert_eq!(e.event_type, "event");
            assert_eq!(e.event, "tick");
            assert_eq!(e.sequence, 1);
            assert_eq!(e.timestamp.as_f64(), Some(1.0));
            match e.data {
                JsonNode::Object(m) => assert!(m.is_empty()),
                _ => panic!("data should be an object"),
            }
        }
        _ => panic!("expected an event"),
    }
}

#[test]
fn event_round_trip_keeps_values() {
    let line = "{\"type\":\"event\",\"event\":\"state_changed\",\"timestamp\":1712345678.25,\"sequence\":42,\"data\":{\"state\":\"Home\",\"n\":[1,2]}}";
    let expected: serde_json::Value = serde_json::from_str(line).unwrap();
    match decode_line(line) {
        Decoded::Event(e) => {
            assert_eq!(e.event_type, expected["type"]);
            assert_eq!(e.event, expected["event"]);
            assert_eq!(serde_json::Value::Number(e.timestamp), expected["timestamp"]);
            assert_eq!(serde_json::Value::from(e.sequence), expected["sequence"]);
            match e.data {
                JsonNode::Object(m) => assert_eq!(serde_json::Value::Object(m), expected["data"]),
                _ => panic!("data should be an object"),
            }
        }
        _ => panic!("expected an event"),
    }
}

#[test]
fn decodes_response() {
    let d = decode_line("{\"type\":\"response\",\"id\":\"r1\",\"success\":true,\"data\":{\"ok\":1},\"error\":null}");
    match d {
        Decoded::Response(r) => {
            assert_eq!(r.resp_type, "response");
            assert_eq!(r.id, "r1");
            assert!(r.success);
            assert!(matches!(r.data, Some(JsonNode::Object(_))));
            assert!(r.error.is_none());
        }
        _ => panic!("expected a response"),
    }
}

#[test]
fn decodes_failed_response_with_error_text() {
    let d = decode_line("{\"type\":\"response\",\"id\":\"r2\",\"success\":false,\"error\":\"no config\"}");
    match d {
        Decoded::Response(r) => {
            assert!(!r.success);
            assert!(r.data.is_none());
            assert_eq!(r.error.as_deref(), Some("no config"));
        }
        _ => panic!("expected a response"),
    }
}

#[test]
fn null_data_in_response_is_none() {
    let d = decode_line("{\"type\":\"response\",\"id\":\"r3\",\"success\":true,\"data\":null}");
    match d {
        Decoded::Response(r) => assert!(r.data.is_none()),
        _ => panic!("expected a response"),
    }
}

#[test]
fn malformed_text_is_unparsable() {
    assert!(matches!(decode_line("not json"), Decoded::Unparsable));
    assert!(matches!(decode_line(""), Decoded::Unparsable));
    assert!(matches!(decode_line("[1,2,3]"), Decoded::Unparsable));
    assert!(matches!(decode_line("{\"type\":\"event\"}"), Decoded::Unparsable));
}

#[test]
fn response_with_non_text_error_is_unparsable() {
    let d = decode_line("{\"type\":\"response\",\"id\":\"r\",\"success\":true,\"error\":5}");
    assert!(matches!(d, Decoded::Unparsable));
}

#[test]
fn sequence_beyond_u32_is_not_an_event() {
    let d = decode_line("{\"type\":\"event\",\"event\":\"e\",\"timestamp\":0,\"sequence\":4294967296,\"data\":null}");
    assert!(matches!(d, Decoded::Unparsable));
    let d = decode_line("{\"type\":\"event\",\"event\":\"e\",\"timestamp\":0,\"sequence\":4294967295,\"data\":null}");
    assert!(matches!(d, Decoded::Event(e) if e.sequence == u32::MAX));
}

#[test]
fn negative_or_fractional_sequence_is_not_an_event() {
    let d = decode_line("{\"type\":\"event\",\"event\":\"e\",\"timestamp\":0,\"sequence\":-1,\"data\":1}");
    assert!(matches!(d, Decoded::Unparsable));
    let d = decode_line("{\"type\":\"event\",\"event\":\"e\",\"timestamp\":0,\"sequence\":1.5,\"data\":1}");
    assert!(matches!(d, Decoded::Unparsable));
}

#[test]
fn event_needs_data_member() {
    let d = decode_line("{\"type\":\"event\",\"event\":\"e\",\"timestamp\":0,\"sequence\":3}");
    assert!(matches!(d, Decoded::Unparsable));
}

#[test]
fn event_is_tried_before_response() {
    let line = "{\"type\":\"event\",\"event\":\"e\",\"timestamp\":2,\"sequence\":3,\"data\":true,\"id\":\"x\",\"success\":true}";
    assert!(matches!(decode_line(line), Decoded::Event(_)));
}

#[test]
fn frame_without_members_is_unparsable() {
    let f = Frame {
        type_tag: None,
        event: None,
        timestamp: None,
        sequence: None,
        data: None,
        id: None,
        success: None,
        error: None,
    };
    assert!(matches!(decode_frame(f), Decoded::Unparsable));
}

#[test]
fn frame_with_response_members_is_response() {
    let f = Frame {
        type_tag: Some("response".to_string()),
        event: None,
        timestamp: None,
        sequence: None,
        data: Some(JsonNode::Bool(true)),
        id: Some("7".to_string()),
        success: Some(false),
        error: Some(JsonNode::Text("bad".to_string())),
    };
    match decode_frame(f) {
        Decoded::Response(r) => {
            assert_eq!(r.id, "7");
            assert!(!r.success);
            assert!(matches!(r.data, Some(JsonNode::Bool(true))));
            assert_eq!(r.error.as_deref(), Some("bad"));
        }
        _ => panic!("expected a response"),
    }
}

#[test]
fn unparsable_line_between_two_events_loses_neither() {
    let lines = [
        "{\"type\":\"event\",\"event\":\"a\",\"timestamp\":1.0,\"sequence\":1,\"data\":{}}",
        "not json",
        "{\"type\":\"event\",\"event\":\"b\",\"timestamp\":2.0,\"sequence\":2,\"data\":{}}",
    ];
    let delivered: Vec<Delivery> = lines.iter().filter_map(|l| route(decode_line(l))).collect();
    assert_eq!(delivered.len(), 2);
    match (&delivered[0], &delivered[1]) {
        (Delivery::Event(a), Delivery::Event(b)) => {
            assert_eq!(a.sequence, 1);
            assert_eq!(b.sequence, 2);
            assert_eq!(a.event, "a");
            assert_eq!(b.event, "b");
        }
        _ => panic!("expected two events"),
    }
}

#[test]
fn route_sends_responses_to_response_sink() {
    let d = decode_line("{\"type\":\"response\",\"id\":\"q\",\"success\":true}");
    assert!(matches!(route(d), Some(Delivery::Response(r)) if r.id == "q"));
    assert!(route(Decoded::Unparsable).is_none());
}

#[test]
fn command_line_with_line_feeds_stays_one_line() {
    let mut c = command("a\nb", "x\r\ny", None);
    c.params = Some(text_object("note", "two\nlines"));
    let line = c.to_line();
    assert!(line.ends_with('\n'));
    assert_eq!(line.matches('\n').count(), 1);
    let v: serde_json::Value = serde_json::from_str(line.trim_end()).unwrap();
    assert_eq!(v["id"], "a\nb");
    assert_eq!(v["command"], "x\r\ny");
    assert_eq!(v["params"]["note"], "two\nlines");
}

#[test]
fn control_characters_are_escaped_in_commands() {
    let line = command("\u{1}\u{8}\t\u{1f}", "c", None).to_line();
    assert_eq!(
        line,
        "{\"type\":\"command\",\"id\":\"\\u0001\\b\\t\\u001f\",\"command\":\"c\",\"params\":null}\n"
    );
}

#[test]
fn text_object_has_one_member() {
    let v = text_object("config_path", "/a \"b\"");
    let expected: serde_json::Value = serde_json::from_str("{\"config_path\":\"/a \\\"b\\\"\"}").unwrap();
    assert_eq!(v, expected);
}

#[test]
fn output_reader_step_routes_lines() {
    assert!(read_output_line("not json").is_none());
    let ev = read_output_line("{\"type\":\"event\",\"event\":\"tick\",\"timestamp\":1.0,\"sequence\":1,\"data\":{}}");
    assert!(matches!(ev, Some(Delivery::Event(e)) if e.sequence == 1 && e.event == "tick"));
    let resp = read_output_line("{\"type\":\"response\",\"id\":\"z\",\"success\":false}");
    assert!(matches!(resp, Some(Delivery::Response(r)) if r.id == "z" && !r.success));
}

#[test]
fn command_ids_are_hyphenated_lower_hex() {
    let c = ExecutorCommand::new("status", None);
    assert_eq!(c.id.len(), 36);
    for (i, ch) in c.id.chars().enumerate() {
        if i == 8 || i == 13 || i == 18 || i == 23 {
            assert_eq!(ch, '-');
        } else {
            assert!(ch.is_ascii_digit() || ('a'..='f').contains(&ch));
        }
    }
}
