use mouse_actions::action::{ActionBatch, MouseAction};
use mouse_actions::button::MouseButton;
use mouse_actions::decode::{
    decode_action, decode_actions, decode_batch, decode_button, decode_delay, decode_place,
    decode_request, encode_action, DecodeError,
};
use mouse_actions::json::{find_member, number_from_readings, parse, settle, Json, Raw};
use mouse_actions::number::Number;

fn double_number(x: f64) -> Number {
    Number::Real(x.to_bits())
}

fn text(s: &str) -> Json {
    Json::Text(s.to_string())
}

fn object(members: Vec<(&str, Json)>) -> Json {
    Json::Object(members.into_iter().map(|(k, v)| (k.to_string(), v)).collect())
}

fn to_value(json: &Json) -> serde_json::Value {
    match json {
        Json::Null => serde_json::Value::Null,
        Json::Bool(b) => serde_json::Value::Bool(*b),
        Json::Number(Number::Unsigned(u)) => serde_json::Value::Number((*u).into()),
        Json::Number(Number::Negative(i)) => serde_json::Value::Number((*i).into()),
        Json::Number(Number::Real(bits)) => {
            serde_json::Value::Number(serde_json::Number::from_f64(f64::from_bits(*bits)).unwrap())
        }
        Json::Text(s) => serde_json::Value::String(s.clone()),
        Json::Array(items) => serde_json::Value::Array(items.iter().map(to_value).collect()),
        Json::Object(members) => serde_json::Value::Object(
            members.iter().map(|m| (m.0.clone(), to_value(&m.1))).collect(),
        ),
    }
}

fn all_buttons() -> Vec<MouseButton> {
    vec![
        MouseButton::Left,
        MouseButton::Middle,
        MouseButton::Right,
        MouseButton::ScrollUp,
        MouseButton::ScrollDown,
        MouseButton::ScrollLeft,
        MouseButton::ScrollRight,
    ]
}

#[test]
fn parse_gives_the_tree_of_the_text() {
    let json = parse(b"[1, -2, 1.5, \"a\", null, true, {\"k\": []}]").unwrap();
    assert_eq!(
        json,
        Json::Array(vec![
            Json::Number(Number::Unsigned(1)),
            Json::Number(Number::Negative(-2)),
            Json::Number(double_number(1.5)),
            text("a"),
            Json::Null,
            Json::Bool(true),
            object(vec![("k", Json::Array(vec![]))]),
        ])
    );
}

#[test]
fn parse_tells_whole_numbers_from_reals() {
    assert_eq!(parse(b"0"), Some(Json::Number(Number::Unsigned(0))));
    assert_eq!(parse(b"18446744073709551615"), Some(Json::Number(Number::Unsigned(u64::MAX))));
    assert_eq!(parse(b"-9223372036854775808"), Some(Json::Number(Number::Negative(i64::MIN))));
    assert_eq!(parse(b"123.0"), Some(Json::Number(double_number(123.0))));
    assert_eq!(parse(b"1e2"), Some(Json::Number(double_number(100.0))));
    assert_eq!(parse(b"-0.5"), Some(Json::Number(double_number(-0.5))));
}

#[test]
fn parse_refuses_what_is_not_json() {
    assert_eq!(parse(b""), None);
    assert_eq!(parse(b"{"), None);
    assert_eq!(parse(b"{\"actions\": [}"), None);
    assert_eq!(parse(b"[1, 2] 3"), None);
    assert_eq!(parse(b"NaN"), None);
    assert_eq!(parse(&[0xff, 0xfe]), None);
}

#[test]
fn parse_keeps_every_member_of_an_object() {
    let json = parse(b"{\"actions\": [], \"delay_between\": 5}").unwrap();
    match &json {
        Json::Object(members) => {
            assert_eq!(members.len(), 2);
            assert_eq!(find_member(members, "actions"), Some(&Json::Array(vec![])));
            assert_eq!(
                find_member(members, "delay_between"),
                Some(&Json::Number(Number::Unsigned(5)))
            );
            assert_eq!(find_member(members, "delay"), None);
        }
        _ => panic!("not an object"),
    }
}

#[test]
fn first_member_with_the_key_counts() {
    let members = vec![
        ("a".to_string(), Json::Null),
        ("b".to_string(), Json::Bool(true)),
        ("a".to_string(), Json::Bool(false)),
    ];
    assert_eq!(find_member(&members, "a"), Some(&Json::Null));
    assert_eq!(find_member(&members, "b"), Some(&Json::Bool(true)));
    assert_eq!(find_member(&members, "c"), None);
    assert_eq!(find_member(&Vec::new(), "a"), None);
}

#[test]
fn request_with_three_actions_and_a_delay() {
    let body = b"{\"actions\": [{\"MouseDown\": \"Left\"}, {\"MouseUp\": \"Right\"}, {\"MouseMove\": [123.0, 456.0]}], \"delay_between\": 50}";
    assert_eq!(
        decode_request(body),
        Ok(ActionBatch {
            actions: vec![
                MouseAction::MouseDown(MouseButton::Left),
                MouseAction::MouseUp(MouseButton::Right),
                MouseAction::MouseMove(double_number(123.0), double_number(456.0)),
            ],
            delay_between: Some(50),
        })
    );
}

#[test]
fn request_without_a_delay() {
    assert_eq!(
        decode_request(b"{\"actions\": [{\"MouseDown\": \"ScrollUp\"}]}"),
        Ok(ActionBatch {
            actions: vec![MouseAction::MouseDown(MouseButton::ScrollUp)],
            delay_between: None,
        })
    );
    assert_eq!(
        decode_request(b"{\"actions\": [], \"delay_between\": null}"),
        Ok(ActionBatch { actions: vec![], delay_between: None })
    );
    assert_eq!(
        decode_request(b"{\"delay_between\": 0, \"actions\": []}"),
        Ok(ActionBatch { actions: vec![], delay_between: Some(0) })
    );
}

#[test]
fn other_members_are_ignored() {
    assert_eq!(
        decode_request(b"{\"note\": \"hello\", \"actions\": [{\"MouseUp\": \"Middle\"}], \"x\": [1]}"),
        Ok(ActionBatch {
            actions: vec![MouseAction::MouseUp(MouseButton::Middle)],
            delay_between: None,
        })
    );
}

#[test]
fn coordinates_may_be_whole_numbers() {
    assert_eq!(
        decode_request(b"{\"actions\": [{\"MouseMove\": [123, -4]}]}"),
        Ok(ActionBatch {
            actions: vec![MouseAction::MouseMove(Number::Unsigned(123), Number::Negative(-4))],
            delay_between: None,
        })
    );
}

#[test]
fn missing_actions_is_a_decode_failure() {
    assert_eq!(decode_request(b"{\"delay_between\": 50}"), Err(DecodeError::MissingField));
    assert_eq!(decode_request(b"{}"), Err(DecodeError::MissingField));
    assert_eq!(decode_request(b"{\"Actions\": []}"), Err(DecodeError::MissingField));
    assert_eq!(decode_batch(&object(vec![])), Err(DecodeError::MissingField));
}

#[test]
fn malformed_body_is_a_decode_failure() {
    assert_eq!(decode_request(b""), Err(DecodeError::Malformed));
    assert_eq!(decode_request(b"{\"actions\": ["), Err(DecodeError::Malformed));
    assert_eq!(decode_request(b"actions"), Err(DecodeError::Malformed));
}

#[test]
fn wrong_types_are_decode_failures() {
    assert_eq!(decode_request(b"[]"), Err(DecodeError::WrongType));
    assert_eq!(decode_request(b"null"), Err(DecodeError::WrongType));
    assert_eq!(decode_request(b"{\"actions\": 5}"), Err(DecodeError::WrongType));
    assert_eq!(decode_request(b"{\"actions\": null}"), Err(DecodeError::WrongType));
    assert_eq!(decode_request(b"{\"actions\": {}}"), Err(DecodeError::WrongType));
    assert_eq!(decode_request(b"{\"actions\": [5]}"), Err(DecodeError::WrongType));
    assert_eq!(decode_request(b"{\"actions\": [\"MouseDown\"]}"), Err(DecodeError::WrongType));
    assert_eq!(decode_request(b"{\"actions\": [{}]}"), Err(DecodeError::WrongType));
    assert_eq!(
        decode_request(b"{\"actions\": [{\"MouseDown\": 1}]}"),
        Err(DecodeError::WrongType)
    );
    assert_eq!(
        decode_request(b"{\"actions\": [{\"MouseDown\": \"Left\", \"MouseUp\": \"Left\"}]}"),
        Err(DecodeError::WrongType)
    );
    assert_eq!(
        decode_request(b"{\"actions\": [{\"MouseMove\": [1.0]}]}"),
        Err(DecodeError::WrongType)
    );
    assert_eq!(
        decode_request(b"{\"actions\": [{\"MouseMove\": [1.0, 2.0, 3.0]}]}"),
        Err(DecodeError::WrongType)
    );
    assert_eq!(
        decode_request(b"{\"actions\": [{\"MouseMove\": [1.0, \"2\"]}]}"),
        Err(DecodeError::WrongType)
    );
    assert_eq!(
        decode_request(b"{\"actions\": [{\"MouseMove\": \"Left\"}]}"),
        Err(DecodeError::WrongType)
    );
}

#[test]
fn wrong_delays_are_decode_failures() {
    assert_eq!(
        decode_request(b"{\"actions\": [], \"delay_between\": -1}"),
        Err(DecodeError::WrongType)
    );
    assert_eq!(
        decode_request(b"{\"actions\": [], \"delay_between\": 1.5}"),
        Err(DecodeError::WrongType)
    );
    assert_eq!(
        decode_request(b"{\"actions\": [], \"delay_between\": \"50\"}"),
        Err(DecodeError::WrongType)
    );
    assert_eq!(
        decode_request(b"{\"actions\": [], \"delay_between\": [50]}"),
        Err(DecodeError::WrongType)
    );
    assert_eq!(decode_delay(&vec![("delay_between".to_string(), Json::Bool(true))]), Err(DecodeError::WrongType));
    assert_eq!(decode_delay(&vec![]), Ok(None));
    assert_eq!(
        decode_delay(&vec![("delay_between".to_string(), Json::Number(Number::Unsigned(7)))]),
        Ok(Some(7))
    );
}

#[test]
fn unknown_names_are_decode_failures() {
    assert_eq!(
        decode_request(b"{\"actions\": [{\"Jump\": \"Left\"}]}"),
        Err(DecodeError::UnknownTag)
    );
    assert_eq!(
        decode_request(b"{\"actions\": [{\"mousedown\": \"Left\"}]}"),
        Err(DecodeError::UnknownTag)
    );
    assert_eq!(
        decode_request(b"{\"actions\": [{\"MouseDown\": \"Top\"}]}"),
        Err(DecodeError::UnknownTag)
    );
    assert_eq!(
        decode_request(b"{\"actions\": [{\"MouseUp\": \"left\"}]}"),
        Err(DecodeError::UnknownTag)
    );
}

#[test]
fn first_bad_action_decides_the_error() {
    assert_eq!(
        decode_request(
            b"{\"actions\": [{\"MouseDown\": \"Left\"}, {\"Jump\": 1}, {\"MouseDown\": 1}]}"
        ),
        Err(DecodeError::UnknownTag)
    );
    assert_eq!(
        decode_request(
            b"{\"actions\": [{\"MouseDown\": \"Left\"}, {\"MouseDown\": 1}, {\"Jump\": 1}]}"
        ),
        Err(DecodeError::WrongType)
    );
    assert_eq!(
        decode_request(b"{\"actions\": [{\"Jump\": 1}], \"delay_between\": -1}"),
        Err(DecodeError::UnknownTag)
    );
    assert_eq!(
        decode_actions(&vec![text("x"), object(vec![("Jump", Json::Null)])]),
        Err(DecodeError::WrongType)
    );
}

#[test]
fn parts_of_an_action_are_read_alone() {
    assert_eq!(decode_button(&text("Right")), Ok(MouseButton::Right));
    assert_eq!(decode_button(&text("right")), Err(DecodeError::UnknownTag));
    assert_eq!(decode_button(&Json::Null), Err(DecodeError::WrongType));
    assert_eq!(
        decode_place(&Json::Array(vec![Json::Number(double_number(1.5)), Json::Number(Number::Unsigned(2))])),
        Ok((double_number(1.5), Number::Unsigned(2)))
    );
    assert_eq!(decode_place(&Json::Array(vec![])), Err(DecodeError::WrongType));
    assert_eq!(decode_place(&text("1, 2")), Err(DecodeError::WrongType));
    assert_eq!(
        decode_action(&object(vec![("MouseDown", text("Left"))])),
        Ok(MouseAction::MouseDown(MouseButton::Left))
    );
    assert_eq!(decode_action(&text("MouseDown")), Err(DecodeError::WrongType));
}

#[test]
fn action_is_written_as_an_object_with_one_member() {
    assert_eq!(
        encode_action(&MouseAction::MouseDown(MouseButton::Left)),
        object(vec![("MouseDown", text("Left"))])
    );
    assert_eq!(
        encode_action(&MouseAction::MouseUp(MouseButton::Right)),
        object(vec![("MouseUp", text("Right"))])
    );
    assert_eq!(
        encode_action(&MouseAction::MouseMove(double_number(123.0), double_number(456.0))),
        object(vec![(
            "MouseMove",
            Json::Array(vec![Json::Number(double_number(123.0)), Json::Number(double_number(456.0))])
        )])
    );
}

#[test]
fn written_action_has_the_wire_text() {
    let down = to_value(&encode_action(&MouseAction::MouseDown(MouseButton::Left)));
    assert_eq!(serde_json::to_string(&down).unwrap(), "{\"MouseDown\":\"Left\"}");
    let up = to_value(&encode_action(&MouseAction::MouseUp(MouseButton::Right)));
    assert_eq!(serde_json::to_string(&up).unwrap(), "{\"MouseUp\":\"Right\"}");
    let to = to_value(&encode_action(&MouseAction::MouseMove(double_number(123.0), double_number(456.0))));
    assert_eq!(serde_json::to_string(&to).unwrap(), "{\"MouseMove\":[123.0,456.0]}");
}

#[test]
fn every_action_survives_writing_and_reading() {
    let mut actions: Vec<MouseAction> = Vec::new();
    for button in all_buttons() {
        actions.push(MouseAction::MouseDown(button));
        actions.push(MouseAction::MouseUp(button));
    }
    actions.push(MouseAction::MouseMove(double_number(123.0), double_number(456.0)));
    actions.push(MouseAction::MouseMove(double_number(100.7), double_number(-200.2)));
    actions.push(MouseAction::MouseMove(double_number(0.0), double_number(1e300)));
    actions.push(MouseAction::MouseMove(Number::Unsigned(7), Number::Negative(-7)));
    for action in actions {
        let written = encode_action(&action);
        assert_eq!(decode_action(&written), Ok(action));
        let wire = serde_json::to_vec(&to_value(&written)).unwrap();
        let read = parse(&wire).unwrap();
        assert_eq!(read, written);
        assert_eq!(decode_action(&read), Ok(action));
    }
}

#[test]
fn first_reading_of_a_number_decides() {
    let half = 0.5f64.to_bits();
    let five = 5.0f64.to_bits();
    assert_eq!(
        number_from_readings(Some(5), Some(5), Some(five)),
        Json::Number(Number::Unsigned(5))
    );
    assert_eq!(
        number_from_readings(None, Some(-2), Some((-2.0f64).to_bits())),
        Json::Number(Number::Negative(-2))
    );
    assert_eq!(number_from_readings(None, None, Some(half)), Json::Number(Number::Real(half)));
    assert_eq!(number_from_readings(Some(1), None, None), Json::Number(Number::Unsigned(1)));
    assert_eq!(number_from_readings(None, Some(3), None), Json::Number(Number::Negative(3)));
    assert_eq!(number_from_readings(None, None, None), Json::Null);
}

#[test]
fn settling_decides_numbers_and_keeps_the_rest() {
    let half = 0.5f64.to_bits();
    let raw = Raw::Object(vec![
        ("a".to_string(), Raw::Array(vec![
            Raw::Number(Some(7), Some(7), Some(7.0f64.to_bits())),
            Raw::Number(None, Some(-7), Some((-7.0f64).to_bits())),
            Raw::Number(None, None, Some(half)),
            Raw::Number(None, None, None),
        ])),
        ("b".to_string(), Raw::Text("x".to_string())),
        ("c".to_string(), Raw::Bool(false)),
        ("d".to_string(), Raw::Null),
        ("e".to_string(), Raw::Object(vec![])),
    ]);
    assert_eq!(
        settle(&raw),
        object(vec![
            ("a", Json::Array(vec![
                Json::Number(Number::Unsigned(7)),
                Json::Number(Number::Negative(-7)),
                Json::Number(Number::Real(half)),
                Json::Null,
            ])),
            ("b", text("x")),
            ("c", Json::Bool(false)),
            ("d", Json::Null),
            ("e", object(vec![])),
        ])
    );
    assert_eq!(settle(&Raw::Array(vec![])), Json::Array(vec![]));
}

#[test]
fn parse_refuses_what_the_reader_cannot_hold() {
    let mut deep = Vec::new();
    for _ in 0..200 {
        deep.push(b'[');
    }
    for _ in 0..200 {
        deep.push(b']');
    }
    assert_eq!(parse(&deep), None);
    assert_eq!(parse(b"1e999"), None);
    assert_eq!(decode_request(b"{\"actions\": [{\"MouseMove\": [1e999, 0]}]}"), Err(DecodeError::Malformed));
    let mut shallow = Vec::new();
    for _ in 0..100 {
        shallow.push(b'[');
    }
    for _ in 0..100 {
        shallow.push(b']');
    }
    assert!(parse(&shallow).is_some());
}
