use theta_feed::models::{ConstructionError, FeedConfig, Request, Response, Status, StreamOne};
use theta_feed::wire::DecodeError;
use tokio_tungstenite::tungstenite::Message;

fn text_field(key: &str, value: &str) -> (String, Option<String>, String) {
    (key.to_string(), Some(value.to_string()), format!("\"{}\"", value))
}

fn auth_json(secret: &str) -> String {
    Request::auth(secret).unwrap().to_json()
}

#[test]
fn serialize_auth_properly() {
    assert_eq!(
        auth_json(&"x".repeat(32)),
        r#"{"action":"auth","params":"xxxxxxxxxxxxxxxxxxxxxxxxxxxxxxxx"}"#
    );
}

#[test]
fn serialize_auth_into_message() {
    assert_eq!(
        Message::text(auth_json(&"x".repeat(32))),
        Message::text(r#"{"action":"auth","params":"xxxxxxxxxxxxxxxxxxxxxxxxxxxxxxxx"}"#)
    );
}

#[test]
fn deserialize_connection_confirmation() {
    assert_eq!(
        Response::decode_frame(
            r#"[{"ev":"status","status":"connected","message":"Connected Successfully"}]"#,
        )
        .unwrap(),
        vec![Response {
            ev: String::from("status"),
            status: Some(Status::Connected),
            message: Some(String::from("Connected Successfully")),
            fields: vec![
                text_field("ev", "status"),
                text_field("message", "Connected Successfully"),
                text_field("status", "connected"),
            ],
        }]
    );
}

#[test]
fn deserialize_authentication_confirmation() {
    assert_eq!(
        Response::decode_frame(
            r#"[{"ev":"status","status":"auth_success","message":"authenticated"}]"#,
        )
        .unwrap(),
        vec![Response {
            ev: String::from("status"),
            status: Some(Status::AuthSuccess),
            message: Some(String::from("authenticated")),
            fields: vec![
                text_field("ev", "status"),
                text_field("message", "authenticated"),
                text_field("status", "auth_success"),
            ],
        }]
    );
}

#[test]
fn serialize_subscribe_properly() {
    assert_eq!(
        Request::subscribe(vec!["T"]).unwrap().to_json(),
        r#"{"action":"subscribe","params":"A.T"}"#
    );
    assert_eq!(
        Request::subscribe(vec!["T", "F"]).unwrap().to_json(),
        r#"{"action":"subscribe","params":"A.T,F"}"#
    );
    assert_eq!(
        Request::subscribe(vec!["MMM", "T", "F"]).unwrap().to_json(),
        r#"{"action":"subscribe","params":"A.MMM,T,F"}"#
    );
}

#[test]
fn serialize_subscribe_into_message() {
    assert_eq!(
        Message::text(Request::subscribe(vec!["T", "F"]).unwrap().to_json()),
        Message::text(r#"{"action":"subscribe","params":"A.T,F"}"#)
    );
}

#[test]
fn auth_needs_a_secret_32_chars_in_length() {
    assert_eq!(Request::auth(""), Err(ConstructionError::InvalidSecretLength));
}

#[test]
fn subscribe_needs_at_least_one_target() {
    assert_eq!(Request::subscribe(vec![]), Err(ConstructionError::EmptyTargetList));
}

#[test]
fn can_create_auth_messages() {
    let expected =
        Message::text(r#"{"action":"auth","params":"xxxxxxxxxxxxxxxxxxxxxxxxxxxxxxxx"}"#);
    let msgs = StreamOne::auth("xxxxxxxxxxxxxxxxxxxxxxxxxxxxxxxx").unwrap();
    assert_eq!(msgs.len(), 1);
    assert_eq!(Message::text(msgs[0].clone()), expected);
}

#[test]
fn can_create_subscribe_messages() {
    let expected = Message::text(r#"{"action":"subscribe","params":"A.T"}"#);
    let msgs = StreamOne::subscribe(vec!["T"]).unwrap();
    assert_eq!(msgs.len(), 1);
    assert_eq!(Message::text(msgs[0].clone()), expected);
}

fn polygon_auth_json(secret: &str) -> String {
    Request::auth_for(&FeedConfig::polygon(), secret).unwrap().to_json()
}

fn polygon_subscribe_json(targets: Vec<&str>) -> String {
    Request::subscribe_for(&FeedConfig::polygon(), targets).unwrap().to_json()
}

#[test]
fn models_serialize_auth_properly() {
    assert_eq!(
        polygon_auth_json(&"x".repeat(33)),
        r#"{"action":"auth","params":"xxxxxxxxxxxxxxxxxxxxxxxxxxxxxxxxx"}"#
    );
}

#[test]
fn models_serialize_auth_into_message() {
    assert_eq!(
        Message::text(polygon_auth_json(&"x".repeat(33))),
        Message::text(r#"{"action":"auth","params":"xxxxxxxxxxxxxxxxxxxxxxxxxxxxxxxxx"}"#)
    );
}

#[test]
fn models_serialize_subscribe_properly() {
    assert_eq!(polygon_subscribe_json(vec!["T"]), r#"{"action":"subscribe","params":"T"}"#);
    assert_eq!(polygon_subscribe_json(vec!["T", "F"]), r#"{"action":"subscribe","params":"T,F"}"#);
    assert_eq!(
        polygon_subscribe_json(vec!["MMM", "T", "F"]),
        r#"{"action":"subscribe","params":"MMM,T,F"}"#
    );
}

#[test]
fn models_serialize_subscribe_into_message() {
    assert_eq!(
        Message::text(polygon_subscribe_json(vec!["T", "F"])),
        Message::text(r#"{"action":"subscribe","params":"T,F"}"#)
    );
}

#[test]
fn auth_needs_a_secret_33_chars_in_length() {
    assert_eq!(
        Request::auth_for(&FeedConfig::polygon(), ""),
        Err(ConstructionError::InvalidSecretLength)
    );
    assert_eq!(
        Request::auth_for(&FeedConfig::polygon(), &"x".repeat(32)),
        Err(ConstructionError::InvalidSecretLength)
    );
}

#[test]
fn models_subscribe_needs_at_least_one_target() {
    assert_eq!(
        Request::subscribe_for(&FeedConfig::polygon(), vec![]),
        Err(ConstructionError::EmptyTargetList)
    );
}

#[test]
fn auth_length_is_counted_in_bytes() {
    assert_eq!(Request::auth(&"x".repeat(31)), Err(ConstructionError::InvalidSecretLength));
    assert_eq!(Request::auth(&"x".repeat(33)), Err(ConstructionError::InvalidSecretLength));
    // sixteen two-byte characters make 32 bytes
    let secret = "é".repeat(16);
    let req = Request::auth(&secret).unwrap();
    assert_eq!(req.params(), secret.as_str());
}

#[test]
fn auth_secret_is_escaped_in_json() {
    let secret = format!("{}\"\\", "y".repeat(30));
    let json = auth_json(&secret);
    assert_eq!(
        json,
        format!(r#"{{"action":"auth","params":"{}\"\\"}}"#, "y".repeat(30))
    );
}

#[test]
fn subscribe_with_custom_prefix() {
    let config = FeedConfig { secret_len: 32, topic_prefix: String::from("Q."), idle_limit: 4 };
    let req = Request::subscribe_for(&config, vec!["T", "F"]).unwrap();
    assert_eq!(req.params(), "Q.T,F");
    assert_eq!(req.to_json(), r#"{"action":"subscribe","params":"Q.T,F"}"#);
}

#[test]
fn decode_several_responses_in_order() {
    let rs = Response::decode_frame(
        r#"[{"ev":"status","status":"auth_failed","message":"a"},{"ev":"status","status":"success","message":"b","extra":"c"}]"#,
    )
    .unwrap();
    assert_eq!(rs.len(), 2);
    assert_eq!(rs[0].status, Some(Status::AuthFailed));
    assert_eq!(rs[1].status, Some(Status::Success));
    assert_eq!(rs[1].message.as_deref(), Some("b"));
    assert!(rs[1].is_success());
    assert!(!rs[0].is_success());
}

#[test]
fn decode_empty_array() {
    assert_eq!(Response::decode_frame("[]").unwrap(), vec![]);
}

#[test]
fn decode_rejects_malformed_json() {
    assert_eq!(Response::decode_frame("[{\"ev\":"), Err(DecodeError::MalformedFrame));
    assert_eq!(Response::decode_frame("not json"), Err(DecodeError::MalformedFrame));
}

#[test]
fn decode_rejects_unexpected_shape() {
    assert_eq!(Response::decode_frame(r#"{"ev":"status"}"#), Err(DecodeError::UnexpectedShape));
    assert_eq!(
        Response::decode_frame(r#"[{"status":"connected","message":"no ev"}]"#),
        Err(DecodeError::UnexpectedShape)
    );
    assert_eq!(
        Response::decode_frame(r#"[{"ev":7,"status":"connected"}]"#),
        Err(DecodeError::UnexpectedShape)
    );
    assert_eq!(
        Response::decode_frame(r#"[{"ev":"status","status":"connected","message":3}]"#),
        Err(DecodeError::UnexpectedShape)
    );
    assert_eq!(
        Response::decode_frame(r#"[{"ev":"status","status":"sleeping","message":"m"}]"#),
        Err(DecodeError::UnexpectedShape)
    );
}

#[test]
fn status_predicates() {
    let r = Response { ev: String::from("status"), status: Some(Status::Connected), message: None, fields: vec![] };
    assert!(r.is_connected());
    assert!(!r.is_auth_success());
    assert!(!r.is_success());
    let r = Response { ev: String::from("status"), status: Some(Status::AuthSuccess), message: None, fields: vec![] };
    assert!(r.is_auth_success());
    assert!(!r.is_connected());
    let data = Response { ev: String::from("T"), status: None, message: None, fields: vec![] };
    assert!(!data.is_connected() && !data.is_auth_success() && !data.is_success());
}

#[test]
fn decode_ignores_extra_fields_of_any_type() {
    let rs = Response::decode_frame(
        r#"[{"ev":"status","status":"connected","message":"m","id":1,"tags":["a"],"meta":{"x":null}}]"#,
    )
    .unwrap();
    assert_eq!(
        rs,
        vec![Response {
            ev: String::from("status"),
            status: Some(Status::Connected),
            message: Some(String::from("m")),
            fields: vec![
                text_field("ev", "status"),
                (String::from("id"), None, String::from("1")),
                text_field("message", "m"),
                (String::from("meta"), None, String::from(r#"{"x":null}"#)),
                text_field("status", "connected"),
                (String::from("tags"), None, String::from(r#"["a"]"#)),
            ],
        }]
    );
    assert_eq!(
        Response::decode_frame(r#"[{"ev":"status","status":1,"message":"m"}]"#),
        Err(DecodeError::UnexpectedShape)
    );
}

#[test]
fn responses_from_decoded_objects() {
    let objs = vec![
        vec![text_field("ev", "status"), text_field("message", "hi"), text_field("status", "auth_success")],
        vec![text_field("ev", "T"), (String::from("p"), None, String::from("1.5")), text_field("sym", "MMM")],
    ];
    let rs = Response::from_objects(&objs).unwrap();
    assert_eq!(rs.len(), 2);
    assert_eq!(rs[0].status, Some(Status::AuthSuccess));
    assert_eq!(rs[0].message.as_deref(), Some("hi"));
    assert_eq!(rs[1].ev, "T");
    assert_eq!(rs[1].status, None);
    assert_eq!(rs[1].message, None);
    assert_eq!(rs[1].fields, objs[1]);
    assert_eq!(Response::from_objects(&vec![]), Ok(vec![]));
    let no_ev = vec![vec![text_field("message", "m"), text_field("status", "success")]];
    assert_eq!(Response::from_objects(&no_ev), Err(DecodeError::UnexpectedShape));
    let unknown = vec![vec![text_field("ev", "status"), text_field("status", "done")]];
    assert_eq!(Response::from_objects(&unknown), Err(DecodeError::UnexpectedShape));
}

#[test]
fn decode_data_events() {
    let rs = Response::decode_frame(
        r#"[{"ev":"T","sym":"MMM","p":101.5,"s":20},{"ev":"Q","sym":"F","bp":9.1}]"#,
    )
    .unwrap();
    assert_eq!(rs.len(), 2);
    assert_eq!(rs[0].ev, "T");
    assert_eq!(rs[0].status, None);
    assert_eq!(rs[0].message, None);
    assert_eq!(
        rs[0].fields,
        vec![
            text_field("ev", "T"),
            (String::from("p"), None, String::from("101.5")),
            (String::from("s"), None, String::from("20")),
            text_field("sym", "MMM"),
        ]
    );
    assert_eq!(rs[1].ev, "Q");
    assert_eq!(rs[1].fields.len(), 3);
}

#[test]
fn subscribe_message_text_is_exact() {
    let msgs = StreamOne::subscribe(vec!["MMM", "T"]).unwrap();
    assert_eq!(msgs, vec![String::from(r#"{"action":"subscribe","params":"A.MMM,T"}"#)]);
    assert_eq!(StreamOne::subscribe(vec![]), Err(ConstructionError::EmptyTargetList));
}

#[test]
fn auth_control_characters_are_escaped_in_json() {
    let secret = format!("{}\n\u{1}\t", "y".repeat(29));
    assert_eq!(
        auth_json(&secret),
        format!(r#"{{"action":"auth","params":"{}\n\u0001\t"}}"#, "y".repeat(29))
    );
}
