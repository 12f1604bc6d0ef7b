use gyg_template::command::{Delay, TemplateCommand};
use gyg_template::decimal::to_decimal;
use gyg_template::delay::{
    callback_payload, callback_time, parse_to_add, read_payload, seconds_to_wait, signed_seconds,
    split_payload, Delayed, MAX_UTC_SECONDS, MIN_UTC_SECONDS,
};
use gyg_template::dto::TemplateDto;
use gyg_template::event::TemplateEvent;
use gyg_template::input::{LocalAction, LocalData, TemplateInputProps, DEFAULT_DELAY, DEFAULT_TO_ADD};
use gyg_template::template::{DtoMessage, LocalData as PageData, Template};
use gyg_template::web::{parse_model_id, script_path, uuid_from_cookie, uuid_from_cookies};

#[test]
fn payload_written_and_read_back() {
    let p = callback_payload("template2.1234", 42);
    assert_eq!(p, "template2.1234:42");
    let (key, value) = split_payload(&p).unwrap();
    assert_eq!(key, "template2.1234");
    assert_eq!(value, "42");
    assert_eq!(parse_to_add(&value), Ok(42));
    let (key, value) = read_payload(p.clone().into_bytes()).unwrap();
    assert_eq!((key.as_str(), value.as_str()), ("template2.1234", "42"));
}

#[test]
fn payload_split_at_first_separator() {
    assert_eq!(split_payload("a:b:c"), Some(("a".to_string(), "b:c".to_string())));
    assert_eq!(split_payload(":"), Some((String::new(), String::new())));
    assert_eq!(split_payload("abc"), None);
    for s in ["a:b:c", "x:", ":y", "nothing", "é:ü"] {
        let expected = s.split_once(':').map(|(a, b)| (a.to_string(), b.to_string()));
        assert_eq!(split_payload(s), expected);
    }
}

#[test]
fn payload_errors() {
    assert_eq!(read_payload(b"no separator".to_vec()), Err("cannot split: no separator".to_string()));
    let bad = read_payload(vec![0xff, 0xfe, b':', b'1']);
    let expected = String::from_utf8(vec![0xff, 0xfe, b':', b'1']).unwrap_err().to_string();
    assert_eq!(bad, Err(expected));
    assert_eq!(parse_to_add("x"), Err("bad to add value invalid digit found in string".to_string()));
    assert_eq!(parse_to_add(""), Err("bad to add value cannot parse integer from empty string".to_string()));
}

#[test]
fn callback_time_range() {
    let d = |timestamp: u64| Delayed { id: 0, timestamp, to_add: 1 };
    assert_eq!(callback_time(&d(1431648000)), Some(1431648000));
    assert_eq!(callback_time(&d(MAX_UTC_SECONDS as u64)), Some(MAX_UTC_SECONDS));
    assert_eq!(callback_time(&d(MAX_UTC_SECONDS as u64 + 1)), None);
    assert_eq!(callback_time(&d(u64::MAX)), Some(-1));
    assert_eq!(callback_time(&d(MIN_UTC_SECONDS as u64)), Some(MIN_UTC_SECONDS));
    assert_eq!(callback_time(&d((MIN_UTC_SECONDS - 1) as u64)), None);
    assert!(chrono::DateTime::from_timestamp(MAX_UTC_SECONDS, 0).is_some());
    assert!(chrono::DateTime::from_timestamp(MAX_UTC_SECONDS + 1, 0).is_none());
    assert!(chrono::DateTime::from_timestamp(MIN_UTC_SECONDS, 0).is_some());
    assert!(chrono::DateTime::from_timestamp(MIN_UTC_SECONDS - 1, 0).is_none());
}

#[test]
fn signed_seconds_wrap_like_a_cast() {
    for t in [0u64, 1, 1 << 40, i64::MAX as u64, i64::MAX as u64 + 1, u64::MAX - 5, u64::MAX] {
        assert_eq!(signed_seconds(t), t as i64);
    }
}

#[test]
fn waiting_time() {
    assert_eq!(seconds_to_wait(110, 100), 10);
    assert_eq!(seconds_to_wait(100, 100), 0);
    assert_eq!(seconds_to_wait(90, 100), 0);
    assert_eq!(seconds_to_wait((1u64 << 32) + 5, 0), 5);
}

#[test]
fn cookie_id() {
    assert_eq!(uuid_from_cookie("uuid=abc-123"), "abc-123");
    assert_eq!(uuid_from_cookie("a=b=c"), "c");
    assert_eq!(uuid_from_cookie("plain"), "plain");
    assert_eq!(uuid_from_cookie("uuid="), "");
    for s in ["uuid=abc-123", "a=b=c", "plain", "uuid=", "=x", "é=ü"] {
        assert_eq!(uuid_from_cookie(s), s.split('=').last().unwrap());
    }
    assert_eq!(uuid_from_cookies(None), Err("no cookies".to_string()));
    assert_eq!(uuid_from_cookies(Some("uuid=42")), Ok("42".to_string()));
}

#[test]
fn model_id_from_path() {
    let text = "67e55044-10b1-426f-9247-bb680e5fe0c8";
    let expected = uuid::Uuid::parse_str(text).unwrap().as_u128();
    assert_eq!(parse_model_id(text), Ok(expected));
    assert_ne!(expected, 0);
    let err = parse_model_id("not-a-uuid");
    assert_eq!(err, Err(uuid::Uuid::parse_str("not-a-uuid").unwrap_err().to_string()));
    assert_ne!(err, Err("not-a-uuid".to_string()));
}

#[test]
fn script_path_of_version() {
    assert_eq!(script_path("0.1.0"), "/template/index-v0-1-0.js");
    assert_eq!(script_path(""), "/template/index-v.js");
    assert_eq!(script_path("1.2.3-beta.1"), format!("/template/index-v{}.js", "1.2.3-beta.1".replace('.', "-")));
}

#[test]
fn input_props() {
    let p = TemplateInputProps { endpoint: "http://h".to_string(), id: "x".to_string() };
    assert_eq!(p.endpoint(), "http://h");
    assert_eq!(p.id(), "x");
    assert_eq!(p.path(), "/input");
    assert_eq!(p.jwt(), "");
}

#[test]
fn form_commands() {
    let d = LocalData::new("http://h".to_string(), "id".to_string());
    assert_eq!(d.nb(), DEFAULT_TO_ADD);
    assert_eq!(d.delay(), DEFAULT_DELAY);
    assert_eq!(d.error(), None);
    assert_eq!(d.get_command(), Some(TemplateCommand::Delayed(Delay { delay: 2, to_add: 42 })));
    let d = d.reduce(LocalAction::ChangeDelay(0));
    assert_eq!(d.get_command(), Some(TemplateCommand::Add(42)));
    let d = d.reduce(LocalAction::ChangeNb(7));
    assert_eq!(d.get_command(), Some(TemplateCommand::Add(7)));
    let d = d.reduce(LocalAction::SetError(Some("oops".to_string())));
    assert_eq!(d.error(), Some(&"oops".to_string()));
    assert_eq!(d.get_command(), Some(TemplateCommand::Add(7)));
    assert_eq!(d.endpoint(), "http://h");
    assert_eq!(d.id(), "id");
}

#[test]
fn form_input_parsing() {
    assert!(matches!(LocalAction::from_nb_input("12"), LocalAction::ChangeNb(12)));
    assert!(matches!(LocalAction::from_delay_input("3"), LocalAction::ChangeDelay(3)));
    match LocalAction::from_nb_input("x") {
        LocalAction::SetError(Some(e)) => assert_eq!(e, "cannot parse nb"),
        _ => panic!("expected an error"),
    }
    match LocalAction::from_delay_input("") {
        LocalAction::SetError(Some(e)) => assert_eq!(e, "cannot parse delay"),
        _ => panic!("expected an error"),
    }
}

#[test]
fn page_form() {
    let d = PageData::default();
    assert_eq!(d.shown_nb(), 42);
    assert_eq!(d.command(), TemplateCommand::Add(42));
    let d = PageData::from_input("15");
    assert_eq!(d.command(), TemplateCommand::Add(15));
    assert_eq!(d.error(), None);
    let d = PageData::from_input("abc");
    assert_eq!(d.error(), Some(&"cannot parse input".to_string()));
    assert_eq!(d.shown_nb(), 42);
    assert_eq!(d.command(), TemplateCommand::Add(42));
    let d = PageData::from_error("fail to send command".to_string());
    assert_eq!(d.error(), Some(&"fail to send command".to_string()));
}

#[test]
fn page_updates() {
    let mut t = Template::new();
    assert!(t.update(DtoMessage::Event(TemplateEvent::Added(3))));
    assert_eq!(
        t.dto().as_ref().unwrap().last_ten(),
        &vec![TemplateEvent::Added(1337), TemplateEvent::Added(3)]
    );
    assert!(t.update(DtoMessage::Error("stream closed".to_string())));
    assert!(!t.update(DtoMessage::Event(TemplateEvent::Added(3))));
    assert_eq!(t.dto().as_ref().err(), Some(&"stream closed".to_string()));
    assert!(t.update(DtoMessage::Dto(TemplateDto::empty())));
    assert!(t.dto().as_ref().unwrap().last_ten().is_empty());
    let f = Template::failed("cannot subscribe to all messages".to_string());
    assert!(f.dto().is_err());
}

#[test]
fn decimal_in_payload() {
    assert_eq!(callback_payload("k", usize::MAX), format!("k:{}", to_decimal(usize::MAX)));
}
