use gyg_template::delay::{callback_payload, resolve_payload};
use gyg_template::web::{parse_model_key, KeyParts};
use gyg_template::event::TemplateEvent;
use gyg_template::input::{LocalData, TemplateInputProps};
use gyg_template::stream::{stream_step, StreamStep};
use gyg_template::template::{data_url, DtoMessage, Template, TemplateStateProps, API_BASE_URL};
use horfimbor_eventsource::metadata::Metadata;
use horfimbor_eventsource::model_key::ModelKey;

const ID: &str = "67e55044-10b1-426f-9247-bb680e5fe0c8";

fn metadata_json(is_event: bool) -> Vec<u8> {
    format!(
        "{{\"$correlationId\":\"{ID}\",\"$causationId\":\"{ID}\",\"is_event\":{is_event}}}"
    )
    .into_bytes()
}

fn stop_text(step: StreamStep) -> String {
    match step {
        StreamStep::Stop(m) => m,
        _ => panic!("expected the stream to stop"),
    }
}

#[test]
fn stream_sends_events() {
    let bytes = metadata_json(true);
    let parsed: Metadata = serde_json::from_slice(&bytes).unwrap();
    assert!(parsed.is_event());
    match stream_step(Some(&bytes), Some(TemplateEvent::Added(4))) {
        StreamStep::Send(e) => assert_eq!(e, TemplateEvent::Added(4)),
        _ => panic!("expected an event to send"),
    }
}

#[test]
fn stream_skips_commands() {
    let bytes = metadata_json(false);
    assert!(matches!(stream_step(Some(&bytes), Some(TemplateEvent::Added(4))), StreamStep::Skip));
    assert!(matches!(stream_step(Some(&bytes), None), StreamStep::Skip));
}

#[test]
fn stream_stops_on_errors() {
    assert_eq!(stop_text(stream_step(None, None)), "cannot get event");
    assert_eq!(stop_text(stream_step(Some(b"not json"), Some(TemplateEvent::Removed(1)))), "cannot get metdata");
    assert_eq!(stop_text(stream_step(Some(&metadata_json(true)), None)), "cannot get original event");
}

#[test]
fn payload_resolved_to_key_and_amount() {
    let text = format!("template2-{ID}:42");
    let (key, to_add) = resolve_payload(text.into_bytes()).unwrap();
    assert_eq!(to_add, 42);
    let expected = uuid::Uuid::parse_str(ID).unwrap().as_u128();
    assert_eq!(key, KeyParts { stream_name: "template2".to_string(), stream_id: expected });
    let model_key = ModelKey::try_from(format!("template2-{ID}").as_str()).unwrap();
    assert_eq!(model_key.to_string(), format!("template2-{}", uuid::Uuid::from_u128(key.stream_id)));
}

#[test]
fn payload_of_a_key_resolves_to_that_key() {
    let model_key = ModelKey::new("template2", uuid::Uuid::parse_str(ID).unwrap());
    let payload = callback_payload(&model_key.to_string(), 7);
    let (key, to_add) = resolve_payload(Vec::from(payload)).unwrap();
    assert_eq!(to_add, 7);
    assert_eq!(key.stream_name, "template2");
    assert_eq!(uuid::Uuid::from_u128(key.stream_id), uuid::Uuid::parse_str(ID).unwrap());
    let rebuilt = ModelKey::try_from(format!("{}-{}", key.stream_name, uuid::Uuid::from_u128(key.stream_id)).as_str()).unwrap();
    assert_eq!(rebuilt, model_key);
}

#[test]
fn payload_errors_in_order() {
    let invalid = vec![0xffu8, b':', b'1'];
    let expected = String::from_utf8(invalid.clone()).unwrap_err().to_string();
    assert_eq!(resolve_payload(invalid).err(), Some(expected));
    assert_eq!(resolve_payload(b"abc".to_vec()).err(), Some("cannot split: abc".to_string()));
    let bad_key = ModelKey::try_from("template2-nope").unwrap_err().to_string();
    assert_eq!(
        resolve_payload(b"template2-nope:x".to_vec()).err(),
        Some(format!("bad model_key: {bad_key}"))
    );
    assert_eq!(
        resolve_payload(format!("template2-{ID}:x").into_bytes()).err(),
        Some("bad to add value invalid digit found in string".to_string())
    );
}

#[test]
fn model_key_from_stream_id() {
    let key = parse_model_key(&format!("template2-{ID}")).unwrap();
    assert_eq!(key.stream_name, "template2");
    assert_eq!(key.stream_id, uuid::Uuid::parse_str(ID).unwrap().as_u128());
    for bad in ["template2-bad", "template2", "", "-", "a-b-c"] {
        let err = parse_model_key(bad).unwrap_err();
        assert_eq!(err, ModelKey::try_from(bad).unwrap_err().to_string(), "input {:?}", bad);
    }
    let braced = format!("s-{{{ID}}}");
    let key = parse_model_key(&braced).unwrap();
    assert_eq!(key.stream_name, "s");
    assert!(ModelKey::try_from(braced.as_str()).is_ok());
    let urn = format!("s-urn:uuid:{ID}");
    assert_eq!(parse_model_key(&urn).is_ok(), ModelKey::try_from(urn.as_str()).is_ok());
}

#[test]
fn client_texts() {
    assert_eq!(API_BASE_URL, "http://localhost:8000/api/");
    assert_eq!(data_url(), "http://localhost:8000/api/data");
    assert_eq!(
        Template::eventsource_failed().dto().as_ref().err(),
        Some(&"cannot open eventsource to http://localhost:8000/api/data".to_string())
    );
    assert_eq!(
        Template::subscription_failed().dto().as_ref().err(),
        Some(&"cannot subscribe to all messages".to_string())
    );
    assert!(matches!(DtoMessage::stream_closed(), DtoMessage::Error(e) if e == "stream closed"));
    assert!(matches!(DtoMessage::eventsource_closed(), DtoMessage::Error(e) if e == "EventSource closed"));
}

#[test]
fn client_derives() {
    let p = TemplateInputProps::default();
    assert_eq!(p.endpoint, "");
    assert_eq!(p.clone(), p);
    let s = TemplateStateProps::default();
    assert_eq!(s.id, "");
    assert_eq!(s.clone(), s);
    let d = LocalData::new("e".to_string(), "i".to_string());
    assert_eq!(d.clone(), d);
}
