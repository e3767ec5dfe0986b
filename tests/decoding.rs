use telegramd::chat_data::{decode_file_request, decode_message_request, DecodeError, PayloadSource};
use telegramd::message::decode_failure_response;

fn pairs(items: &[(&str, &str)]) -> Vec<(String, String)> {
    items.iter().map(|(k, v)| (k.to_string(), v.to_string())).collect()
}

#[test]
fn query_and_json_decode_alike() {
    let q = PayloadSource::QueryParams(pairs(&[("chatid", "42"), ("message", "hi")]));
    let j = PayloadSource::JsonBody(pairs(&[("message", "hi"), ("chatid", "42")]));
    let a = decode_message_request(&q).unwrap();
    let b = decode_message_request(&j).unwrap();
    assert_eq!(a.chatid, b.chatid);
    assert_eq!(a.message, b.message);
    assert_eq!(a.chatid, "42");
    assert_eq!(a.message, "hi");
}

#[test]
fn missing_chatid_is_malformed() {
    let q = PayloadSource::QueryParams(pairs(&[("message", "hi")]));
    assert_eq!(decode_message_request(&q).err(), Some(DecodeError::MissingChatId));
    let j = PayloadSource::JsonBody(pairs(&[("chatid", ""), ("message", "hi")]));
    assert_eq!(decode_message_request(&j).err(), Some(DecodeError::MissingChatId));
}

#[test]
fn text_request_needs_a_message() {
    let j = PayloadSource::JsonBody(pairs(&[("chatid", "42")]));
    assert_eq!(decode_message_request(&j).err(), Some(DecodeError::MissingMessage));
}

#[test]
fn file_request_message_is_optional() {
    let q = PayloadSource::QueryParams(pairs(&[("chatid", "42")]));
    let d = decode_file_request(&q).unwrap();
    assert_eq!(d.chatid, "42");
    assert_eq!(d.message, None);
    let q = PayloadSource::QueryParams(pairs(&[("chatid", "42"), ("message", "see")]));
    assert_eq!(decode_file_request(&q).unwrap().message, Some("see".to_string()));
    let q = PayloadSource::QueryParams(pairs(&[("message", "see")]));
    assert_eq!(decode_file_request(&q).err(), Some(DecodeError::MissingChatId));
}

#[test]
fn repeated_field_last_counts() {
    let q = PayloadSource::QueryParams(pairs(&[("chatid", "1"), ("message", "a"), ("chatid", "2")]));
    assert_eq!(decode_message_request(&q).unwrap().chatid, "2");
}

#[test]
fn decode_failure_is_500_with_text() {
    let r = decode_failure_response(DecodeError::MissingChatId);
    assert_eq!(r.status, 500);
    assert_eq!(r.body, "missing field `chatid`");
    assert_eq!(decode_failure_response(DecodeError::Unparsable).body, "malformed request");
    assert_eq!(decode_failure_response(DecodeError::MissingMessage).body, "missing field `message`");
}
