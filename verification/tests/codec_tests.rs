use chat_session::codec::decode_bundle;
use chat_session::codec::encode_bundle;
use chat_session::data::SessionBundle;

const PASSPHRASE: &str = "A1b2C3d4E5f6G7h8I9j0K1l2M3n4O5p6";

fn sample_bundle(sync_token: Option<&str>) -> SessionBundle {
    SessionBundle {
        homeserver: String::from("https://example.org/"),
        db_path: String::from("/data/app/db"),
        db_passphrase: String::from(PASSPHRASE),
        session: String::from("opaque-session-token"),
        sync_token: sync_token.map(String::from),
    }
}

#[test]
fn encode_canonical_with_sync_token() {
    let b = sample_bundle(Some("s-1"));
    let expected = format!(
        "{{\"homeserver\":\"https://example.org/\",\"db_path\":\"/data/app/db\",\
         \"db_passphrase\":\"{}\",\"session\":\"opaque-session-token\",\
         \"sync_token\":\"s-1\"}}",
        PASSPHRASE
    );
    assert_eq!(encode_bundle(&b), expected);
}

#[test]
fn encode_canonical_without_sync_token() {
    let b = sample_bundle(None);
    let expected = format!(
        "{{\"homeserver\":\"https://example.org/\",\"db_path\":\"/data/app/db\",\
         \"db_passphrase\":\"{}\",\"session\":\"opaque-session-token\"}}",
        PASSPHRASE
    );
    assert_eq!(encode_bundle(&b), expected);
}

#[test]
fn encode_escapes_quotes_and_backslashes() {
    let mut b = sample_bundle(None);
    b.session = String::from("a\"b\\c");
    let encoded = encode_bundle(&b);
    assert!(encoded.contains("\"session\":\"a\\\"b\\\\c\""));
}

#[test]
fn decode_undoes_encode_with_sync_token() {
    let b = sample_bundle(Some("s-1"));
    let decoded = decode_bundle(encode_bundle(&b).as_str()).expect("should decode");
    assert_eq!(decoded, b);
}

#[test]
fn decode_undoes_encode_without_sync_token() {
    let b = sample_bundle(None);
    let decoded = decode_bundle(encode_bundle(&b).as_str()).expect("should decode");
    assert_eq!(decoded, b);
}

#[test]
fn decode_undoes_encode_with_escapes() {
    let mut b = sample_bundle(Some("cursor \"x\" \\ y"));
    b.session = String::from("{\"k\":\"v\\\\w\"}");
    let decoded = decode_bundle(encode_bundle(&b).as_str()).expect("should decode");
    assert_eq!(decoded, b);
}

#[test]
fn decode_rejects_missing_field() {
    let text = "{\"homeserver\":\"https://example.org/\",\"db_path\":\"/data/app/db\"}";
    assert!(decode_bundle(text).is_none());
}

#[test]
fn decode_rejects_trailing_garbage() {
    let b = sample_bundle(None);
    let mut text = encode_bundle(&b);
    text.push_str("x");
    assert!(decode_bundle(text.as_str()).is_none());
}

#[test]
fn decode_rejects_empty_homeserver() {
    let text = format!(
        "{{\"homeserver\":\"\",\"db_path\":\"/data/app/db\",\"db_passphrase\":\"{}\",\
         \"session\":\"tok\"}}",
        PASSPHRASE
    );
    assert!(decode_bundle(text.as_str()).is_none());
}

#[test]
fn decode_rejects_short_passphrase() {
    let text = "{\"homeserver\":\"https://example.org/\",\"db_path\":\"/d\",\
                \"db_passphrase\":\"short\",\"session\":\"tok\"}";
    assert!(decode_bundle(text).is_none());
}

#[test]
fn decode_rejects_bad_escape() {
    let text = format!(
        "{{\"homeserver\":\"https:\\/\\/example.org\",\"db_path\":\"/d\",\
         \"db_passphrase\":\"{}\",\"session\":\"tok\"}}",
        PASSPHRASE
    );
    assert!(decode_bundle(text.as_str()).is_none());
}

#[test]
fn decode_rejects_raw_control_character() {
    let text = format!(
        "{{\"homeserver\":\"https://example.org/\",\"db_path\":\"/d\ne\",\
         \"db_passphrase\":\"{}\",\"session\":\"tok\"}}",
        PASSPHRASE
    );
    assert!(decode_bundle(text.as_str()).is_none());
}

#[test]
fn decode_rejects_non_canonical_whitespace() {
    let text = format!(
        "{{ \"homeserver\": \"https://example.org/\", \"db_path\": \"/d\", \
         \"db_passphrase\": \"{}\", \"session\": \"tok\" }}",
        PASSPHRASE
    );
    assert!(decode_bundle(text.as_str()).is_none());
}
