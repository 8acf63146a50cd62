use event_store::ident::{
    check_enum_event_ident, check_event_ident, decode_struct_event_ident, resolve_event_ident,
    EventIdent,
};
use event_store::text::{decimal_string, split_first_two, str_eq, trim_matches, upper_hex_string};

fn ident(ns: &str, ty: &str) -> EventIdent {
    EventIdent { event_namespace: ns.to_string(), event_type: ty.to_string() }
}

#[test]
fn split_fields_win_over_the_legacy_field() {
    let r = resolve_event_ident(Some(ident("store", "ThingCreated")), Some("other.Thing".to_string()))
        .ok()
        .unwrap();
    assert_eq!(r.event_namespace, "store");
    assert_eq!(r.event_type, "ThingCreated");
}

#[test]
fn legacy_field_is_split_on_dots() {
    let r = resolve_event_ident(None, Some("store.ThingCreated".to_string())).ok().unwrap();
    assert_eq!(r.event_namespace, "store");
    assert_eq!(r.event_type, "ThingCreated");
}

#[test]
fn legacy_field_keeps_only_the_first_two_pieces() {
    let r = resolve_event_ident(None, Some("a.b.c".to_string())).ok().unwrap();
    assert_eq!(r.event_namespace, "a");
    assert_eq!(r.event_type, "b");
}

#[test]
fn missing_identity_is_an_error() {
    assert_eq!(resolve_event_ident(None, None).err().unwrap(), "No event identifier found");
}

#[test]
fn identity_check_accepts_the_expected_identity() {
    assert!(check_event_ident(&ident("store", "ThingCreated"), "ThingCreated", "store").is_ok());
}

#[test]
fn identity_check_rejects_another_identity() {
    assert_eq!(
        check_event_ident(&ident("store", "ThingUpdated"), "ThingCreated", "store").err().unwrap(),
        "Incorrect event identifier"
    );
    assert_eq!(
        check_event_ident(&ident("other", "ThingCreated"), "ThingCreated", "store").err().unwrap(),
        "Incorrect event identifier"
    );
}

#[test]
fn struct_decoding_accepts_legacy_events() {
    assert!(decode_struct_event_ident(
        None,
        Some("_eventstore.EventReplayRequested".to_string()),
        "EventReplayRequested",
        "_eventstore"
    )
    .is_ok());
}

#[test]
fn struct_decoding_reports_missing_identity() {
    assert_eq!(
        decode_struct_event_ident(None, None, "TestEvent", "some_namespace").err().unwrap(),
        "No event identifier found"
    );
}

#[test]
fn enum_identity_checks() {
    assert!(check_enum_event_ident("store", "thing", "store", "thing").is_ok());
    assert_eq!(
        check_enum_event_ident("other", "thing", "store", "thing").err().unwrap(),
        "expected event_namespace store, got other"
    );
    assert_eq!(
        check_enum_event_ident("store", "user", "store", "thing").err().unwrap(),
        "expected entity_type thing, got user"
    );
}

#[test]
fn text_helpers() {
    assert!(str_eq("abc", "abc"));
    assert!(!str_eq("abc", "abd"));
    assert_eq!(trim_matches("\"store\"", '"'), "store");
    assert_eq!(trim_matches("\"\"\"", '"'), "");
    assert_eq!(trim_matches("a\"b", '"'), "a\"b");
    assert_eq!(split_first_two("x.y.z", '.'), ("x".to_string(), "y".to_string()));
    assert_eq!(split_first_two("x.", '.'), ("x".to_string(), "".to_string()));
    assert_eq!(decimal_string(0), "0");
    assert_eq!(decimal_string(1234567890123), "1234567890123");
    assert_eq!(upper_hex_string(&[0x0a, 0xff, 0x00, 0x10]), "0AFF0010");
}
