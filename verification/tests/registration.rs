use client_state::descriptor::ColorClass;
use client_state::state::{BackgroundState, ID, State};

#[test]
fn fresh_registration_is_not_sent_with_its_descriptor() {
    let b: State<BackgroundState> = State::default();
    assert!(matches!(b.inner, BackgroundState::NotSent));
    assert_eq!(b.str_anim.label, "Not yet sent");
    assert_eq!(b.str_anim.color_class, ColorClass::Alert);
    assert_eq!(b.str_anim.cadence_ms, 300);
}

#[test]
fn sent_descriptor() {
    let mut b: State<BackgroundState> = State::default();
    b.set_sent();
    assert!(matches!(b.inner, BackgroundState::Sent));
    assert_eq!(b.str_anim.label, "Sent, waiting for a response");
    assert_eq!(b.str_anim.color_class, ColorClass::Pending);
    assert_eq!(b.str_anim.cadence_ms, 100);
}

#[test]
fn connected_stores_exactly_the_given_id() {
    let mut b: State<BackgroundState> = State::default();
    b.set_connected(ID::new(String::from("abc123")));
    assert_eq!(b.str_anim.label, "Connected");
    assert_eq!(b.str_anim.color_class, ColorClass::Success);
    assert_eq!(b.str_anim.cadence_ms, 100);
    let stored = b.get_id().expect("connected state must yield its identifier");
    assert_eq!(stored.text, "abc123");
}

#[test]
fn identifier_absent_in_every_variant_but_connected() {
    let mut b: State<BackgroundState> = State::default();
    assert!(b.get_id().is_none());
    b.set_sent();
    assert!(b.get_id().is_none());
    b.set_connected(ID::new(String::from("x")));
    assert!(b.get_id().is_some());
    b.set_not_sent();
    assert!(b.get_id().is_none());
}

#[test]
fn reset_to_not_sent_restores_its_descriptor() {
    let mut b: State<BackgroundState> = State::default();
    b.set_sent();
    b.set_connected(ID::new(String::from("token")));
    b.set_not_sent();
    assert!(matches!(b.inner, BackgroundState::NotSent));
    assert_eq!(b.str_anim.label, "Not yet sent");
    assert_eq!(b.str_anim.color_class, ColorClass::Alert);
    assert_eq!(b.str_anim.cadence_ms, 300);
}

#[test]
fn reconnecting_replaces_the_stored_id() {
    let mut b: State<BackgroundState> = State::default();
    b.set_connected(ID::new(String::from("first")));
    b.set_connected(ID::new(String::from("second")));
    let stored = b.get_id().expect("connected state must yield its identifier");
    assert_eq!(stored.text, "second");
    assert_ne!(stored.text, "first");
}

#[test]
fn registration_descriptor_matches_table_after_every_transition() {
    let mut b: State<BackgroundState> = State::default();
    b.set_sent();
    assert_eq!(
        (b.str_anim.label.as_str(), b.str_anim.color_class, b.str_anim.cadence_ms),
        ("Sent, waiting for a response", ColorClass::Pending, 100),
    );
    b.set_connected(ID::new(String::from("id")));
    assert_eq!(
        (b.str_anim.label.as_str(), b.str_anim.color_class, b.str_anim.cadence_ms),
        ("Connected", ColorClass::Success, 100),
    );
    b.set_not_sent();
    assert_eq!(
        (b.str_anim.label.as_str(), b.str_anim.color_class, b.str_anim.cadence_ms),
        ("Not yet sent", ColorClass::Alert, 300),
    );
}
