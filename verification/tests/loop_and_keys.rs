use pp7_keylight::color::{PP7Color, Rgb8, COLOR_SCALE};
use pp7_keylight::config::Config;
use pp7_keylight::keys::{derive_label, physical_keys_from_names, PhysicalKey};
use pp7_keylight::pp7::{
    GlobalGroupList, PP7KeyBind, PP7Id, Presentation, PresentationGroup, PresentationRequest,
};
use pp7_keylight::sync::{first_keyboard_index, poll_tick, DeviceKind, RetryPolicy, SyncState, TickAction};

fn test_config() -> Config {
    Config {
        host: "localhost".to_string(),
        port: 50001,
        led_colors: true,
        led_on: 255,
        led_dim: 5,
        update_frequency: 100,
    }
}

fn presentation(uuid: &str) -> Presentation {
    Presentation {
        id: PP7Id { uuid: uuid.to_string(), name: "p".to_string(), index: 0 },
        groups: vec![PresentationGroup {
            name: "Verse".to_string(),
            color: PP7Color { red: COLOR_SCALE, green: 0, blue: 0, alpha: COLOR_SCALE },
            slides: Vec::new(),
        }],
        has_timeline: false,
        presentation_path: String::new(),
        destination: String::new(),
    }
}

fn binds() -> Vec<PP7KeyBind> {
    vec![PP7KeyBind { bind: "Verse".to_string(), key: "A".to_string(), num: 0 }]
}

fn keys() -> Vec<PhysicalKey> {
    vec![PhysicalKey { index: 0, label: "A".to_string() }]
}

#[test]
fn first_snapshot_triggers_a_push() {
    let mut state = SyncState::new();
    let p = presentation("u1");
    let a = poll_tick(&mut state, Some(&p), &binds(), &keys(), &test_config());
    match a {
        TickAction::Push(frame) => {
            assert_eq!(frame, vec![Rgb8 { r: 255, g: 0, b: 0 }]);
        }
        _ => panic!("a changed snapshot must push"),
    }
    assert_eq!(state.last_uuid, "u1");
}

#[test]
fn equal_id_never_pushes_again() {
    let mut state = SyncState::new();
    let p = presentation("u1");
    let cfg = test_config();
    let first = poll_tick(&mut state, Some(&p), &binds(), &keys(), &cfg);
    assert!(matches!(first, TickAction::Push(_)));
    let second = poll_tick(&mut state, Some(&p), &binds(), &keys(), &cfg);
    assert!(matches!(second, TickAction::NoChange));
    assert_eq!(state.last_uuid, "u1");
}

#[test]
fn differing_id_always_pushes() {
    let mut state = SyncState::new();
    let cfg = test_config();
    let p1 = presentation("u1");
    let p2 = presentation("u2");
    let _ = poll_tick(&mut state, Some(&p1), &binds(), &keys(), &cfg);
    let a = poll_tick(&mut state, Some(&p2), &binds(), &keys(), &cfg);
    assert!(matches!(a, TickAction::Push(_)));
    assert_eq!(state.last_uuid, "u2");
}

#[test]
fn failed_fetch_skips_the_tick() {
    // A failed fetch pushes nothing and leaves the observed id as it was;
    // the next successful tick proceeds normally.
    let mut state = SyncState::new();
    let cfg = test_config();
    let p1 = presentation("u1");
    let _ = poll_tick(&mut state, Some(&p1), &binds(), &keys(), &cfg);
    let a = poll_tick(&mut state, None, &binds(), &keys(), &cfg);
    assert!(matches!(a, TickAction::Skipped));
    assert_eq!(state.last_uuid, "u1");
    let p2 = presentation("u2");
    let next = poll_tick(&mut state, Some(&p2), &binds(), &keys(), &cfg);
    assert!(matches!(next, TickAction::Push(_)));
}

#[test]
fn label_prefix_is_stripped_once() {
    assert_eq!(derive_label("Key: A"), "A");
    assert_eq!(derive_label("A"), "A");
    assert_eq!(derive_label("Key:"), "Key:");
    assert_eq!(derive_label(""), "");
    // Only the leading prefix goes; an inner occurrence stays.
    assert_eq!(derive_label("Key: Key: A"), "Key: A");
    assert_eq!(derive_label("Space"), "Space");
}

#[test]
fn physical_keys_follow_led_order() {
    let names = vec!["Key: A".to_string(), "Key: B".to_string(), "Logo".to_string()];
    let ks = physical_keys_from_names(&names);
    assert_eq!(ks.len(), 3);
    assert_eq!(ks[0].index, 0);
    assert_eq!(ks[0].label, "A");
    assert_eq!(ks[1].index, 1);
    assert_eq!(ks[1].label, "B");
    assert_eq!(ks[2].index, 2);
    assert_eq!(ks[2].label, "Logo");
}

#[test]
fn first_keyboard_is_selected() {
    let kinds = vec![DeviceKind::Other, DeviceKind::Keyboard, DeviceKind::Keyboard];
    assert_eq!(first_keyboard_index(&kinds), Some(1));
}

#[test]
fn no_keyboard_means_nothing_to_drive() {
    let kinds = vec![DeviceKind::Other, DeviceKind::Other];
    assert_eq!(first_keyboard_index(&kinds), None);
    assert_eq!(first_keyboard_index(&Vec::new()), None);
}

#[test]
fn config_defaults_match_the_recognized_options() {
    let c = Config::from_options(None, None, None, None, None, None);
    assert_eq!(c.host, "localhost");
    assert_eq!(c.port, 50001);
    assert!(!c.led_colors);
    assert_eq!(c.led_on, 255);
    assert_eq!(c.led_dim, 5);
    assert_eq!(c.update_frequency, 100);
    assert_eq!(c.tick_delay_ms(), 10);
}

#[test]
fn config_options_override_defaults() {
    let c = Config::from_options(
        Some("pp7-host".to_string()),
        Some(8080),
        Some(true),
        Some(200),
        Some(10),
        Some(25),
    );
    assert_eq!(c.host, "pp7-host");
    assert_eq!(c.port, 8080);
    assert!(c.led_colors);
    assert_eq!(c.led_on, 200);
    assert_eq!(c.led_dim, 10);
    assert_eq!(c.update_frequency, 25);
    assert_eq!(c.tick_delay_ms(), 40);
}

#[test]
fn group_constructor_defaults_absent_color() {
    let g = PresentationGroup::new("Verse".to_string(), None, Vec::new());
    assert_eq!(g.color.red, COLOR_SCALE / 2);
    assert_eq!(g.color.alpha, COLOR_SCALE);
    let red = PP7Color { red: COLOR_SCALE, green: 0, blue: 0, alpha: COLOR_SCALE };
    let h = PresentationGroup::new("Verse".to_string(), Some(red), Vec::new());
    assert_eq!(h.color, red);
}

#[test]
fn endpoint_paths() {
    assert_eq!(PresentationRequest::get_path(), "/v1/presentation/active");
    assert_eq!(GlobalGroupList::get_path(), "/v1/groups");
    let empty = GlobalGroupList(Vec::new());
    assert!(empty.0.is_empty());
}

#[test]
fn retry_policy_bounds_attempts() {
    let unbounded = RetryPolicy::fixed_unbounded(1000);
    assert_eq!(unbounded.interval_ms, 1000);
    assert!(unbounded.should_retry(0));
    assert!(unbounded.should_retry(1_000_000));

    let bounded = RetryPolicy { interval_ms: 1000, max_attempts: Some(3) };
    assert!(bounded.should_retry(0));
    assert!(bounded.should_retry(2));
    assert!(!bounded.should_retry(3));
}
