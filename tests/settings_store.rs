use jdfund::settings::{default_settings, parse_field, Settings, SettingsField};
use jdfund::store::{settings_from_storage, SettingsStore, StoreError, StoredSettings};

fn sample() -> Settings {
    Settings {
        show_xau: false,
        show_ms: true,
        show_gh: false,
        show_zs: true,
        bg_color: "#1e3a5f".to_string(),
    }
}

#[test]
fn default_settings_are_documented_values() {
    let d = default_settings();
    assert!(d.show_xau && d.show_ms && d.show_gh && d.show_zs);
    assert_eq!(d.bg_color, "#2c3e50");
}

#[test]
fn missing_record_gives_default() {
    assert_eq!(settings_from_storage(StoredSettings::Missing), default_settings());
    assert_eq!(SettingsStore::load(StoredSettings::Missing).get(), default_settings());
}

#[test]
fn malformed_record_gives_default() {
    assert_eq!(settings_from_storage(StoredSettings::Malformed), default_settings());
}

#[test]
fn unavailable_store_gives_default() {
    assert_eq!(settings_from_storage(StoredSettings::Unavailable), default_settings());
}

#[test]
fn decoded_record_is_kept() {
    let store = SettingsStore::load(StoredSettings::Decoded(sample()));
    assert_eq!(store.get(), sample());
}

#[test]
fn new_store_holds_default() {
    assert_eq!(SettingsStore::new().get(), default_settings());
}

#[test]
fn toggle_twice_restores_flag() {
    let mut store = SettingsStore::new();
    let once = store.plan_toggle("xau").unwrap();
    assert!(!once.show_xau);
    store.replace(once, Ok(())).unwrap();
    let twice = store.plan_toggle("xau").unwrap();
    store.replace(twice, Ok(())).unwrap();
    assert_eq!(store.get(), default_settings());
}

#[test]
fn replace_then_get_round_trip() {
    let mut store = SettingsStore::new();
    assert!(store.replace(sample(), Ok(())).is_ok());
    assert_eq!(store.get(), sample());
}

#[test]
fn failed_write_leaves_settings_untouched() {
    let mut store = SettingsStore::new();
    let r = store.replace(sample(), Err("disk full".to_string()));
    match r {
        Err(StoreError::Persistence(m)) => assert_eq!(m, "disk full"),
        other => panic!("unexpected {:?}", other),
    }
    assert_eq!(store.get(), default_settings());
}

#[test]
fn toggles_of_two_sources_both_kept_in_either_order() {
    let mut a = SettingsStore::new();
    let x = a.plan_toggle("xau").unwrap();
    a.commit(x, Ok(())).unwrap();
    let m = a.plan_toggle("ms").unwrap();
    a.commit(m, Ok(())).unwrap();

    let mut b = SettingsStore::new();
    let m = b.plan_toggle("ms").unwrap();
    b.commit(m, Ok(())).unwrap();
    let x = b.plan_toggle("xau").unwrap();
    b.commit(x, Ok(())).unwrap();

    let end = a.get();
    assert!(!end.show_xau && !end.show_ms && end.show_gh && end.show_zs);
    assert_eq!(end, b.get());
}

#[test]
fn unknown_field_rejected_and_settings_unchanged() {
    let store = SettingsStore::new();
    assert!(matches!(store.plan_toggle("unknown"), Err(StoreError::UnknownField)));
    assert!(matches!(store.plan_toggle("XAU"), Err(StoreError::UnknownField)));
    assert!(matches!(store.plan_toggle(""), Err(StoreError::UnknownField)));
    assert_eq!(store.get(), default_settings());
}

#[test]
fn each_source_flips_only_its_flag() {
    let store = SettingsStore::new();
    let gh = store.plan_toggle("gh").unwrap();
    assert!(gh.show_xau && gh.show_ms && !gh.show_gh && gh.show_zs);
    let zs = store.plan_toggle("zs").unwrap();
    assert!(zs.show_xau && zs.show_ms && zs.show_gh && !zs.show_zs);
    assert_eq!(zs.bg_color, "#2c3e50");
}

#[test]
fn set_background_changes_only_color() {
    let mut store = SettingsStore::new();
    let c = store.plan_background("not even a color".to_string());
    let r = store.commit(c, Ok(())).unwrap();
    assert_eq!(r.bg_color, "not even a color");
    assert!(r.show_xau && r.show_ms && r.show_gh && r.show_zs);
    assert_eq!(store.get(), r);
}

#[test]
fn commit_failure_reports_persistence() {
    let mut store = SettingsStore::new();
    let c = store.plan_background("#000000".to_string());
    assert!(matches!(store.commit(c, Err("locked".to_string())), Err(StoreError::Persistence(_))));
    assert_eq!(store.get().bg_color, "#2c3e50");
}

#[test]
fn field_identifiers() {
    assert_eq!(parse_field("xau"), Some(SettingsField::Xau));
    assert_eq!(parse_field("ms"), Some(SettingsField::Ms));
    assert_eq!(parse_field("gh"), Some(SettingsField::Gh));
    assert_eq!(parse_field("zs"), Some(SettingsField::Zs));
    assert_eq!(parse_field("xa"), None);
    assert_eq!(parse_field("xauu"), None);
}

#[test]
fn toggled_and_shows() {
    let s = default_settings().toggled(SettingsField::Ms);
    assert!(!s.shows(SettingsField::Ms));
    assert!(s.shows(SettingsField::Xau));
    assert_eq!(s.toggled(SettingsField::Ms), default_settings());
}
