use tile_realm::options::{options_from_json, options_json, set_option, toggle_option, Options};

#[test]
fn defaults_enable_only_vsync() {
    let o = Options::default();
    assert!(!o.four_k_mode && !o.borderless && o.vsync && !o.fullscreen);
}

#[test]
fn set_option_writes_the_named_field() {
    let mut o = Options::default();
    set_option(&mut o, "4K Mode", true);
    set_option(&mut o, "Borderless", true);
    set_option(&mut o, "V-sync", false);
    set_option(&mut o, "Fullscreen", true);
    assert_eq!(o, Options { four_k_mode: true, borderless: true, vsync: false, fullscreen: true });
}

#[test]
fn set_option_ignores_unknown_keys() {
    let mut o = Options::default();
    set_option(&mut o, "Gamma", true);
    assert_eq!(o, Options::default());
}

#[test]
fn toggle_option_flips_the_named_field() {
    let mut o = Options::default();
    toggle_option(&mut o, "V-sync");
    assert!(!o.vsync);
    toggle_option(&mut o, "V-sync");
    assert!(o.vsync);
    toggle_option(&mut o, "Fullscreen");
    assert!(o.fullscreen);
    toggle_option(&mut o, "nothing of the kind");
    assert_eq!(o, Options { four_k_mode: false, borderless: false, vsync: true, fullscreen: true });
}

#[test]
fn options_are_read_from_json() {
    let o = options_from_json("{\"four_k_mode\": true, \"vsync\": true}");
    assert_eq!(o, Options { four_k_mode: true, borderless: false, vsync: true, fullscreen: false });
}

#[test]
fn missing_or_malformed_keys_read_as_false() {
    // vsync carries a string, fullscreen is absent: both come back false.
    let o = options_from_json("{\"vsync\": \"yes\", \"borderless\": true}");
    assert_eq!(o, Options { four_k_mode: false, borderless: true, vsync: false, fullscreen: false });
}

#[test]
fn unparseable_text_reads_as_no_prior_settings() {
    assert_eq!(options_from_json("this is not json"), Options::default());
    assert_eq!(options_from_json(""), Options::default());
}

#[test]
fn non_object_json_reads_all_false() {
    let o = options_from_json("[1, 2, 3]");
    assert_eq!(
        o,
        Options { four_k_mode: false, borderless: false, vsync: false, fullscreen: false }
    );
}

#[test]
fn persisted_form_round_trips() {
    let o = Options { four_k_mode: true, borderless: false, vsync: false, fullscreen: true };
    assert_eq!(options_from_json(&options_json(&o)), o);
    let d = Options::default();
    assert_eq!(options_from_json(&options_json(&d)), d);
}

#[test]
fn persisted_form_is_exact() {
    let expected = "\n        {\n            \"four_k_mode\": false,\n            \"borderless\": false,\n            \"vsync\": true,\n            \"fullscreen\": false\n        }";
    assert_eq!(options_json(&Options::default()), expected);
}
