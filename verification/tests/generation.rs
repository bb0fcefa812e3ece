use beatrice_lib::errors::BeatriceError;
use beatrice_lib::generation::Generation;
use beatrice_lib::text::ends_with;
use beatrice_lib::text::position_of;
use beatrice_lib::text::starts_with;
use beatrice_lib::text::str_equal;

#[test]
fn exact_versions_select_later_generations() {
    assert_eq!(Generation::from_version("2.0.0-rc.0").unwrap(), Generation::Rc0);
    assert_eq!(Generation::from_version("2.0.0-beta.1").unwrap(), Generation::Beta1);
}

#[test]
fn alpha_is_selected_by_prefix() {
    assert_eq!(Generation::from_version("2.0.0-alpha").unwrap(), Generation::Alpha);
    assert_eq!(Generation::from_version("2.0.0-alpha.2").unwrap(), Generation::Alpha);
    assert_eq!(Generation::from_version("2.0.0-alphabet").unwrap(), Generation::Alpha);
}

#[test]
fn unknown_version_is_a_file_open_error() {
    for v in ["", "2.0.0", "2.0.0-rc.1", "2.0.0-beta.10", "2.0.0-beta", "x2.0.0-alpha", "2.0.0-rc.0 "] {
        assert!(matches!(Generation::from_version(v), Err(BeatriceError::FileOpenError)));
    }
}

#[test]
fn versions_round_trip() {
    for g in [Generation::Alpha, Generation::Beta1, Generation::Rc0] {
        assert_eq!(Generation::from_version(g.version()).unwrap(), g);
    }
    assert_eq!(Generation::Rc0.version(), "2.0.0-rc.0");
    assert_eq!(Generation::Beta1.version(), "2.0.0-beta.1");
    assert_eq!(Generation::Alpha.version(), "2.0.0-alpha");
}

#[test]
fn generation_constants() {
    assert_eq!(Generation::Alpha.pitch_bins(), 384);
    assert_eq!(Generation::Beta1.pitch_bins(), 384);
    assert_eq!(Generation::Rc0.pitch_bins(), 448);
    assert_eq!(Generation::Alpha.phone_channels(), 256);
    assert_eq!(Generation::Beta1.phone_channels(), 256);
    assert_eq!(Generation::Rc0.phone_channels(), 128);
    assert!(Generation::Rc0.is_newest());
    assert!(!Generation::Beta1.is_newest());
    assert!(!Generation::Alpha.is_newest());
}

#[test]
fn string_comparisons() {
    assert!(str_equal("", ""));
    assert!(str_equal("mic", "mic"));
    assert!(!str_equal("mic", "mi"));
    assert!(!str_equal("mic", "miC"));
    assert!(str_equal("マイク", "マイク"));
    assert!(starts_with("hello", ""));
    assert!(starts_with("hello", "he"));
    assert!(!starts_with("he", "hello"));
    assert!(!starts_with("hello", "el"));
    assert!(ends_with("a.toml", ".toml"));
    assert!(!ends_with("a.tom", ".toml"));
    assert!(ends_with("声.toml", ".toml"));
    assert!(ends_with("x", ""));
}

#[test]
fn position_of_finds_first_match() {
    let names = vec!["a".to_string(), "b".to_string(), "a".to_string()];
    assert_eq!(position_of(&names, "a"), Some(0));
    assert_eq!(position_of(&names, "b"), Some(1));
    assert_eq!(position_of(&names, "c"), None);
    assert_eq!(position_of(&Vec::new(), "a"), None);
}
