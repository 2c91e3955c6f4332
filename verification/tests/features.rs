use fast_config::ConfigFormat::{JSON5, TOML, YAML};
use fast_config::{
    get_enabled_features, get_first_enabled_feature, resolve_default, resolve_format, ConfigFormat,
    Features,
};

fn features(json5: bool, toml: bool, yaml: bool) -> Features {
    Features { json5, toml, yaml }
}

#[test]
fn enabled_features_in_order() {
    assert_eq!(get_enabled_features(features(false, false, false)), vec![]);
    assert_eq!(get_enabled_features(features(true, false, false)), vec![JSON5]);
    assert_eq!(get_enabled_features(features(false, true, false)), vec![TOML]);
    assert_eq!(get_enabled_features(features(false, false, true)), vec![YAML]);
    assert_eq!(get_enabled_features(features(true, true, false)), vec![JSON5, TOML]);
    assert_eq!(get_enabled_features(features(true, false, true)), vec![JSON5, YAML]);
    assert_eq!(get_enabled_features(features(false, true, true)), vec![TOML, YAML]);
    assert_eq!(
        get_enabled_features(features(true, true, true)),
        vec![JSON5, TOML, YAML]
    );
    assert_eq!(get_enabled_features(Features::all()), vec![JSON5, TOML, YAML]);
}

#[test]
fn enables_says_what_is_enabled() {
    let some = features(true, false, true);
    assert!(some.enables(ConfigFormat::JSON5));
    assert!(!some.enables(ConfigFormat::TOML));
    assert!(some.enables(ConfigFormat::YAML));
    for format in [ConfigFormat::JSON5, ConfigFormat::TOML, ConfigFormat::YAML] {
        assert_eq!(
            some.enables(format),
            get_enabled_features(some).contains(&format)
        );
        assert!(Features::all().enables(format));
    }
}

#[test]
fn first_enabled_feature() {
    assert_eq!(
        get_first_enabled_feature(features(true, true, true)),
        ConfigFormat::JSON5
    );
    assert_eq!(
        get_first_enabled_feature(features(false, true, true)),
        ConfigFormat::TOML
    );
    assert_eq!(
        get_first_enabled_feature(features(false, false, true)),
        ConfigFormat::YAML
    );
    assert_eq!(
        get_first_enabled_feature(features(true, false, true)),
        ConfigFormat::JSON5
    );
}

#[test]
fn default_is_the_sole_enabled_format() {
    assert_eq!(
        resolve_default(features(true, false, false)).unwrap(),
        ConfigFormat::JSON5
    );
    assert_eq!(
        resolve_default(features(false, true, false)).unwrap(),
        ConfigFormat::TOML
    );
    assert_eq!(
        resolve_default(features(false, false, true)).unwrap(),
        ConfigFormat::YAML
    );
}

#[test]
fn default_among_several_is_an_error() {
    let error = resolve_default(features(true, false, true)).unwrap_err();
    assert_eq!(error.message, None);
    assert_eq!(
        error.found_formats,
        vec![ConfigFormat::JSON5, ConfigFormat::YAML]
    );
    let error = resolve_default(Features::all()).unwrap_err();
    assert_eq!(
        error.found_formats,
        vec![ConfigFormat::JSON5, ConfigFormat::TOML, ConfigFormat::YAML]
    );
}

#[test]
fn default_among_none_is_an_error() {
    let error = resolve_default(features(false, false, false)).unwrap_err();
    assert_eq!(error.message, None);
    assert_eq!(error.found_formats, vec![]);
}

#[test]
fn explicit_format_beats_extension() {
    let resolved = resolve_format(
        Some(ConfigFormat::TOML),
        &Some(String::from("yaml")),
        Features::all(),
    );
    assert_eq!(resolved.unwrap(), ConfigFormat::TOML);
}

#[test]
fn explicit_format_beats_everything() {
    for enabled in [
        features(false, false, false),
        features(true, false, false),
        features(false, false, true),
        Features::all(),
    ] {
        for extension in [None, Some(String::from("json")), Some(String::from("zip"))] {
            assert_eq!(
                resolve_format(Some(ConfigFormat::TOML), &extension, enabled).unwrap(),
                ConfigFormat::TOML
            );
        }
    }
}

#[test]
fn extension_beats_default() {
    let only_toml = features(false, true, false);
    assert_eq!(
        resolve_format(None, &Some(String::from("yml")), only_toml).unwrap(),
        ConfigFormat::YAML
    );
    assert_eq!(
        resolve_format(None, &Some(String::from("JSON")), Features::all()).unwrap(),
        ConfigFormat::JSON5
    );
}

#[test]
fn unknown_extension_falls_back_to_default() {
    let only_toml = features(false, true, false);
    assert_eq!(
        resolve_format(None, &Some(String::from("conf")), only_toml).unwrap(),
        ConfigFormat::TOML
    );
    assert_eq!(
        resolve_format(None, &None, only_toml).unwrap(),
        ConfigFormat::TOML
    );
}

#[test]
fn ambiguity_is_not_guessed() {
    let two = features(true, true, false);
    for extension in [None, Some(String::from("xyz")), Some(String::new())] {
        let error = resolve_format(None, &extension, two).unwrap_err();
        assert_eq!(error.message, None);
        assert_eq!(
            error.found_formats,
            vec![ConfigFormat::JSON5, ConfigFormat::TOML]
        );
    }
}
