use fast_config::{ConfigFormat, Encoder, Format};

#[test]
fn extension_json5_is_recognized() {
    assert_eq!(ConfigFormat::from_extension("JSON5"), Some(ConfigFormat::JSON5));
    assert_eq!(ConfigFormat::from_extension(".json5"), Some(ConfigFormat::JSON5));
    assert_eq!(
        ConfigFormat::from_extension("JSON5"),
        ConfigFormat::from_extension(".json5")
    );
}

#[test]
fn extension_unknown_is_no_match() {
    assert_eq!(ConfigFormat::from_extension("xyz"), None);
    assert_eq!(ConfigFormat::from_extension("ini"), None);
    assert_eq!(ConfigFormat::from_extension("json6"), None);
    assert_eq!(ConfigFormat::from_extension("tom"), None);
    assert_eq!(ConfigFormat::from_extension("yamll"), None);
}

#[test]
fn extension_aliases_name_one_format() {
    assert_eq!(ConfigFormat::from_extension("json"), Some(ConfigFormat::JSON5));
    assert_eq!(ConfigFormat::from_extension("json5"), Some(ConfigFormat::JSON5));
    assert_eq!(ConfigFormat::from_extension("toml"), Some(ConfigFormat::TOML));
    assert_eq!(ConfigFormat::from_extension("yaml"), Some(ConfigFormat::YAML));
    assert_eq!(ConfigFormat::from_extension("yml"), Some(ConfigFormat::YAML));
}

#[test]
fn extension_case_is_ignored() {
    assert_eq!(ConfigFormat::from_extension("Json"), Some(ConfigFormat::JSON5));
    assert_eq!(ConfigFormat::from_extension("tOmL"), Some(ConfigFormat::TOML));
    assert_eq!(ConfigFormat::from_extension("YAML"), Some(ConfigFormat::YAML));
    assert_eq!(ConfigFormat::from_extension("YmL"), Some(ConfigFormat::YAML));
    assert_eq!(ConfigFormat::from_extension(".TOML"), Some(ConfigFormat::TOML));
}

#[test]
fn extension_only_ascii_case_is_folded() {
    // U+212A KELVIN SIGN lowercases to 'k' in Unicode, not in ASCII.
    assert_eq!(ConfigFormat::from_extension("\u{FF4A}son"), None);
    assert_eq!(ConfigFormat::from_extension("ＹＡＭＬ"), None);
    assert_eq!(ConfigFormat::from_extension("toml\u{0301}"), None);
}

#[test]
fn extension_one_leading_dot_is_stripped() {
    assert_eq!(ConfigFormat::from_extension(".yml"), Some(ConfigFormat::YAML));
    assert_eq!(ConfigFormat::from_extension("..yml"), None);
    assert_eq!(ConfigFormat::from_extension("yml."), None);
    assert_eq!(ConfigFormat::from_extension("y.ml"), None);
}

#[test]
fn extension_degenerate_is_no_match() {
    assert_eq!(ConfigFormat::from_extension(""), None);
    assert_eq!(ConfigFormat::from_extension("."), None);
    assert_eq!(ConfigFormat::from_extension("j"), None);
    assert_eq!(ConfigFormat::from_extension("y"), None);
    assert_eq!(ConfigFormat::from_extension(" toml"), None);
    assert_eq!(ConfigFormat::from_extension("toml "), None);
}

#[test]
fn extension_replacement_characters_are_dropped() {
    assert_eq!(
        ConfigFormat::from_extension("js\u{FFFD}on"),
        Some(ConfigFormat::JSON5)
    );
    assert_eq!(
        ConfigFormat::from_extension("\u{FFFD}TOML\u{FFFD}\u{FFFD}"),
        Some(ConfigFormat::TOML)
    );
    assert_eq!(ConfigFormat::from_extension("\u{FFFD}"), None);
    // The dot is looked for in front of the extension as it was given.
    assert_eq!(ConfigFormat::from_extension("\u{FFFD}.toml"), None);
    assert_eq!(
        ConfigFormat::from_extension(".\u{FFFD}toml"),
        Some(ConfigFormat::TOML)
    );
}

#[test]
fn canonical_names() {
    assert_eq!(ConfigFormat::JSON5.to_string(), "json5");
    assert_eq!(ConfigFormat::TOML.to_string(), "toml");
    assert_eq!(ConfigFormat::YAML.to_string(), "yaml");
    assert_eq!(ConfigFormat::JSON5.as_str(), "json5");
    assert_eq!(ConfigFormat::TOML.as_str(), "toml");
    assert_eq!(ConfigFormat::YAML.as_str(), "yaml");
}

#[test]
fn canonical_name_names_its_format() {
    for format in [ConfigFormat::JSON5, ConfigFormat::TOML, ConfigFormat::YAML] {
        assert_eq!(
            ConfigFormat::from_extension(&format.to_string()),
            Some(format)
        );
        assert_eq!(
            ConfigFormat::from_extension(&format.to_string().to_uppercase()),
            Some(format)
        );
        assert_eq!(
            ConfigFormat::from_extension(&format!(".{}", format.as_str())),
            Some(format)
        );
    }
}

#[test]
fn notation_of_each_format() {
    assert_eq!(Format::from(ConfigFormat::JSON5), Format::JSON5);
    assert_eq!(Format::from(ConfigFormat::TOML), Format::TOML);
    assert_eq!(Format::from(ConfigFormat::YAML), Format::YAML);
}

#[test]
fn encoder_of_each_notation() {
    assert_eq!(Format::JSON.encoder(false), Encoder::Json);
    assert_eq!(Format::JSON.encoder(true), Encoder::JsonPretty);
    assert_eq!(Format::JSON5.encoder(false), Encoder::Json5);
    assert_eq!(Format::JSON5.encoder(true), Encoder::Json5);
    assert_eq!(Format::TOML.encoder(false), Encoder::Toml);
    assert_eq!(Format::TOML.encoder(true), Encoder::TomlPretty);
    assert_eq!(Format::YAML.encoder(false), Encoder::Yaml);
    assert_eq!(Format::YAML.encoder(true), Encoder::Yaml);
}
