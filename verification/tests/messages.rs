use fast_config::format_dependant::missing_feature;
use fast_config::{
    from_string, select_encoder, to_string, ConfigFormat, ConfigSetupOptions, DataParseError,
    ConfigSaveError, Encoder, Features, GenericResult, InternalOptions, ResultGeneralize, Saver,
    UnknownFormatError,
};
use std::fmt;

/// An error whose two descriptions differ.
struct TwoFaced(u8);

impl fmt::Debug for TwoFaced {
    fn fmt(&self, f: &mut fmt::Formatter<'_>) -> fmt::Result {
        f.write_str(&format!("debug face {}", self.0))
    }
}

impl fmt::Display for TwoFaced {
    fn fmt(&self, f: &mut fmt::Formatter<'_>) -> fmt::Result {
        f.write_str(&format!("display face {}", self.0))
    }
}

fn internal(pretty: bool, format: ConfigFormat) -> InternalOptions {
    InternalOptions { pretty, format, save_on_drop: false }
}

const FORMATS: [ConfigFormat; 3] = [ConfigFormat::JSON5, ConfigFormat::TOML, ConfigFormat::YAML];

#[test]
fn default_options() {
    let options = ConfigSetupOptions::default();
    assert!(options.pretty);
    assert_eq!(options.format, None);
    assert!(!options.save_on_drop);
}

#[test]
fn internal_options_keep_the_callers() {
    for format in FORMATS {
        for pretty in [true, false] {
            for save_on_drop in [true, false] {
                let options = ConfigSetupOptions { pretty, format: Some(format), save_on_drop };
                let kept = InternalOptions::try_from(options).unwrap();
                assert_eq!(kept.pretty, pretty);
                assert_eq!(kept.format, format);
                assert_eq!(kept.save_on_drop, save_on_drop);
            }
        }
    }
}

#[test]
fn internal_options_need_a_format() {
    let options = ConfigSetupOptions { pretty: false, format: None, save_on_drop: true };
    match InternalOptions::try_from(options) {
        Err(message) => assert_eq!(
            message,
            "The file format could not be guessed! It appears to be None!"
        ),
        Ok(_) => panic!("options without a format were accepted"),
    }
}

#[test]
fn generalize_keeps_a_success() {
    let result: Result<Vec<u8>, TwoFaced> = Ok(vec![1, 2, 3]);
    assert_eq!(result.generalize(), Ok(vec![1, 2, 3]));
}

#[test]
fn generalize_describes_an_error() {
    let result: Result<u8, TwoFaced> = Err(TwoFaced(7));
    assert_eq!(result.generalize(), Err(String::from("debug face 7")));
    let result: Result<u8, Option<&str>> = Err(Some("x"));
    assert_eq!(result.generalize(), Err(String::from("Some(\"x\")")));
}

#[test]
fn from_string_is_the_value_or_the_debug_text() {
    let decoded: GenericResult<i32> = from_string(Ok::<i32, TwoFaced>(42));
    assert_eq!(decoded, Ok(42));
    let decoded: GenericResult<i32> = from_string(Err::<i32, TwoFaced>(TwoFaced(3)));
    assert_eq!(decoded, Err(String::from("debug face 3")));
}

#[test]
fn to_string_hands_the_text_on() {
    let text = "a = 1   \n\n\n  b = 2\t\n";
    for (pretty, format) in [
        (true, ConfigFormat::JSON5),
        (false, ConfigFormat::JSON5),
        (true, ConfigFormat::TOML),
        (false, ConfigFormat::TOML),
        (true, ConfigFormat::YAML),
    ] {
        let written = to_string(Ok::<String, TwoFaced>(String::from(text)), &internal(pretty, format));
        assert_eq!(written, Ok(String::from(text)));
    }
}

#[test]
fn to_string_compresses_yaml_that_is_not_pretty() {
    let written = to_string(
        Ok::<String, TwoFaced>(String::from("a: 1   \n\n\n  b: 2\t\n")),
        &internal(false, ConfigFormat::YAML),
    );
    assert_eq!(written, Ok(String::from("a: 1\n  b: 2\n")));
}

#[test]
fn to_string_describes_the_error() {
    for (pretty, format) in [
        (true, ConfigFormat::JSON5),
        (false, ConfigFormat::JSON5),
        (true, ConfigFormat::TOML),
        (false, ConfigFormat::TOML),
        (true, ConfigFormat::YAML),
    ] {
        let written = to_string(Err::<String, TwoFaced>(TwoFaced(1)), &internal(pretty, format));
        assert_eq!(written, Err(String::from("debug face 1")));
    }
    let written = to_string(
        Err::<String, TwoFaced>(TwoFaced(2)),
        &internal(false, ConfigFormat::YAML),
    );
    assert_eq!(written, Err(String::from("display face 2")));
}

#[test]
fn missing_feature_message() {
    assert_eq!(
        missing_feature(ConfigFormat::JSON5),
        "Missing feature for format \"json5\". Try enabling it in your Cargo.toml"
    );
    assert_eq!(
        missing_feature(ConfigFormat::YAML),
        "Missing feature for format \"yaml\". Try enabling it in your Cargo.toml"
    );
}

#[test]
fn encoder_needs_the_format_enabled() {
    let no_toml = Features { json5: true, toml: false, yaml: true };
    assert_eq!(
        select_encoder(&internal(true, ConfigFormat::TOML), no_toml),
        Err(String::from(
            "Missing feature for format \"toml\". Try enabling it in your Cargo.toml"
        ))
    );
    assert_eq!(
        select_encoder(&internal(true, ConfigFormat::YAML), no_toml),
        Ok(Encoder::Yaml)
    );
    assert_eq!(
        select_encoder(&internal(false, ConfigFormat::TOML), Features::all()),
        Ok(Encoder::Toml)
    );
}

#[test]
fn serialize_error_message() {
    let error = DataParseError::Serialize(ConfigFormat::TOML);
    assert_eq!(
        error.to_string(true),
        "Serialization: An error occurred trying to convert the config to a string.\n\n\t\t\t\t\t       [tip]: Your config's data types must all implement serde::Serialize and Deserialize!"
    );
    assert_eq!(
        error.to_string(false),
        "Serialization: An error occurred trying to convert the config to a string.\n\n\t\t\t\t\t       [tip]: This is likely to be an issue caused by the Serialize implementation of the program you are using."
    );
}

#[test]
fn deserialize_error_message() {
    for format in FORMATS {
        let error = DataParseError::Deserialize(format, String::from("a = = 1"));
        let head = format!(
            "Deserialization: An error occurred trying to convert a string into a config object.\n\n\t\t\t\t\t\t   [err] Config file isn't valid according to it's format ({})\n\n\t\t\t\t\t\t   [tip]: ",
            format.as_str()
        );
        assert_eq!(
            error.to_string(false),
            format!(
                "{head}If you edited a config file, make sure you were following the configuration format's syntax rules!"
            )
        );
        assert_eq!(
            error.to_string(true),
            format!(
                "{head}Make sure your data structs types/names match up with the config file you're trying to read.\n\n\t\t\t\t\t\t Alternatively, make sure all of your types implement serde::Deserialize and Serialize!\n\n\t\t\t\t\t\t -- You might want to:\n\n\t\t\t\t\t\t 1. Check that the format feature you're trying to use is enabled in your `cargo.toml` (JSON, TOML, YAML, etc)\n\n\t\t\t\t\t\t 2. Check that your data is valid (some types like vectors and custom types cannot be converted to Serde by default, you might want to implement Deserialize and Serialize for them manually)\n\n\t\t\t\t\t\t 3. Report this bug to the project's \"Issues\" page if nothing seems to be solving the issue (https://github.com/FlooferLand/fast_config/issues)"
            )
        );
    }
}

#[test]
fn unknown_format_error_message() {
    let error = UnknownFormatError::new(None, vec![ConfigFormat::JSON5, ConfigFormat::YAML]);
    assert_eq!(error.message, None);
    assert_eq!(
        error.found_formats,
        vec![ConfigFormat::JSON5, ConfigFormat::YAML]
    );
    assert_eq!(
        error.to_string(),
        "The format had to be guessed from 2 other features.\nYou should consider:\n- Adding a file extension at the end of your config file's path\n- Passing a `ConfigSetupOptions` struct into `Config::from_options`\n- Enabling only one format in the fast_config features"
    );
    let error = UnknownFormatError::new(Some(String::from("why")), vec![ConfigFormat::TOML; 12]);
    assert_eq!(error.message, Some(String::from("why")));
    assert!(error
        .to_string()
        .starts_with("The format had to be guessed from 12 other features.\nYou should"));
    let error = UnknownFormatError::new(None, vec![]);
    assert!(error
        .to_string()
        .starts_with("The format had to be guessed from 0 other features.\n"));
}

#[test]
fn failed_save_says_what_the_encoder_said() {
    for (pretty, format, expected) in [
        (true, ConfigFormat::JSON5, "debug face 9"),
        (false, ConfigFormat::TOML, "debug face 9"),
        (true, ConfigFormat::YAML, "debug face 9"),
        (false, ConfigFormat::YAML, "display face 9"),
    ] {
        let saver = Saver::start(&internal(pretty, format), Features::all());
        let saver = saver.encoded(Err::<String, TwoFaced>(TwoFaced(9)));
        assert_eq!(saver.action(), None);
        match saver.finish() {
            Some(Err(ConfigSaveError::SerializationError(message))) => {
                assert_eq!(message, expected)
            },
            _ => panic!("no error"),
        }
    }
}
