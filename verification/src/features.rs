//! Which formats are enabled, and which of them a configuration gets.

use crate::error::UnknownFormatError;
use crate::format::{format_of_extension, ConfigFormat};
use crate::text::text_of;
use vstd::prelude::*;

verus! {

/// The formats that are enabled. A format that is not enabled can still be
/// asked for; text in it is then neither written nor read.
#[derive(Debug, PartialEq, Eq, Copy, Clone, Structural)]
pub struct Features {
    pub json5: bool,
    pub toml: bool,
    pub yaml: bool,
}

impl Features {
    /// The enabled formats, in the order JSON5, TOML, YAML.
    pub open spec fn formats(self) -> Seq<ConfigFormat> {
        (if self.json5 {
            seq![ConfigFormat::JSON5]
        } else {
            seq![]
        }) + (if self.toml {
            seq![ConfigFormat::TOML]
        } else {
            seq![]
        }) + (if self.yaml {
            seq![ConfigFormat::YAML]
        } else {
            seq![]
        })
    }

    /// Whether `format` is enabled.
    pub open spec fn supports(self, format: ConfigFormat) -> bool {
        match format {
            ConfigFormat::JSON5 => self.json5,
            ConfigFormat::TOML => self.toml,
            ConfigFormat::YAML => self.yaml,
        }
    }

    /// Every format enabled.
    pub fn all() -> (r: Features)
        ensures
            r == (Features { json5: true, toml: true, yaml: true }),
    {
        Features { json5: true, toml: true, yaml: true }
    }

    /// Whether `format` is enabled.
    pub fn enables(&self, format: ConfigFormat) -> (r: bool)
        ensures
            r == self.supports(format),
    {
        match format {
            ConfigFormat::JSON5 => self.json5,
            ConfigFormat::TOML => self.toml,
            ConfigFormat::YAML => self.yaml,
        }
    }
}

/// The list of enabled formats holds each enabled format once, and no other.
pub proof fn lemma_formats_are_the_enabled(features: Features)
    ensures
        forall|format: ConfigFormat|
            features.formats().contains(format) <==> features.supports(format),
        features.formats().no_duplicates(),
{
    let list = features.formats();
    assert forall|format: ConfigFormat| list.contains(format) <==> features.supports(
        format,
    ) by {
        if features.supports(format) {
            let before_toml: int = if features.json5 {
                1
            } else {
                0
            };
            let before_yaml: int = if features.toml {
                before_toml + 1
            } else {
                before_toml
            };
            let at: int = match format {
                ConfigFormat::JSON5 => 0,
                ConfigFormat::TOML => before_toml,
                ConfigFormat::YAML => before_yaml,
            };
            assert(list[at] == format);
        }
    }
}

/// The enabled formats, in the order JSON5, TOML, YAML.
pub fn get_enabled_features(features: Features) -> (r: Vec<ConfigFormat>)
    ensures
        r@ == features.formats(),
{
    let mut vector = Vec::new();
    if features.json5 {
        vector.push(ConfigFormat::JSON5);
    }
    if features.toml {
        vector.push(ConfigFormat::TOML);
    }
    if features.yaml {
        vector.push(ConfigFormat::YAML);
    }
    assert(vector@ =~= features.formats());
    vector
}

/// The first of the enabled formats. At least one has to be enabled.
pub fn get_first_enabled_feature(features: Features) -> (r: ConfigFormat)
    requires
        features.formats().len() > 0,
    ensures
        r == features.formats()[0],
{
    if features.json5 {
        ConfigFormat::JSON5
    } else if features.toml {
        ConfigFormat::TOML
    } else {
        ConfigFormat::YAML
    }
}

/// The format that goes without saying: the enabled one, where exactly one
/// format is enabled.
pub open spec fn default_format(features: Features) -> Option<ConfigFormat> {
    if features.formats().len() == 1 {
        Some(features.formats()[0])
    } else {
        None
    }
}

/// The format of a configuration: the one asked for; else the one that the
/// path's extension names; else the one that goes without saying.
pub open spec fn resolved_format(
    explicit: Option<ConfigFormat>,
    extension: Option<Seq<char>>,
    features: Features,
) -> Option<ConfigFormat> {
    match explicit {
        Some(format) => Some(format),
        None => match hinted_format(extension) {
            Some(format) => Some(format),
            None => default_format(features),
        },
    }
}

/// The format that a path's extension names, if the path has an extension
/// and a format goes by it.
pub open spec fn hinted_format(extension: Option<Seq<char>>) -> Option<ConfigFormat> {
    match extension {
        Some(ext) => format_of_extension(ext),
        None => None,
    }
}

/// What the choice of a format comes to: the format, or an error that holds
/// the enabled formats and no message.
pub open spec fn settles(
    outcome: Result<ConfigFormat, UnknownFormatError>,
    choice: Option<ConfigFormat>,
    features: Features,
) -> bool {
    match choice {
        Some(format) => outcome == Ok::<ConfigFormat, UnknownFormatError>(format),
        None => outcome matches Err(error) && error.message is None && error.found_formats@
            == features.formats(),
    }
}

/// The format used where nothing else says which: the enabled format, if
/// exactly one is enabled. With none or several enabled there is no such
/// format, and the error holds the enabled ones.
pub fn resolve_default(features: Features) -> (r: Result<ConfigFormat, UnknownFormatError>)
    ensures
        settles(r, default_format(features), features),
{
    let enabled = get_enabled_features(features);
    if enabled.len() == 1 {
        Ok(get_first_enabled_feature(features))
    } else {
        Err(UnknownFormatError::new(None, enabled))
    }
}

/// The format of a configuration. An explicit format wins. Else the
/// extension of the path decides, if the path has one and a format goes by
/// it. Else the default is taken, and the choice fails where there is none.
pub fn resolve_format(
    explicit: Option<ConfigFormat>,
    extension: &Option<String>,
    features: Features,
) -> (r: Result<ConfigFormat, UnknownFormatError>)
    ensures
        settles(r, resolved_format(explicit, text_of(*extension), features), features),
{
    match explicit {
        Some(format) => Ok(format),
        None => {
            let hinted = match extension {
                Some(ext) => ConfigFormat::from_extension(ext.as_str()),
                None => None,
            };
            match hinted {
                Some(format) => Ok(format),
                None => resolve_default(features),
            }
        },
    }
}

/// An explicit format is the format of the configuration, whatever the
/// path's extension and the enabled formats are.
pub proof fn lemma_explicit_format_wins(
    format: ConfigFormat,
    extension: Option<Seq<char>>,
    features: Features,
)
    ensures
        resolved_format(Some(format), extension, features) == Some(format),
{
}

/// Without an explicit format, an extension that names a format decides,
/// whatever the enabled formats are.
pub proof fn lemma_extension_beats_default(ext: Seq<char>, features: Features)
    requires
        format_of_extension(ext) is Some,
    ensures
        resolved_format(None, Some(ext), features) == format_of_extension(ext),
{
}

/// Without an explicit format and without an extension that names one, no
/// format is chosen among several: the choice fails unless exactly one
/// format is enabled.
pub proof fn lemma_no_guess_among_several(extension: Option<Seq<char>>, features: Features)
    requires
        hinted_format(extension) is None,
    ensures
        resolved_format(None, extension, features) is Some <==> features.formats().len() == 1,
{
}

} // verus!
