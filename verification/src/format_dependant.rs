//! What depends on the format when text is written and read: which encoder
//! is called, and what becomes of the text and of the errors.

use crate::extensions::{GenericResult, ResultGeneralize};
use crate::features::Features;
use crate::format::{ConfigFormat, Encoder, Format};
use crate::options::InternalOptions;
use crate::utils::{compress_string, compressed};
use vstd::prelude::*;
use vstd::std_specs::convert::FromSpec;
use vstd::string::*;

verus! {

/// What is reported of a format that is asked for and not enabled.
pub open spec fn missing_feature_text(format: ConfigFormat) -> Seq<char> {
    "Missing feature for format \""@ + format.name()
        + "\". Try enabling it in your Cargo.toml"@
}

/// The report of a format that is asked for and not enabled.
pub fn missing_feature(format: ConfigFormat) -> (r: String)
    ensures
        r@ == missing_feature_text(format),
{
    let mut message = String::from_str("Missing feature for format \"");
    message.append(format.as_str());
    message.append("\". Try enabling it in your Cargo.toml");
    message
}

/// The encoder that writes a configuration with these options, if the
/// format is enabled.
pub open spec fn encoder_for(options: InternalOptions, features: Features) -> Option<Encoder> {
    if features.supports(options.format) {
        Some(Format::from_spec(options.format).encoder_of(options.pretty))
    } else {
        None
    }
}

/// The encoder to call for a configuration with these options. Where the
/// format is not enabled there is none, and the error says which format is
/// missing.
pub fn select_encoder(options: &InternalOptions, features: Features) -> (r: GenericResult<Encoder>)
    ensures
        match encoder_for(*options, features) {
            Some(encoder) => r == Ok::<Encoder, String>(encoder),
            None => r matches Err(message) && message@ == missing_feature_text(options.format),
        },
{
    if features.enables(options.format) {
        Ok(Format::from(options.format).encoder(options.pretty))
    } else {
        Err(missing_feature(options.format))
    }
}

/// Whether the text of the encoder is compressed before it is written:
/// YAML has no compact form of its own.
pub open spec fn compresses(options: InternalOptions) -> bool {
    options.format == ConfigFormat::YAML && !options.pretty
}

/// The text that is written for what the encoder gave.
pub open spec fn written_text(encoded: Seq<char>, options: InternalOptions) -> Seq<char> {
    if compresses(options) {
        compressed(encoded)
    } else {
        encoded
    }
}

/// What the outcome of the encoder comes to. Its text is what is written,
/// but that YAML which is not to be pretty is compressed first. Its error
/// becomes a description: what the error displays where the text would have
/// been compressed, else its debug text.
pub fn to_string<E: core::fmt::Debug + core::fmt::Display>(
    encoded: Result<String, E>,
    options: &InternalOptions,
) -> (r: GenericResult<String>)
    ensures
        match encoded {
            Ok(text) => r matches Ok(written) && written@ == written_text(text@, *options),
            Err(error) => r matches Err(message) && (compresses(*options)
                ==> to_string_from_display_ensures::<E>(&error, message)),
        },
{
    match options.format {
        ConfigFormat::YAML if !options.pretty => match encoded {
            Ok(text) => Ok(compress_string(text)),
            Err(error) => Err(error.to_string()),
        },
        _ => encoded.generalize(),
    }
}

/// What the outcome of the decoder comes to: its value, or the debug text of
/// its error.
pub fn from_string<D, E: core::fmt::Debug>(decoded: Result<D, E>) -> (r: GenericResult<D>)
    ensures
        match decoded {
            Ok(value) => r == Ok::<D, String>(value),
            Err(_) => r is Err,
        },
{
    decoded.generalize()
}

} // verus!
