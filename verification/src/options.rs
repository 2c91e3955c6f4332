//! The options of a configuration, as the caller gives them and as the
//! configuration keeps them.

use crate::format::ConfigFormat;
use vstd::prelude::*;
use vstd::string::*;

verus! {

/// What a caller can choose when a configuration is constructed.
#[derive(Clone, Copy)]
pub struct ConfigSetupOptions {
    /// Whether the file is written for a reader, spread over lines. If not,
    /// it is written as short as the format's encoder makes it.
    pub pretty: bool,
    /// The format of the file. `None` leaves the choice to the path's
    /// extension and to the enabled formats.
    pub format: Option<ConfigFormat>,
    /// Whether the configuration is saved when it goes out of scope. An
    /// error of that save is not reported.
    pub save_on_drop: bool,
}

impl ConfigSetupOptions {
    /// The options of a caller who chooses nothing: a file written for a
    /// reader, in a format that is yet to be settled, and saved only when
    /// asked.
    pub open spec fn initial() -> Self {
        ConfigSetupOptions { pretty: true, format: None, save_on_drop: false }
    }
}

impl Default for ConfigSetupOptions {
    fn default() -> (r: Self)
        ensures
            r == Self::initial(),
    {
        Self { pretty: true, format: None, save_on_drop: false }
    }
}

/// The options that a configuration keeps: those of the caller, with the
/// format settled.
#[derive(Clone, Copy)]
pub struct InternalOptions {
    pub pretty: bool,
    pub format: ConfigFormat,
    pub save_on_drop: bool,
}

/// What `InternalOptions::try_from` reports of options that name no format.
pub open spec fn no_format_text() -> Seq<char> {
    "The file format could not be guessed! It appears to be None!"@
}

impl InternalOptions {
    /// The options with the format `format`.
    pub open spec fn with_format(options: ConfigSetupOptions, format: ConfigFormat) -> Self {
        InternalOptions { pretty: options.pretty, format, save_on_drop: options.save_on_drop }
    }

    /// The caller's options as a configuration keeps them. They have to name
    /// a format: without one the result is a message that says so.
    pub fn try_from(options: ConfigSetupOptions) -> (r: Result<Self, String>)
        ensures
            match options.format {
                Some(format) => r == Ok::<Self, String>(Self::with_format(options, format)),
                None => r matches Err(message) && message@ == no_format_text(),
            },
    {
        match options.format {
            Some(format) => Ok(
                Self { pretty: options.pretty, format, save_on_drop: options.save_on_drop },
            ),
            None => Err(
                String::from_str("The file format could not be guessed! It appears to be None!"),
            ),
        }
    }
}

} // verus!
