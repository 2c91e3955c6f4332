//! What the errors say to a reader. Each message names what failed and
//! gives a tip: one for the developer of a program, one for its user.

use crate::error::{DataParseError, UnknownFormatError};
use crate::text::{decimal, push_decimal};
use vstd::prelude::*;
use vstd::string::*;

verus! {

/// The tip on a value that could not be written.
pub open spec fn serialize_tip(developer: bool) -> Seq<char> {
    if developer {
        "Your config's data types must all implement serde::Serialize and Deserialize!"@
    } else {
        "This is likely to be an issue caused by the Serialize implementation of the program you are using."@
    }
}

/// The tip on a text that could not be read.
pub open spec fn deserialize_tip(developer: bool) -> Seq<char> {
    if developer {
        "Make sure your data structs types/names match up with the config file you're trying to read.\n\n\t\t\t\t\t\t Alternatively, make sure all of your types implement serde::Deserialize and Serialize!\n\n\t\t\t\t\t\t -- You might want to:\n\n\t\t\t\t\t\t 1. Check that the format feature you're trying to use is enabled in your `cargo.toml` (JSON, TOML, YAML, etc)\n\n\t\t\t\t\t\t 2. Check that your data is valid (some types like vectors and custom types cannot be converted to Serde by default, you might want to implement Deserialize and Serialize for them manually)\n\n\t\t\t\t\t\t 3. Report this bug to the project's \"Issues\" page if nothing seems to be solving the issue (https://github.com/FlooferLand/fast_config/issues)"@
    } else {
        "If you edited a config file, make sure you were following the configuration format's syntax rules!"@
    }
}

impl DataParseError {
    /// The message of the error, with the tip for a developer or the one
    /// for a user.
    pub open spec fn text(self, developer: bool) -> Seq<char> {
        match self {
            DataParseError::Serialize(_) => {
                "Serialization: An error occurred trying to convert the config to a string.\n\n\t\t\t\t\t       [tip]: "@
                    + serialize_tip(developer)
            },
            DataParseError::Deserialize(format, _) => {
                "Deserialization: An error occurred trying to convert a string into a config object.\n\n\t\t\t\t\t\t   [err] Config file isn't valid according to it's format ("@
                    + format.name() + ")\n\n\t\t\t\t\t\t   [tip]: "@ + deserialize_tip(developer)
            },
        }
    }

    /// The message of the error. `developer` chooses the tip: the one for
    /// the developer of the program, or the one for its user.
    pub fn to_string(&self, developer: bool) -> (r: String)
        ensures
            r@ == self.text(developer),
    {
        match self {
            DataParseError::Serialize(_) => {
                let mut message = String::from_str(
                    "Serialization: An error occurred trying to convert the config to a string.\n\n\t\t\t\t\t       [tip]: ",
                );
                if developer {
                    message.append(
                        "Your config's data types must all implement serde::Serialize and Deserialize!",
                    );
                } else {
                    message.append(
                        "This is likely to be an issue caused by the Serialize implementation of the program you are using.",
                    );
                }
                message
            },
            DataParseError::Deserialize(format, _) => {
                let mut message = String::from_str(
                    "Deserialization: An error occurred trying to convert a string into a config object.\n\n\t\t\t\t\t\t   [err] Config file isn't valid according to it's format (",
                );
                message.append(format.as_str());
                message.append(")\n\n\t\t\t\t\t\t   [tip]: ");
                if developer {
                    message.append(
                        "Make sure your data structs types/names match up with the config file you're trying to read.\n\n\t\t\t\t\t\t Alternatively, make sure all of your types implement serde::Deserialize and Serialize!\n\n\t\t\t\t\t\t -- You might want to:\n\n\t\t\t\t\t\t 1. Check that the format feature you're trying to use is enabled in your `cargo.toml` (JSON, TOML, YAML, etc)\n\n\t\t\t\t\t\t 2. Check that your data is valid (some types like vectors and custom types cannot be converted to Serde by default, you might want to implement Deserialize and Serialize for them manually)\n\n\t\t\t\t\t\t 3. Report this bug to the project's \"Issues\" page if nothing seems to be solving the issue (https://github.com/FlooferLand/fast_config/issues)",
                    );
                } else {
                    message.append(
                        "If you edited a config file, make sure you were following the configuration format's syntax rules!",
                    );
                }
                message
            },
        }
    }
}

impl UnknownFormatError {
    /// The message of the error: how many formats there were to choose
    /// from, and what to do about it.
    pub open spec fn text(self) -> Seq<char> {
        "The format had to be guessed from "@ + decimal(self.found_formats@.len())
            + " other features.\nYou should consider:\n- Adding a file extension at the end of your config file's path\n- Passing a `ConfigSetupOptions` struct into `Config::from_options`\n- Enabling only one format in the fast_config features"@
    }

    /// The message of the error.
    pub fn to_string(&self) -> (r: String)
        ensures
            r@ == self.text(),
    {
        let mut message = String::from_str("The format had to be guessed from ");
        push_decimal(&mut message, self.found_formats.len());
        message.append(
            " other features.\nYou should consider:\n- Adding a file extension at the end of your config file's path\n- Passing a `ConfigSetupOptions` struct into `Config::from_options`\n- Enabling only one format in the fast_config features",
        );
        message
    }
}

} // verus!
