//! What can go wrong while a configuration is loaded or saved.

use crate::format::ConfigFormat;
use vstd::prelude::*;

verus! {

/// `std::io::Error`, which the library only hands on.
#[verifier::external_type_specification]
#[verifier::external_body]
pub struct ExIoError(std::io::Error);

/// A value could not be turned into text, or a text into a value.
#[derive(Debug)]
pub enum DataParseError {
    /// A value could not be written in the format.
    Serialize(ConfigFormat),
    /// A text could not be read in the format. The text is kept as it was
    /// found.
    Deserialize(ConfigFormat, String),
}

/// No format could be settled on.
#[derive(Debug)]
pub struct UnknownFormatError {
    /// What went wrong, where there is more to say than that the format is
    /// unknown.
    pub message: Option<String>,
    /// The formats that were enabled when the choice failed.
    pub found_formats: Vec<ConfigFormat>,
}

impl UnknownFormatError {
    pub fn new(message: Option<String>, found_formats: Vec<ConfigFormat>) -> (r: Self)
        ensures
            r.message == message,
            r.found_formats == found_formats,
    {
        Self { message, found_formats }
    }
}

/// Why a configuration could not be constructed.
#[derive(Debug)]
pub enum ConfigError {
    /// The file was opened, but what it holds is not text. Holds the error of
    /// the read and the path of the file.
    InvalidFileEncoding(std::io::Error, std::path::PathBuf),
    /// The directories above the file, or the file itself, could not be
    /// created.
    IoError(std::io::Error),
    /// The file holds text that is not a value in the format.
    DataParseError(DataParseError),
    /// Neither the options nor the path say which format the file has, and
    /// the enabled formats leave a choice.
    UnknownFormat(UnknownFormatError),
}

/// Why a configuration could not be saved.
#[derive(Debug)]
pub enum ConfigSaveError {
    /// The file could not be created or written.
    IoError(std::io::Error),
    /// The value could not be turned into text. Holds the encoder's report.
    SerializationError(String),
}

} // verus!
