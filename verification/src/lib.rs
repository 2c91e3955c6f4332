//! Binds a typed value to a configuration file: which format a path and a set
//! of options call for, what to do next while a file is loaded or saved, and
//! which error each failure becomes.
//!
//! The library decides and never touches the disk. A caller performs each
//! step that [`Loader`] or [`Saver`] asks for and reports how it went.

pub mod config;
pub mod error;
pub mod error_messages;
pub mod extensions;
pub mod features;
pub mod format;
pub mod format_dependant;
pub mod load;
pub mod options;
pub mod path;
pub mod save;
pub mod text;
pub mod utils;

pub use config::Config;
pub use error::{ConfigError, ConfigSaveError, DataParseError, UnknownFormatError};
pub use extensions::{GenericResult, ResultGeneralize};
pub use features::{
    get_enabled_features, get_first_enabled_feature, resolve_default, resolve_format, Features,
};
pub use format::{ConfigFormat, Encoder, Format};
pub use format_dependant::{from_string, select_encoder, to_string};
pub use load::{LoadAction, Loader};
pub use options::{ConfigSetupOptions, InternalOptions};
pub use save::{SaveAction, Saver};
pub use utils::compress_string;
