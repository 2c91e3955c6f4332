//! The configuration itself: a value, the path of its file and the options
//! it was constructed with.

use crate::error::ConfigError;
use crate::features::{hinted_format, resolve_format, resolved_format, Features};
use crate::format::{format_of_extension, ConfigFormat};
use crate::load::Loader;
use crate::options::{ConfigSetupOptions, InternalOptions};
use crate::path;
use crate::path::{extension_of, file_name_of, with_extension};
use crate::save::Saver;
use crate::text::text_of;
use vstd::prelude::*;
use vstd::string::*;

verus! {

/// A value bound to a configuration file.
pub struct Config<D> {
    /// The value. It is the caller's to read and to change.
    pub data: D,
    /// The path of the file, extension included.
    pub path: std::path::PathBuf,
    /// The options, with the format settled.
    pub options: InternalOptions,
    /// The formats that were enabled when the configuration was constructed.
    pub features: Features,
}

/// The canonical name of a format holds no path separator.
proof fn lemma_name_has_no_separator(format: ConfigFormat)
    ensures
        !format.name().contains('/'),
        !format.name().contains('\\'),
{
    reveal_strlit("json5");
    reveal_strlit("toml");
    reveal_strlit("yaml");
}

/// The path of the configuration's file: the caller's path if it has an
/// extension, whatever that is; else the caller's path with the canonical
/// name of the format as its extension.
pub open spec fn settled_path(path: std::path::PathBuf, format: ConfigFormat) -> std::path::PathBuf {
    if extension_of(path) is None {
        with_extension(path, format.name())
    } else {
        path
    }
}

/// How a construction starts.
///
/// A format is chosen for the explicit format of the options, the
/// extension of the path and the enabled formats. Where there is one, the
/// file is to be read next, into a configuration that holds the caller's
/// value and options, the chosen format and the settled path. Where there
/// is none, the construction has failed, with the enabled formats in the
/// error.
pub open spec fn starts<D>(
    loader: Loader<D>,
    path: std::path::PathBuf,
    options: ConfigSetupOptions,
    features: Features,
    data: D,
) -> bool {
    match resolved_format(options.format, extension_of(path), features) {
        Some(format) => {
            &&& loader matches Loader::Reading(config)
            &&& config.data == data
            &&& config.options == InternalOptions::with_format(options, format)
            &&& config.features == features
            &&& config.path == settled_path(path, format)
        },
        None => {
            &&& loader matches Loader::Failed(ConfigError::UnknownFormat(error))
            &&& error.message is None
            &&& error.found_formats@ == features.formats()
        },
    }
}

impl<D> Config<D> {
    /// Starts the construction of a configuration with the default options:
    /// see `from_options`.
    pub fn new(path: std::path::PathBuf, features: Features, data: D) -> (loader: Loader<D>)
        ensures
            starts(loader, path, ConfigSetupOptions::initial(), features, data),
    {
        Self::from_options(path, ConfigSetupOptions::default(), features, data)
    }

    /// Starts the construction of a configuration for the file at `path`.
    /// `data` is the value that the configuration holds if there is no file
    /// yet.
    ///
    /// The format is settled first, as `resolve_format` says, with the
    /// extension that `std::path` finds in the path. A path without an
    /// extension is given the canonical name of the format as its
    /// extension; a path with one is kept as it is, whether a format goes by
    /// its extension or not.
    pub fn from_options(
        path: std::path::PathBuf,
        options: ConfigSetupOptions,
        features: Features,
        data: D,
    ) -> (loader: Loader<D>)
        ensures
            starts(loader, path, options, features, data),
    {
        let mut path = path;
        let extension = path::extension(&path);
        let format = match resolve_format(options.format, &extension, features) {
            Ok(format) => format,
            Err(error) => {
                return Loader::Failed(ConfigError::UnknownFormat(error));
            },
        };
        if extension.is_none() {
            proof {
                lemma_name_has_no_separator(format);
            }
            path::set_extension(&mut path, format.as_str());
        }
        let kept = InternalOptions {
            pretty: options.pretty,
            format,
            save_on_drop: options.save_on_drop,
        };
        Loader::Reading(Config { data, path, options: kept, features })
    }

    /// Starts a save of the configuration.
    pub fn save(&self) -> (saver: Saver)
        ensures
            saver.starts_for(self.options, self.features),
    {
        Saver::start(&self.options, self.features)
    }

    /// The save that is made when the configuration goes out of scope, if
    /// its options ask for one. Nobody hears of the outcome of that save.
    pub fn save_on_drop(&self) -> (saver: Option<Saver>)
        ensures
            saver is Some <==> self.options.save_on_drop,
            saver matches Some(started) ==> started.starts_for(self.options, self.features),
    {
        if self.options.save_on_drop {
            Some(self.save())
        } else {
            None
        }
    }

    /// The name of the configuration's file: the last component of its
    /// path, as `std::path` finds it. `None` if the path does not end in a
    /// name.
    pub fn filename(&self) -> (r: Option<String>)
        ensures
            text_of(r) == file_name_of(self.path),
    {
        path::file_name(&self.path)
    }
}

/// An explicit format is the format of the configuration that is
/// constructed, whatever the extension of the path and the enabled formats
/// are, and the construction does not fail for want of a format.
pub proof fn lemma_explicit_format_is_kept<D>(
    loader: Loader<D>,
    path: std::path::PathBuf,
    options: ConfigSetupOptions,
    features: Features,
    data: D,
    format: ConfigFormat,
)
    requires
        options.format == Some(format),
        starts(loader, path, options, features, data),
    ensures
        loader matches Loader::Reading(config) && config.options.format == format && config.data
            == data && config.path == settled_path(path, format),
{
}

/// The path is settled with the format. A path without an extension gets
/// the canonical name of the format as its extension, never an alias. A
/// path with an extension is never changed, not even where no format goes
/// by that extension or where the format is another than the one it names.
pub proof fn lemma_path_is_settled<D>(
    loader: Loader<D>,
    path: std::path::PathBuf,
    options: ConfigSetupOptions,
    features: Features,
    data: D,
)
    requires
        starts(loader, path, options, features, data),
    ensures
        loader matches Loader::Reading(config) ==> {
            &&& extension_of(path) is None ==> config.path == with_extension(
                path,
                config.options.format.name(),
            )
            &&& extension_of(path) is Some ==> config.path == path
        },
{
}

/// Without an explicit format, an extension that names a format settles
/// it, however many formats are enabled: the construction goes on with that
/// format and with the path as it was given, alias and all.
pub proof fn lemma_extension_settles<D>(
    loader: Loader<D>,
    path: std::path::PathBuf,
    options: ConfigSetupOptions,
    features: Features,
    data: D,
    ext: Seq<char>,
    format: ConfigFormat,
)
    requires
        options.format is None,
        extension_of(path) == Some(ext),
        format_of_extension(ext) == Some(format),
        starts(loader, path, options, features, data),
    ensures
        loader matches Loader::Reading(config) && config.options.format == format && config.path
            == path && config.data == data,
{
}

/// With exactly one format enabled a format is always settled: the
/// construction goes on to read the file, whatever the path is. Without an
/// explicit format and without an extension that names one, the format is
/// the enabled one; an extension that names none is kept.
pub proof fn lemma_sole_format_settles<D>(
    loader: Loader<D>,
    path: std::path::PathBuf,
    options: ConfigSetupOptions,
    features: Features,
    data: D,
)
    requires
        features.formats().len() == 1,
        starts(loader, path, options, features, data),
    ensures
        loader matches Loader::Reading(config) && config.data == data && (options.format is None
            && hinted_format(extension_of(path)) is None ==> config.options.format
            == features.formats()[0] && config.path == settled_path(path, features.formats()[0])),
{
}

/// Where the options name no format and the enabled formats leave a choice,
/// nothing is guessed. The construction goes on exactly where the extension
/// of the path names a format, and with that one; else it has failed, and
/// the error holds the enabled formats, all of them.
pub proof fn lemma_ambiguity_is_reported<D>(
    loader: Loader<D>,
    path: std::path::PathBuf,
    options: ConfigSetupOptions,
    features: Features,
    data: D,
)
    requires
        options.format is None,
        features.formats().len() != 1,
        starts(loader, path, options, features, data),
    ensures
        match hinted_format(extension_of(path)) {
            Some(format) => loader matches Loader::Reading(config) && config.options.format
                == format,
            None => loader matches Loader::Failed(ConfigError::UnknownFormat(error))
                && error.message is None && error.found_formats@ == features.formats(),
        },
{
}

} // verus!
