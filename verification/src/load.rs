//! Loading: what is done, step by step, to bind a value to its file, and
//! what each outcome of a step leads to.
//!
//! The caller performs the step that `action` names and reports the
//! outcome with the method for it. A report that the loader does not wait
//! for changes nothing.

use crate::config::Config;
use crate::error::{ConfigError, DataParseError};
use crate::format::ConfigFormat;
use crate::format_dependant::from_string;
use vstd::prelude::*;

verus! {

/// The next step of a construction.
#[derive(Debug, PartialEq, Eq, Copy, Clone, Structural)]
pub enum LoadAction {
    /// Open the file at the path for reading and read all of it as text.
    ReadFile,
    /// Decode the text that was read, in this format.
    Decode(ConfigFormat),
    /// Create the directories above the path that are missing.
    CreateDirs,
    /// Create an empty file at the path.
    CreateFile,
}

/// A construction under way.
pub enum Loader<D> {
    /// The file is to be read.
    Reading(Config<D>),
    /// The file was read: its text is to be decoded.
    Decoding(Config<D>, String),
    /// There is no file to read: the directories above it are to be
    /// created.
    MakingDirs(Config<D>),
    /// The directories are there: the file is to be created.
    MakingFile(Config<D>),
    /// The configuration is constructed.
    Ready(Config<D>),
    /// The construction has failed.
    Failed(ConfigError),
}

impl<D> Loader<D> {
    /// The step that the loader waits for, if it is not at its end.
    pub open spec fn next(self) -> Option<LoadAction> {
        match self {
            Loader::Reading(_) => Some(LoadAction::ReadFile),
            Loader::Decoding(config, _) => Some(LoadAction::Decode(config.options.format)),
            Loader::MakingDirs(_) => Some(LoadAction::CreateDirs),
            Loader::MakingFile(_) => Some(LoadAction::CreateFile),
            Loader::Ready(_) | Loader::Failed(_) => None,
        }
    }

    /// After the file could not be opened: the directories above it are
    /// created next.
    pub open spec fn after_not_opened(self) -> Self {
        match self {
            Loader::Reading(config) => Loader::MakingDirs(config),
            other => other,
        }
    }

    /// After the file was opened and could not be read as text: the
    /// construction has failed, with that error and the path.
    pub open spec fn after_not_text(self, error: std::io::Error) -> Self {
        match self {
            Loader::Reading(config) => Loader::Failed(
                ConfigError::InvalidFileEncoding(error, config.path),
            ),
            other => other,
        }
    }

    /// After the file was read: its text is decoded next, if the format is
    /// enabled. If not, the text cannot be read in the format.
    pub open spec fn after_read(self, content: String) -> Self {
        match self {
            Loader::Reading(config) => if config.features.supports(config.options.format) {
                Loader::Decoding(config, content)
            } else {
                Loader::Failed(
                    ConfigError::DataParseError(
                        DataParseError::Deserialize(config.options.format, content),
                    ),
                )
            },
            other => other,
        }
    }

    /// After the decoder ran: its value takes the place of the caller's. If
    /// it gave none, the construction has failed, with the format and the
    /// text as it was read.
    pub open spec fn after_decoded<E>(self, outcome: Result<D, E>) -> Self {
        match self {
            Loader::Decoding(config, content) => match outcome {
                Ok(value) => Loader::Ready(
                    Config {
                        data: value,
                        path: config.path,
                        options: config.options,
                        features: config.features,
                    },
                ),
                Err(_) => Loader::Failed(
                    ConfigError::DataParseError(
                        DataParseError::Deserialize(config.options.format, content),
                    ),
                ),
            },
            other => other,
        }
    }

    /// After the directories were to be created: the file is created next,
    /// or the construction has failed with the error.
    pub open spec fn after_dirs_created(self, outcome: Result<(), std::io::Error>) -> Self {
        match self {
            Loader::MakingDirs(config) => match outcome {
                Ok(_) => Loader::MakingFile(config),
                Err(error) => Loader::Failed(ConfigError::IoError(error)),
            },
            other => other,
        }
    }

    /// After the file was to be created: the configuration is constructed,
    /// with the caller's value, or the construction has failed with the
    /// error.
    pub open spec fn after_file_created(self, outcome: Result<(), std::io::Error>) -> Self {
        match self {
            Loader::MakingFile(config) => match outcome {
                Ok(_) => Loader::Ready(config),
                Err(error) => Loader::Failed(ConfigError::IoError(error)),
            },
            other => other,
        }
    }

    /// What the construction came to, if it is at its end.
    pub open spec fn outcome(self) -> Option<Result<Config<D>, ConfigError>> {
        match self {
            Loader::Ready(config) => Some(Ok(config)),
            Loader::Failed(error) => Some(Err(error)),
            _ => None,
        }
    }

    /// The step to perform next. `None` at the end of the construction.
    pub fn action(&self) -> (r: Option<LoadAction>)
        ensures
            r == self.next(),
    {
        match self {
            Loader::Reading(_) => Some(LoadAction::ReadFile),
            Loader::Decoding(config, _) => Some(LoadAction::Decode(config.options.format)),
            Loader::MakingDirs(_) => Some(LoadAction::CreateDirs),
            Loader::MakingFile(_) => Some(LoadAction::CreateFile),
            Loader::Ready(_) | Loader::Failed(_) => None,
        }
    }

    /// The path of the file that the steps are about, while there is a
    /// step to perform.
    pub fn path(&self) -> (r: Option<&std::path::PathBuf>)
        ensures
            r == match *self {
                Loader::Reading(config) => Some(&config.path),
                Loader::Decoding(config, _) => Some(&config.path),
                Loader::MakingDirs(config) => Some(&config.path),
                Loader::MakingFile(config) => Some(&config.path),
                Loader::Ready(_) | Loader::Failed(_) => None::<&std::path::PathBuf>,
            },
    {
        match self {
            Loader::Reading(config) => Some(&config.path),
            Loader::Decoding(config, _) => Some(&config.path),
            Loader::MakingDirs(config) => Some(&config.path),
            Loader::MakingFile(config) => Some(&config.path),
            Loader::Ready(_) | Loader::Failed(_) => None,
        }
    }

    /// The text to decode, while the loader waits for the decoder.
    pub fn content(&self) -> (r: Option<&String>)
        ensures
            r == match *self {
                Loader::Decoding(_, content) => Some(&content),
                _ => None::<&String>,
            },
    {
        match self {
            Loader::Decoding(_, content) => Some(content),
            _ => None,
        }
    }

    /// Reports that the file could not be opened for reading.
    pub fn not_opened(self) -> (r: Self)
        ensures
            r == self.after_not_opened(),
    {
        match self {
            Loader::Reading(config) => Loader::MakingDirs(config),
            other => other,
        }
    }

    /// Reports that the file was opened, and that reading it as text failed
    /// with `error`.
    pub fn not_text(self, error: std::io::Error) -> (r: Self)
        ensures
            r == self.after_not_text(error),
    {
        match self {
            Loader::Reading(config) => Loader::Failed(
                ConfigError::InvalidFileEncoding(error, config.path),
            ),
            other => other,
        }
    }

    /// Reports the text that was read from the file.
    pub fn read(self, content: String) -> (r: Self)
        ensures
            r == self.after_read(content),
    {
        match self {
            Loader::Reading(config) => if config.features.enables(config.options.format) {
                Loader::Decoding(config, content)
            } else {
                Loader::Failed(
                    ConfigError::DataParseError(
                        DataParseError::Deserialize(config.options.format, content),
                    ),
                )
            },
            other => other,
        }
    }

    /// Reports what the decoder made of the text. What its error says is
    /// not kept: the text that it could not read is.
    pub fn decoded<E: core::fmt::Debug>(self, outcome: Result<D, E>) -> (r: Self)
        ensures
            r == self.after_decoded(outcome),
    {
        match self {
            Loader::Decoding(config, content) => match from_string(outcome) {
                Ok(value) => Loader::Ready(
                    Config {
                        data: value,
                        path: config.path,
                        options: config.options,
                        features: config.features,
                    },
                ),
                Err(_) => Loader::Failed(
                    ConfigError::DataParseError(
                        DataParseError::Deserialize(config.options.format, content),
                    ),
                ),
            },
            other => other,
        }
    }

    /// Reports how the creation of the directories went.
    pub fn dirs_created(self, outcome: Result<(), std::io::Error>) -> (r: Self)
        ensures
            r == self.after_dirs_created(outcome),
    {
        match self {
            Loader::MakingDirs(config) => match outcome {
                Ok(_) => Loader::MakingFile(config),
                Err(error) => Loader::Failed(ConfigError::IoError(error)),
            },
            other => other,
        }
    }

    /// Reports how the creation of the file went.
    pub fn file_created(self, outcome: Result<(), std::io::Error>) -> (r: Self)
        ensures
            r == self.after_file_created(outcome),
    {
        match self {
            Loader::MakingFile(config) => match outcome {
                Ok(_) => Loader::Ready(config),
                Err(error) => Loader::Failed(ConfigError::IoError(error)),
            },
            other => other,
        }
    }

    /// The configuration, or the error that ended the construction. `None`
    /// while there is a step to perform.
    pub fn finish(self) -> (r: Option<Result<Config<D>, ConfigError>>)
        ensures
            r == self.outcome(),
    {
        match self {
            Loader::Ready(config) => Some(Ok(config)),
            Loader::Failed(error) => Some(Err(error)),
            _ => None,
        }
    }
}

/// Where there is no file to read, the steps are: read, create the
/// directories, create the file. After them the configuration is
/// constructed, and it is the one that was to be loaded: it holds the
/// caller's value as it was given.
pub proof fn lemma_missing_file_keeps_value<D>(config: Config<D>)
    ensures
        ({
            let reading = Loader::Reading(config);
            let making_dirs = reading.after_not_opened();
            let making_file = making_dirs.after_dirs_created(Ok(()));
            let ready = making_file.after_file_created(Ok(()));
            &&& reading.next() == Some(LoadAction::ReadFile)
            &&& making_dirs.next() == Some(LoadAction::CreateDirs)
            &&& making_file.next() == Some(LoadAction::CreateFile)
            &&& ready.outcome() == Some(Ok::<Config<D>, ConfigError>(config))
        }),
{
}

/// Where the file is read and decoded, the value of the decoder takes the
/// place of the caller's value, whole; path and options stay.
pub proof fn lemma_file_wins<D, E>(config: Config<D>, content: String, value: D)
    requires
        config.features.supports(config.options.format),
    ensures
        ({
            let decoding = Loader::Reading(config).after_read(content);
            let ready = decoding.after_decoded(Ok::<D, E>(value));
            &&& decoding.next() == Some(LoadAction::Decode(config.options.format))
            &&& ready.outcome() matches Some(Ok(loaded))
            &&& loaded.data == value
            &&& loaded.path == config.path
            &&& loaded.options == config.options
            &&& loaded.features == config.features
        }),
{
}

/// Which error each failure becomes, and that it holds what was handed
/// in: the error and the path of a read that gave no text; the format and
/// the text, as it was read, that the decoder could not read or that no
/// enabled format reads; the error of the directories or of the file that
/// could not be created.
pub proof fn lemma_load_failures<D, E>(
    config: Config<D>,
    content: String,
    error: std::io::Error,
    refusal: E,
)
    ensures
        ({
            let reading = Loader::Reading(config);
            let unreadable = ConfigError::DataParseError(
                DataParseError::Deserialize(config.options.format, content),
            );
            &&& reading.after_not_text(error).outcome() == Some(
                Err::<Config<D>, ConfigError>(ConfigError::InvalidFileEncoding(error, config.path)),
            )
            &&& config.features.supports(config.options.format) ==> reading.after_read(
                content,
            ).after_decoded(Err::<D, E>(refusal)).outcome() == Some(
                Err::<Config<D>, ConfigError>(unreadable),
            )
            &&& !config.features.supports(config.options.format) ==> reading.after_read(
                content,
            ).outcome() == Some(Err::<Config<D>, ConfigError>(unreadable))
            &&& reading.after_not_opened().after_dirs_created(Err(error)).outcome() == Some(
                Err::<Config<D>, ConfigError>(ConfigError::IoError(error)),
            )
            &&& reading.after_not_opened().after_dirs_created(Ok(())).after_file_created(
                Err(error),
            ).outcome() == Some(Err::<Config<D>, ConfigError>(ConfigError::IoError(error)))
        }),
{
}

/// How many reports a loader can still take before it is at its end.
pub open spec fn steps_left<D>(loader: Loader<D>) -> nat {
    match loader {
        Loader::Reading(_) => 3,
        Loader::MakingDirs(_) => 2,
        Loader::Decoding(_, _) | Loader::MakingFile(_) => 1,
        Loader::Ready(_) | Loader::Failed(_) => 0,
    }
}

/// A construction ends. Each report that the loader waits for brings it
/// nearer to its end, which comes after three reports at most; at the end
/// there is an outcome and no step, and before it a step and no outcome.
pub proof fn lemma_load_ends<D, E>(
    loader: Loader<D>,
    content: String,
    error: std::io::Error,
    decoded: Result<D, E>,
    created: Result<(), std::io::Error>,
)
    ensures
        loader.next() is None <==> steps_left(loader) == 0,
        loader.outcome() is Some <==> steps_left(loader) == 0,
        loader.next() == Some(LoadAction::ReadFile) ==> {
            &&& steps_left(loader.after_not_opened()) < steps_left(loader)
            &&& steps_left(loader.after_not_text(error)) < steps_left(loader)
            &&& steps_left(loader.after_read(content)) < steps_left(loader)
        },
        loader.next() is Some && loader.next()->0 is Decode ==> steps_left(
            loader.after_decoded(decoded),
        ) < steps_left(loader),
        loader.next() == Some(LoadAction::CreateDirs) ==> steps_left(
            loader.after_dirs_created(created),
        ) < steps_left(loader),
        loader.next() == Some(LoadAction::CreateFile) ==> steps_left(
            loader.after_file_created(created),
        ) < steps_left(loader),
{
}

/// A loader takes no report but those of the step it waits for: any other
/// leaves it as it is. At its end it takes none.
pub proof fn lemma_load_ignores_other_reports<D, E>(
    loader: Loader<D>,
    content: String,
    error: std::io::Error,
    decoded: Result<D, E>,
    created: Result<(), std::io::Error>,
)
    ensures
        loader.next() != Some(LoadAction::ReadFile) ==> {
            &&& loader.after_not_opened() == loader
            &&& loader.after_not_text(error) == loader
            &&& loader.after_read(content) == loader
        },
        !(loader.next() is Some && loader.next()->0 is Decode) ==> loader.after_decoded(decoded)
            == loader,
        loader.next() != Some(LoadAction::CreateDirs) ==> loader.after_dirs_created(created)
            == loader,
        loader.next() != Some(LoadAction::CreateFile) ==> loader.after_file_created(created)
            == loader,
{
}

} // verus!
