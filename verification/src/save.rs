//! Saving: what is done, step by step, to write a configuration to its
//! file, and what each outcome of a step leads to.
//!
//! The caller performs the step that `action` names and reports the
//! outcome with the method for it. A report that the saver does not wait
//! for changes nothing.

use crate::error::ConfigSaveError;
use crate::features::Features;
use crate::format::Encoder;
use crate::format_dependant::{
    compresses, encoder_for, missing_feature_text, select_encoder, to_string, written_text,
};
use crate::options::InternalOptions;
use vstd::prelude::*;
use vstd::string::*;

verus! {

/// The next step of a save.
#[derive(Debug, PartialEq, Eq, Copy, Clone, Structural)]
pub enum SaveAction {
    /// Turn the value into text with this encoder.
    Encode(Encoder),
    /// Create the file at the path, or empty it if it is there.
    CreateFile,
    /// Create the directories above the path that are missing.
    CreateDirs,
    /// Write the text into the file that was created.
    Write,
}

/// A save under way.
pub enum Saver {
    /// The value is to be turned into text. Holds the encoder to call and
    /// the options of the configuration.
    Encoding(Encoder, InternalOptions),
    /// The text is there: the file is to be created.
    Creating(String),
    /// The file could not be created: the directories above it are to be
    /// created.
    Repairing(String),
    /// The file is to be created once more.
    Retrying(String),
    /// The file is there: the text is to be written.
    Writing(String),
    /// The configuration is saved.
    Saved,
    /// The save has failed.
    Failed(ConfigSaveError),
}

impl Saver {
    /// How a save starts: with the encoder for the options, or, where the
    /// format is not enabled, failed with a message that says so.
    pub open spec fn starts_for(self, options: InternalOptions, features: Features) -> bool {
        match encoder_for(options, features) {
            Some(encoder) => self == Saver::Encoding(encoder, options),
            None => self matches Saver::Failed(ConfigSaveError::SerializationError(message))
                && message@ == missing_feature_text(options.format),
        }
    }

    /// The step that the saver waits for, if it is not at its end.
    pub open spec fn next(self) -> Option<SaveAction> {
        match self {
            Saver::Encoding(encoder, _) => Some(SaveAction::Encode(encoder)),
            Saver::Creating(_) | Saver::Retrying(_) => Some(SaveAction::CreateFile),
            Saver::Repairing(_) => Some(SaveAction::CreateDirs),
            Saver::Writing(_) => Some(SaveAction::Write),
            Saver::Saved | Saver::Failed(_) => None,
        }
    }

    /// The text that is written, once the encoder has given it.
    pub open spec fn pending(self) -> Option<String> {
        match self {
            Saver::Creating(text) | Saver::Repairing(text) | Saver::Retrying(text) | Saver::Writing(
                text,
            ) => Some(text),
            _ => None,
        }
    }

    /// After the encoder ran: with its text, as it is written, the file is
    /// created next. Without one the save has failed, and nothing is done to
    /// the file; the message is what the encoder's error displays where the
    /// text would have been compressed, else its debug text.
    pub open spec fn encoded_to<E: core::fmt::Display>(
        self,
        outcome: Result<String, E>,
        after: Self,
    ) -> bool {
        match self {
            Saver::Encoding(_, options) => match outcome {
                Ok(text) => after matches Saver::Creating(written) && written@ == written_text(
                    text@,
                    options,
                ),
                Err(error) => after matches Saver::Failed(
                    ConfigSaveError::SerializationError(message),
                ) && (compresses(options) ==> to_string_from_display_ensures::<E>(
                    &error,
                    message,
                )),
            },
            other => after == other,
        }
    }

    /// After the file was to be created. With a file, the text is written
    /// next. Without one, the first time, the directories above the file
    /// are created next, and the error is dropped; the second time, the save
    /// has failed with the error.
    pub open spec fn after_file_created(self, outcome: Result<(), std::io::Error>) -> Self {
        match self {
            Saver::Creating(text) => match outcome {
                Ok(_) => Saver::Writing(text),
                Err(_) => Saver::Repairing(text),
            },
            Saver::Retrying(text) => match outcome {
                Ok(_) => Saver::Writing(text),
                Err(error) => Saver::Failed(ConfigSaveError::IoError(error)),
            },
            other => other,
        }
    }

    /// After the directories were to be created: the file is created once
    /// more, however that went.
    pub open spec fn after_dirs_created(self) -> Self {
        match self {
            Saver::Repairing(text) => Saver::Retrying(text),
            other => other,
        }
    }

    /// After the text was to be written: the configuration is saved, or the
    /// save has failed with the error.
    pub open spec fn after_written(self, outcome: Result<(), std::io::Error>) -> Self {
        match self {
            Saver::Writing(_) => match outcome {
                Ok(_) => Saver::Saved,
                Err(error) => Saver::Failed(ConfigSaveError::IoError(error)),
            },
            other => other,
        }
    }

    /// What the save came to, if it is at its end.
    pub open spec fn outcome(self) -> Option<Result<(), ConfigSaveError>> {
        match self {
            Saver::Saved => Some(Ok(())),
            Saver::Failed(error) => Some(Err(error)),
            _ => None,
        }
    }

    /// Starts a save with the options of a configuration.
    pub fn start(options: &InternalOptions, features: Features) -> (r: Saver)
        ensures
            r.starts_for(*options, features),
    {
        match select_encoder(options, features) {
            Ok(encoder) => Saver::Encoding(encoder, *options),
            Err(message) => Saver::Failed(ConfigSaveError::SerializationError(message)),
        }
    }

    /// The step to perform next. `None` at the end of the save.
    pub fn action(&self) -> (r: Option<SaveAction>)
        ensures
            r == self.next(),
    {
        match self {
            Saver::Encoding(encoder, _) => Some(SaveAction::Encode(*encoder)),
            Saver::Creating(_) | Saver::Retrying(_) => Some(SaveAction::CreateFile),
            Saver::Repairing(_) => Some(SaveAction::CreateDirs),
            Saver::Writing(_) => Some(SaveAction::Write),
            Saver::Saved | Saver::Failed(_) => None,
        }
    }

    /// The text to write, once the encoder has given it and until the save
    /// is at its end.
    pub fn text(&self) -> (r: Option<&String>)
        ensures
            r == match self.pending() {
                Some(text) => Some(&text),
                None => None::<&String>,
            },
    {
        match self {
            Saver::Creating(text) => Some(text),
            Saver::Repairing(text) => Some(text),
            Saver::Retrying(text) => Some(text),
            Saver::Writing(text) => Some(text),
            _ => None,
        }
    }

    /// Reports what the encoder made of the value.
    pub fn encoded<E: core::fmt::Debug + core::fmt::Display>(
        self,
        outcome: Result<String, E>,
    ) -> (r: Self)
        ensures
            self.encoded_to(outcome, r),
    {
        match self {
            Saver::Encoding(_, options) => match to_string(outcome, &options) {
                Ok(text) => Saver::Creating(text),
                Err(message) => Saver::Failed(ConfigSaveError::SerializationError(message)),
            },
            other => other,
        }
    }

    /// Reports how the creation of the file went.
    pub fn file_created(self, outcome: Result<(), std::io::Error>) -> (r: Self)
        ensures
            r == self.after_file_created(outcome),
    {
        match self {
            Saver::Creating(text) => match outcome {
                Ok(_) => Saver::Writing(text),
                Err(_) => Saver::Repairing(text),
            },
            Saver::Retrying(text) => match outcome {
                Ok(_) => Saver::Writing(text),
                Err(error) => Saver::Failed(ConfigSaveError::IoError(error)),
            },
            other => other,
        }
    }

    /// Reports that the creation of the directories was tried. How it went
    /// does not matter: the creation of the file will tell.
    pub fn dirs_created(self) -> (r: Self)
        ensures
            r == self.after_dirs_created(),
    {
        match self {
            Saver::Repairing(text) => Saver::Retrying(text),
            other => other,
        }
    }

    /// Reports how the writing of the text went.
    pub fn written(self, outcome: Result<(), std::io::Error>) -> (r: Self)
        ensures
            r == self.after_written(outcome),
    {
        match self {
            Saver::Writing(_) => match outcome {
                Ok(_) => Saver::Saved,
                Err(error) => Saver::Failed(ConfigSaveError::IoError(error)),
            },
            other => other,
        }
    }

    /// Whether the configuration is saved, or the error that ended the
    /// save. `None` while there is a step to perform.
    pub fn finish(self) -> (r: Option<Result<(), ConfigSaveError>>)
        ensures
            r == self.outcome(),
    {
        match self {
            Saver::Saved => Some(Ok(())),
            Saver::Failed(error) => Some(Err(error)),
            _ => None,
        }
    }
}

/// A save repairs once. Where the file cannot be created, the directories
/// above it are created and the file is created again; with a file then,
/// the text that the encoder gave is written, and the save succeeds. The
/// error of the first creation is not reported.
pub proof fn lemma_save_repairs_once(text: String, first: std::io::Error)
    ensures
        ({
            let creating = Saver::Creating(text);
            let repairing = creating.after_file_created(Err(first));
            let retrying = repairing.after_dirs_created();
            let writing = retrying.after_file_created(Ok(()));
            &&& creating.next() == Some(SaveAction::CreateFile)
            &&& repairing.next() == Some(SaveAction::CreateDirs)
            &&& retrying.next() == Some(SaveAction::CreateFile)
            &&& writing.next() == Some(SaveAction::Write)
            &&& writing.pending() == Some(text)
            &&& writing.after_written(Ok(())).outcome() == Some(Ok::<(), ConfigSaveError>(()))
        }),
{
}

/// A save does not repair twice: where the file cannot be created again,
/// the save has failed with the error of that second creation.
pub proof fn lemma_save_gives_up(text: String, first: std::io::Error, second: std::io::Error)
    ensures
        Saver::Creating(text).after_file_created(Err(first)).after_dirs_created().after_file_created(
            Err(second),
        ).outcome() == Some(Err::<(), ConfigSaveError>(ConfigSaveError::IoError(second))),
{
}

/// Where the file is created at once, the text is written next, and the
/// save comes to what the writing came to.
pub proof fn lemma_save_writes(text: String, written: Result<(), std::io::Error>)
    ensures
        ({
            let writing = Saver::Creating(text).after_file_created(Ok(()));
            &&& writing.next() == Some(SaveAction::Write)
            &&& writing.pending() == Some(text)
            &&& writing.after_written(written).outcome() == Some(
                match written {
                    Ok(_) => Ok::<(), ConfigSaveError>(()),
                    Err(error) => Err(ConfigSaveError::IoError(error)),
                },
            )
        }),
{
}

/// Nothing is done to the file before there is a text to write: a save
/// starts with the encoder or at its end, and a save whose encoder gave no
/// text is at its end, failed.
pub proof fn lemma_no_text_no_file<E: core::fmt::Display>(
    saver: Saver,
    options: InternalOptions,
    features: Features,
    outcome: Result<String, E>,
    after: Saver,
)
    requires
        saver.starts_for(options, features),
        saver.encoded_to(outcome, after),
    ensures
        saver.next() is Some ==> saver.next()->0 is Encode,
        saver.next() is None ==> saver.outcome() matches Some(
            Err(ConfigSaveError::SerializationError(_)),
        ),
        outcome is Err ==> after.next() is None && after.outcome() matches Some(
            Err(ConfigSaveError::SerializationError(_)),
        ),
        outcome is Ok && saver.next() is Some ==> after.next() == Some(SaveAction::CreateFile),
{
}

/// The text that is written is the text that the encoder gave, as
/// `written_text` makes it: no report on the file changes it.
pub proof fn lemma_text_is_kept(saver: Saver, created: Result<(), std::io::Error>)
    requires
        saver.pending() is Some,
    ensures
        saver.after_file_created(created).pending() is Some ==> saver.after_file_created(
            created,
        ).pending() == saver.pending(),
        saver.after_dirs_created().pending() == saver.pending(),
{
}

/// How many reports a saver can still take before it is at its end.
pub open spec fn steps_left(saver: Saver) -> nat {
    match saver {
        Saver::Encoding(_, _) => 5,
        Saver::Creating(_) => 4,
        Saver::Repairing(_) => 3,
        Saver::Retrying(_) => 2,
        Saver::Writing(_) => 1,
        Saver::Saved | Saver::Failed(_) => 0,
    }
}

/// A save ends. Each report that the saver waits for brings it nearer to
/// its end, which comes after five reports at most: the file is created
/// twice at most, and nothing is tried a third time.
pub proof fn lemma_save_ends<E: core::fmt::Display>(
    saver: Saver,
    encoded: Result<String, E>,
    after: Saver,
    outcome: Result<(), std::io::Error>,
)
    requires
        saver.encoded_to(encoded, after),
    ensures
        saver.next() is None <==> steps_left(saver) == 0,
        saver.outcome() is Some <==> steps_left(saver) == 0,
        saver.next() is Some && saver.next()->0 is Encode ==> steps_left(after) < steps_left(saver),
        saver.next() == Some(SaveAction::CreateFile) ==> steps_left(
            saver.after_file_created(outcome),
        ) < steps_left(saver),
        saver.next() == Some(SaveAction::CreateDirs) ==> steps_left(saver.after_dirs_created())
            < steps_left(saver),
        saver.next() == Some(SaveAction::Write) ==> steps_left(saver.after_written(outcome))
            < steps_left(saver),
{
}

} // verus!
