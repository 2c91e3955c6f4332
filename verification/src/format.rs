//! The formats a configuration can be written in, and how a file extension
//! names one.

use crate::text::{lower, same_text, to_lower};
use vstd::prelude::*;
use vstd::string::*;

verus! {

/// The format of a configuration file.
#[derive(Debug, PartialEq, Eq, Copy, Clone, Structural)]
pub enum ConfigFormat {
    JSON5,
    TOML,
    YAML,
}

/// A notation that a value can be written in or read from.
#[derive(Debug, PartialEq, Eq, Copy, Clone, Structural)]
pub enum Format {
    JSON,
    JSON5,
    TOML,
    YAML,
}

/// One of the encoders that turn a value into text. Each stands for one
/// function of the crate that implements the notation; the caller who is
/// told an encoder calls that function.
#[derive(Debug, PartialEq, Eq, Copy, Clone, Structural)]
pub enum Encoder {
    /// `serde_json::to_string`: JSON on one line.
    Json,
    /// `serde_json::to_string_pretty`: JSON, indented.
    JsonPretty,
    /// `json5::to_string`: JSON5. It has one style only.
    Json5,
    /// `toml::to_string`: TOML.
    Toml,
    /// `toml::to_string_pretty`: TOML, with arrays spread over lines.
    TomlPretty,
    /// `serde_yml::to_string`: YAML. It has one style only.
    Yaml,
}

/// U+FFFD, which stands in a decoded text for bytes that were not text.
pub open spec fn replacement() -> char {
    '\u{FFFD}'
}

/// What is left of `text` to compare: replacement characters are dropped and
/// ASCII letters are made small.
pub open spec fn folded(text: Seq<char>) -> Seq<char> {
    text.filter(|c: char| c != replacement()).map_values(|c: char| lower(c))
}

/// The key under which an extension is looked up: the extension without one
/// leading dot, folded.
pub open spec fn extension_key(ext: Seq<char>) -> Seq<char> {
    if ext.len() > 0 && ext[0] == '.' {
        folded(ext.skip(1))
    } else {
        folded(ext)
    }
}

/// The format that a folded key names, if any.
pub open spec fn format_of_key(key: Seq<char>) -> Option<ConfigFormat> {
    if key == "json5"@ || key == "json"@ {
        Some(ConfigFormat::JSON5)
    } else if key == "toml"@ {
        Some(ConfigFormat::TOML)
    } else if key == "yaml"@ || key == "yml"@ {
        Some(ConfigFormat::YAML)
    } else {
        None
    }
}

/// The format that the extension `ext` names, if any.
pub open spec fn format_of_extension(ext: Seq<char>) -> Option<ConfigFormat> {
    format_of_key(extension_key(ext))
}

/// Folding one more character.
proof fn lemma_folded_push(text: Seq<char>, c: char)
    ensures
        folded(text.push(c)) == if c == replacement() {
            folded(text)
        } else {
            folded(text).push(lower(c))
        },
{
    let keep = |c: char| c != replacement();
    Seq::lemma_filter_push(text, c, keep);
    if c != replacement() {
        assert(text.filter(keep).push(c).map_values(|c: char| lower(c)) =~= text.filter(
            keep,
        ).map_values(|c: char| lower(c)).push(lower(c)));
    }
}

/// A text without capital letters and replacement characters folds to
/// itself.
proof fn lemma_folded_plain(text: Seq<char>)
    requires
        forall|i: int| 0 <= i < text.len() ==> text[i] != replacement() && lower(text[i]) == text[i],
    ensures
        folded(text) == text,
    decreases text.len(),
{
    if text.len() == 0 {
        assert(folded(text) =~= text);
    } else {
        lemma_folded_plain(text.drop_last());
        lemma_folded_push(text.drop_last(), text.last());
        assert(text.drop_last().push(text.last()) =~= text);
    }
}

/// Two texts that differ only in the case of ASCII letters fold to the same
/// text.
proof fn lemma_folded_ignores_case(a: Seq<char>, b: Seq<char>)
    requires
        a.len() == b.len(),
        forall|i: int| 0 <= i < a.len() ==> lower(a[i]) == lower(b[i]),
    ensures
        folded(a) == folded(b),
    decreases a.len(),
{
    if a.len() == 0 {
        assert(a =~= b);
    } else {
        lemma_folded_ignores_case(a.drop_last(), b.drop_last());
        lemma_folded_push(a.drop_last(), a.last());
        lemma_folded_push(b.drop_last(), b.last());
        assert(a.drop_last().push(a.last()) =~= a);
        assert(b.drop_last().push(b.last()) =~= b);
        assert(lower(a.last()) == lower(b.last()));
    }
}

/// The canonical name of every format is an extension that names it, and
/// it is its own key: it has no dot in front and no capital letter.
pub proof fn lemma_name_is_recognized(format: ConfigFormat)
    ensures
        format_of_extension(format.name()) == Some(format),
        extension_key(format.name()) == format.name(),
{
    reveal_strlit("json5");
    reveal_strlit("json");
    reveal_strlit("toml");
    reveal_strlit("yaml");
    reveal_strlit("yml");
    lemma_folded_plain(format.name());
}

/// The case of ASCII letters in an extension does not matter: two
/// extensions that are equal but for it name the same format.
pub proof fn lemma_extension_ignores_case(a: Seq<char>, b: Seq<char>)
    requires
        a.len() == b.len(),
        forall|i: int| 0 <= i < a.len() ==> lower(a[i]) == lower(b[i]),
    ensures
        format_of_extension(a) == format_of_extension(b),
{
    if a.len() > 0 {
        assert(lower(a[0]) == lower(b[0]));
        assert(a[0] == '.' <==> b[0] == '.');
        if a[0] == '.' {
            assert forall|i: int| 0 <= i < a.skip(1).len() implies lower(a.skip(1)[i]) == lower(
                b.skip(1)[i],
            ) by {
                assert(lower(a[i + 1]) == lower(b[i + 1]));
            }
            lemma_folded_ignores_case(a.skip(1), b.skip(1));
        } else {
            lemma_folded_ignores_case(a, b);
        }
    } else {
        lemma_folded_ignores_case(a, b);
    }
}

/// One dot in front of an extension does not matter.
pub proof fn lemma_extension_ignores_leading_dot(ext: Seq<char>)
    requires
        ext.len() == 0 || ext[0] != '.',
    ensures
        format_of_extension(seq!['.'] + ext) == format_of_extension(ext),
{
    assert((seq!['.'] + ext).skip(1) =~= ext);
}

impl ConfigFormat {
    /// The canonical name of the format: what it is displayed as, and the
    /// extension given to a file of this format.
    pub open spec fn name(self) -> Seq<char> {
        match self {
            ConfigFormat::JSON5 => "json5"@,
            ConfigFormat::TOML => "toml"@,
            ConfigFormat::YAML => "yaml"@,
        }
    }

    /// The format that a file extension names. Case is ignored, and so are
    /// one leading dot and replacement characters. `json` is read as JSON5 and
    /// `yml` as YAML.
    pub fn from_extension(ext: &str) -> (r: Option<ConfigFormat>)
        ensures
            r == format_of_extension(ext@),
    {
        broadcast use vstd::string::group_string_axioms;

        let ghost dotted = ext@.len() > 0 && ext@[0] == '.';
        let mut key = String::new();
        let mut at_start = true;
        for c in it: ext.chars()
            invariant
                it.seq() == ext@,
                dotted == (ext@.len() > 0 && ext@[0] == '.'),
                at_start <==> it.index() == 0,
                at_start ==> key@ == Seq::<char>::empty(),
                !at_start && dotted ==> key@ == folded(ext@.subrange(1, it.index())),
                !at_start && !dotted ==> key@ == folded(ext@.take(it.index())),
        {
            let ghost i = it.index();
            if at_start && c == '.' {
                assert(ext@.subrange(1, 1) =~= Seq::<char>::empty());
            } else {
                proof {
                    lemma_folded_push(if dotted { ext@.subrange(1, i) } else { ext@.take(i) }, c);
                    if dotted {
                        assert(ext@.subrange(1, i + 1) =~= ext@.subrange(1, i).push(c));
                    } else {
                        assert(ext@.take(i + 1) =~= ext@.take(i).push(c));
                        assert(ext@.take(0) =~= Seq::<char>::empty());
                    }
                }
                if c != '\u{FFFD}' {
                    key.push(to_lower(c));
                }
            }
            at_start = false;
        }
        proof {
            if dotted {
                assert(ext@.subrange(1, ext@.len() as int) =~= ext@.skip(1));
            } else {
                assert(ext@.take(ext@.len() as int) =~= ext@);
            }
            assert(key@ == extension_key(ext@));
        }
        let key: &str = key.as_str();
        if same_text(key, "json5") || same_text(key, "json") {
            Some(ConfigFormat::JSON5)
        } else if same_text(key, "toml") {
            Some(ConfigFormat::TOML)
        } else if same_text(key, "yaml") || same_text(key, "yml") {
            Some(ConfigFormat::YAML)
        } else {
            None
        }
    }

    /// The canonical name of the format.
    pub fn to_string(&self) -> (r: String)
        ensures
            r@ == self.name(),
    {
        String::from_str(self.as_str())
    }

    /// The canonical name of the format, as a string slice.
    pub fn as_str(&self) -> (r: &'static str)
        ensures
            r@ == self.name(),
    {
        match self {
            ConfigFormat::JSON5 => "json5",
            ConfigFormat::TOML => "toml",
            ConfigFormat::YAML => "yaml",
        }
    }
}

impl From<ConfigFormat> for Format {
    /// The notation that files of this format are written in.
    fn from(format: ConfigFormat) -> (r: Format) {
        match format {
            ConfigFormat::JSON5 => Format::JSON5,
            ConfigFormat::TOML => Format::TOML,
            ConfigFormat::YAML => Format::YAML,
        }
    }
}

impl vstd::std_specs::convert::FromSpecImpl<ConfigFormat> for Format {
    open spec fn obeys_from_spec() -> bool {
        true
    }

    open spec fn from_spec(format: ConfigFormat) -> Format {
        match format {
            ConfigFormat::JSON5 => Format::JSON5,
            ConfigFormat::TOML => Format::TOML,
            ConfigFormat::YAML => Format::YAML,
        }
    }
}

impl Format {
    /// The encoder for this notation. Where a notation has only one, it
    /// serves for both styles.
    pub open spec fn encoder_of(self, pretty: bool) -> Encoder {
        match self {
            Format::JSON => if pretty {
                Encoder::JsonPretty
            } else {
                Encoder::Json
            },
            Format::JSON5 => Encoder::Json5,
            Format::TOML => if pretty {
                Encoder::TomlPretty
            } else {
                Encoder::Toml
            },
            Format::YAML => Encoder::Yaml,
        }
    }

    /// The encoder that writes a value in this notation, spread over lines
    /// for a reader if `pretty`, else as short as the notation's crate makes
    /// it.
    pub fn encoder(self, pretty: bool) -> (r: Encoder)
        ensures
            r == self.encoder_of(pretty),
    {
        match self {
            Format::JSON => if pretty {
                Encoder::JsonPretty
            } else {
                Encoder::Json
            },
            Format::JSON5 => Encoder::Json5,
            Format::TOML => if pretty {
                Encoder::TomlPretty
            } else {
                Encoder::Toml
            },
            Format::YAML => Encoder::Yaml,
        }
    }
}

} // verus!
