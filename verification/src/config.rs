//! The built-in conversion configurations and their file names.

use crate::text::same_text;
use std::path::Path;
use vstd::prelude::*;

verus! {

/// Default configs.
#[derive(Debug, Copy, Clone, PartialEq, Eq, Structural)]
pub enum DefaultConfig {
    /// Traditional Chinese (Hong Kong Standard) to Simplified Chinese
    HK2S,
    /// Traditional Chinese (Hong Kong Standard) to Traditional Chinese
    HK2T,
    /// New Japanese Kanji (Shinjitai) to Traditional Chinese Characters (Kyūjitai)
    JP2T,
    /// Simplified Chinese to Traditional Chinese
    S2T,
    /// Simplified Chinese to Traditional Chinese (Taiwan Standard)
    S2TW,
    /// Simplified Chinese to Traditional Chinese (Taiwan Standard) with Taiwanese idiom
    S2TWP,
    /// Traditional Chinese (OpenCC Standard) to Hong Kong Standard
    T2HK,
    /// Traditional Chinese Characters (Kyūjitai) to New Japanese Kanji (Shinjitai)
    T2JP,
    /// Traditional Chinese (OpenCC Standard) to Taiwan Standard
    T2TW,
    /// Traditional Chinese to Simplified Chinese
    T2S,
    /// Simplified Chinese to Traditional Chinese (Hong Kong Standard)
    S2HK,
    /// Traditional Chinese (Taiwan Standard) to Simplified Chinese
    TW2S,
    /// Traditional Chinese (Taiwan Standard) to Simplified Chinese with Mainland Chinese idiom
    TW2SP,
    /// Traditional Chinese (Taiwan Standard) to Traditional Chinese
    TW2T,
}

/// The length of a file name and its first five characters, by which the names of the
/// reference files are told apart.
pub open spec fn start_of(name: Seq<char>) -> (nat, char, char, char, char, char) {
    (name.len(), name[0], name[1], name[2], name[3], name[4])
}

impl DefaultConfig {
    /// The canonical file name of this configuration, as a sequence of characters.
    pub open spec fn file_name(self) -> Seq<char> {
        match self {
            DefaultConfig::HK2S => "hk2s.json"@,
            DefaultConfig::HK2T => "hk2t.json"@,
            DefaultConfig::JP2T => "jp2t.json"@,
            DefaultConfig::S2HK => "s2hk.json"@,
            DefaultConfig::S2T => "s2t.json"@,
            DefaultConfig::S2TW => "s2tw.json"@,
            DefaultConfig::S2TWP => "s2twp.json"@,
            DefaultConfig::T2HK => "t2hk.json"@,
            DefaultConfig::T2JP => "t2jp.json"@,
            DefaultConfig::T2S => "t2s.json"@,
            DefaultConfig::T2TW => "t2tw.json"@,
            DefaultConfig::TW2S => "tw2s.json"@,
            DefaultConfig::TW2SP => "tw2sp.json"@,
            DefaultConfig::TW2T => "tw2t.json"@,
        }
    }

    /// The configuration whose file has the given name, if there is one.
    pub open spec fn named(name: Seq<char>) -> Option<DefaultConfig> {
        if exists|config: DefaultConfig| config.file_name() == name {
            Some(choose|config: DefaultConfig| config.file_name() == name)
        } else {
            None
        }
    }

    /// No two configurations share a file name.
    pub proof fn lemma_file_name_injective(self, other: DefaultConfig)
        requires
            self.file_name() == other.file_name(),
        ensures
            self == other,
    {
        self.lemma_file_name_start();
        other.lemma_file_name_start();
    }

    /// How the file name of each configuration begins, and how long it is.
    pub proof fn lemma_file_name_start(self)
        ensures
            start_of(self.file_name()) == match self {
                DefaultConfig::HK2S => (9nat, 'h', 'k', '2', 's', '.'),
                DefaultConfig::HK2T => (9nat, 'h', 'k', '2', 't', '.'),
                DefaultConfig::JP2T => (9nat, 'j', 'p', '2', 't', '.'),
                DefaultConfig::S2HK => (9nat, 's', '2', 'h', 'k', '.'),
                DefaultConfig::S2T => (8nat, 's', '2', 't', '.', 'j'),
                DefaultConfig::S2TW => (9nat, 's', '2', 't', 'w', '.'),
                DefaultConfig::S2TWP => (10nat, 's', '2', 't', 'w', 'p'),
                DefaultConfig::T2HK => (9nat, 't', '2', 'h', 'k', '.'),
                DefaultConfig::T2JP => (9nat, 't', '2', 'j', 'p', '.'),
                DefaultConfig::T2S => (8nat, 't', '2', 's', '.', 'j'),
                DefaultConfig::T2TW => (9nat, 't', '2', 't', 'w', '.'),
                DefaultConfig::TW2S => (9nat, 't', 'w', '2', 's', '.'),
                DefaultConfig::TW2SP => (10nat, 't', 'w', '2', 's', 'p'),
                DefaultConfig::TW2T => (9nat, 't', 'w', '2', 't', '.'),
            },
    {
        reveal_strlit("hk2s.json");
        reveal_strlit("hk2t.json");
        reveal_strlit("jp2t.json");
        reveal_strlit("s2hk.json");
        reveal_strlit("s2t.json");
        reveal_strlit("s2tw.json");
        reveal_strlit("s2twp.json");
        reveal_strlit("t2hk.json");
        reveal_strlit("t2jp.json");
        reveal_strlit("t2s.json");
        reveal_strlit("t2tw.json");
        reveal_strlit("tw2s.json");
        reveal_strlit("tw2sp.json");
        reveal_strlit("tw2t.json");
    }

    /// The file name of each configuration is written without capitals and ends in
    /// `.json`.
    pub proof fn lemma_file_name_is_json(self)
        ensures
            self.file_name().len() > 5,
            self.file_name().skip(self.file_name().len() - 5) == ".json"@,
            forall|i: int|
                0 <= i < self.file_name().len() ==> !('A' <= #[trigger] self.file_name()[i]
                    <= 'Z'),
    {
        reveal_strlit(".json");
        reveal_strlit("hk2s.json");
        reveal_strlit("hk2t.json");
        reveal_strlit("jp2t.json");
        reveal_strlit("s2hk.json");
        reveal_strlit("s2t.json");
        reveal_strlit("s2tw.json");
        reveal_strlit("s2twp.json");
        reveal_strlit("t2hk.json");
        reveal_strlit("t2jp.json");
        reveal_strlit("t2s.json");
        reveal_strlit("t2tw.json");
        reveal_strlit("tw2s.json");
        reveal_strlit("tw2sp.json");
        reveal_strlit("tw2t.json");
    }

    /// Get the file name for this default config.
    pub fn get_file_name(self) -> (name: &'static str)
        ensures
            name@ == self.file_name(),
    {
        match self {
            DefaultConfig::HK2S => "hk2s.json",
            DefaultConfig::HK2T => "hk2t.json",
            DefaultConfig::JP2T => "jp2t.json",
            DefaultConfig::S2HK => "s2hk.json",
            DefaultConfig::S2T => "s2t.json",
            DefaultConfig::S2TW => "s2tw.json",
            DefaultConfig::S2TWP => "s2twp.json",
            DefaultConfig::T2HK => "t2hk.json",
            DefaultConfig::T2JP => "t2jp.json",
            DefaultConfig::T2S => "t2s.json",
            DefaultConfig::T2TW => "t2tw.json",
            DefaultConfig::TW2S => "tw2s.json",
            DefaultConfig::TW2SP => "tw2sp.json",
            DefaultConfig::TW2T => "tw2t.json",
        }
    }

    /// Finds the configuration whose file has the given name.
    pub fn from_file_name(name: &str) -> (found: Option<DefaultConfig>)
        ensures
            found == DefaultConfig::named(name@),
    {
        let found = if same_text(name, "hk2s.json") {
            Some(DefaultConfig::HK2S)
        } else if same_text(name, "hk2t.json") {
            Some(DefaultConfig::HK2T)
        } else if same_text(name, "jp2t.json") {
            Some(DefaultConfig::JP2T)
        } else if same_text(name, "s2hk.json") {
            Some(DefaultConfig::S2HK)
        } else if same_text(name, "s2t.json") {
            Some(DefaultConfig::S2T)
        } else if same_text(name, "s2tw.json") {
            Some(DefaultConfig::S2TW)
        } else if same_text(name, "s2twp.json") {
            Some(DefaultConfig::S2TWP)
        } else if same_text(name, "t2hk.json") {
            Some(DefaultConfig::T2HK)
        } else if same_text(name, "t2jp.json") {
            Some(DefaultConfig::T2JP)
        } else if same_text(name, "t2s.json") {
            Some(DefaultConfig::T2S)
        } else if same_text(name, "t2tw.json") {
            Some(DefaultConfig::T2TW)
        } else if same_text(name, "tw2s.json") {
            Some(DefaultConfig::TW2S)
        } else if same_text(name, "tw2sp.json") {
            Some(DefaultConfig::TW2SP)
        } else if same_text(name, "tw2t.json") {
            Some(DefaultConfig::TW2T)
        } else {
            None
        };
        proof {
            match found {
                Some(config) => {
                    assert(config.file_name() == name@);
                    let chosen = choose|config: DefaultConfig| config.file_name() == name@;
                    chosen.lemma_file_name_injective(config);
                },
                None => {
                    assert forall|config: DefaultConfig| config.file_name() != name@ by {}
                },
            }
        }
        found
    }
}

impl AsRef<str> for DefaultConfig {
    /// The file name.
    fn as_ref(&self) -> (name: &str)
        ensures
            str::view(name) == self.file_name(),
    {
        self.get_file_name()
    }
}

/// A path of the file system, as std has it. Nothing is read from it.
#[verifier::external_type_specification]
#[verifier::external_body]
pub struct ExPath(Path);

/// What `Path::new` makes of a text: the path that is written as the text is.
pub uninterp spec fn path_written(text: Seq<char>) -> &'static Path;

/// True when the path is the one that is written as the text is.
pub open spec fn is_written(path: &Path, text: Seq<char>) -> bool {
    path == path_written(text)
}

/// `Path::new` on a string slice: the slice, taken as a path. The path depends on the text
/// of the slice alone.
#[verifier::external_body]
fn path_of(name: &str) -> (path: &Path)
    ensures
        path == path_written(name@),
{
    Path::new(name)
}

impl AsRef<Path> for DefaultConfig {
    /// The file name as a relative path.
    fn as_ref(&self) -> (path: &Path)
        ensures
            is_written(path, self.file_name()),
    {
        path_of(self.get_file_name())
    }
}

} // verus!
