//! The dictionary files that the built-in configurations are made of.
//!
//! A deployment carries the files of the reference dictionaries along: the JSON file of
//! each configuration and the binary dictionaries that those refer to. This module knows
//! the files by name and knows which of them each configuration needs. Their contents are
//! the caller's.

use crate::config::start_of;
use crate::config::DefaultConfig;
use vstd::prelude::*;

verus! {

/// The binary dictionaries that the built-in configurations draw on.
#[derive(Debug, Copy, Clone, PartialEq, Eq, Structural)]
pub enum Dictionary {
    /// Characters in their Hong Kong forms.
    HKVariants,
    /// Hong Kong forms of characters, back to the forms that OpenCC takes as standard.
    HKVariantsRev,
    /// Phrases in which a Hong Kong form goes back to another character than usual.
    HKVariantsRevPhrases,
    /// New Japanese forms of characters (Shinjitai), back to the old forms.
    JPShinjitaiCharacters,
    /// Phrases written in new Japanese forms, back to the old forms.
    JPShinjitaiPhrases,
    /// Characters in their new Japanese forms.
    JPVariants,
    /// New Japanese forms of characters, back to the forms that OpenCC takes as standard.
    JPVariantsRev,
    /// Simplified characters to traditional ones.
    STCharacters,
    /// Simplified phrases to traditional ones.
    STPhrases,
    /// Traditional characters to simplified ones.
    TSCharacters,
    /// Traditional phrases to simplified ones.
    TSPhrases,
    /// Phrases as they are said in Taiwan.
    TWPhrases,
    /// Phrases as they are said in Taiwan, back to those of the mainland.
    TWPhrasesRev,
    /// Characters in their Taiwan forms.
    TWVariants,
    /// Taiwan forms of characters, back to the forms that OpenCC takes as standard.
    TWVariantsRev,
    /// Phrases in which a Taiwan form goes back to another character than usual.
    TWVariantsRevPhrases,
}

impl Dictionary {
    /// The name of the dictionary's file, as a sequence of characters.
    pub open spec fn file_name(self) -> Seq<char> {
        match self {
            Dictionary::HKVariants => "HKVariants.ocd2"@,
            Dictionary::HKVariantsRev => "HKVariantsRev.ocd2"@,
            Dictionary::HKVariantsRevPhrases => "HKVariantsRevPhrases.ocd2"@,
            Dictionary::JPShinjitaiCharacters => "JPShinjitaiCharacters.ocd2"@,
            Dictionary::JPShinjitaiPhrases => "JPShinjitaiPhrases.ocd2"@,
            Dictionary::JPVariants => "JPVariants.ocd2"@,
            Dictionary::JPVariantsRev => "JPVariantsRev.ocd2"@,
            Dictionary::STCharacters => "STCharacters.ocd2"@,
            Dictionary::STPhrases => "STPhrases.ocd2"@,
            Dictionary::TSCharacters => "TSCharacters.ocd2"@,
            Dictionary::TSPhrases => "TSPhrases.ocd2"@,
            Dictionary::TWPhrases => "TWPhrases.ocd2"@,
            Dictionary::TWPhrasesRev => "TWPhrasesRev.ocd2"@,
            Dictionary::TWVariants => "TWVariants.ocd2"@,
            Dictionary::TWVariantsRev => "TWVariantsRev.ocd2"@,
            Dictionary::TWVariantsRevPhrases => "TWVariantsRevPhrases.ocd2"@,
        }
    }

    /// How the file name of each dictionary begins, and how long it is.
    pub proof fn lemma_file_name_start(self)
        ensures
            start_of(self.file_name()) == match self {
                Dictionary::HKVariants => (15nat, 'H', 'K', 'V', 'a', 'r'),
                Dictionary::HKVariantsRev => (18nat, 'H', 'K', 'V', 'a', 'r'),
                Dictionary::HKVariantsRevPhrases => (25nat, 'H', 'K', 'V', 'a', 'r'),
                Dictionary::JPShinjitaiCharacters => (26nat, 'J', 'P', 'S', 'h', 'i'),
                Dictionary::JPShinjitaiPhrases => (23nat, 'J', 'P', 'S', 'h', 'i'),
                Dictionary::JPVariants => (15nat, 'J', 'P', 'V', 'a', 'r'),
                Dictionary::JPVariantsRev => (18nat, 'J', 'P', 'V', 'a', 'r'),
                Dictionary::STCharacters => (17nat, 'S', 'T', 'C', 'h', 'a'),
                Dictionary::STPhrases => (14nat, 'S', 'T', 'P', 'h', 'r'),
                Dictionary::TSCharacters => (17nat, 'T', 'S', 'C', 'h', 'a'),
                Dictionary::TSPhrases => (14nat, 'T', 'S', 'P', 'h', 'r'),
                Dictionary::TWPhrases => (14nat, 'T', 'W', 'P', 'h', 'r'),
                Dictionary::TWPhrasesRev => (17nat, 'T', 'W', 'P', 'h', 'r'),
                Dictionary::TWVariants => (15nat, 'T', 'W', 'V', 'a', 'r'),
                Dictionary::TWVariantsRev => (18nat, 'T', 'W', 'V', 'a', 'r'),
                Dictionary::TWVariantsRevPhrases => (25nat, 'T', 'W', 'V', 'a', 'r'),
            },
    {
        reveal_strlit("HKVariants.ocd2");
        reveal_strlit("HKVariantsRev.ocd2");
        reveal_strlit("HKVariantsRevPhrases.ocd2");
        reveal_strlit("JPShinjitaiCharacters.ocd2");
        reveal_strlit("JPShinjitaiPhrases.ocd2");
        reveal_strlit("JPVariants.ocd2");
        reveal_strlit("JPVariantsRev.ocd2");
        reveal_strlit("STCharacters.ocd2");
        reveal_strlit("STPhrases.ocd2");
        reveal_strlit("TSCharacters.ocd2");
        reveal_strlit("TSPhrases.ocd2");
        reveal_strlit("TWPhrases.ocd2");
        reveal_strlit("TWPhrasesRev.ocd2");
        reveal_strlit("TWVariants.ocd2");
        reveal_strlit("TWVariantsRev.ocd2");
        reveal_strlit("TWVariantsRevPhrases.ocd2");
    }

    /// Get the file name of this dictionary.
    pub fn get_file_name(self) -> (name: &'static str)
        ensures
            name@ == self.file_name(),
    {
        match self {
            Dictionary::HKVariants => "HKVariants.ocd2",
            Dictionary::HKVariantsRev => "HKVariantsRev.ocd2",
            Dictionary::HKVariantsRevPhrases => "HKVariantsRevPhrases.ocd2",
            Dictionary::JPShinjitaiCharacters => "JPShinjitaiCharacters.ocd2",
            Dictionary::JPShinjitaiPhrases => "JPShinjitaiPhrases.ocd2",
            Dictionary::JPVariants => "JPVariants.ocd2",
            Dictionary::JPVariantsRev => "JPVariantsRev.ocd2",
            Dictionary::STCharacters => "STCharacters.ocd2",
            Dictionary::STPhrases => "STPhrases.ocd2",
            Dictionary::TSCharacters => "TSCharacters.ocd2",
            Dictionary::TSPhrases => "TSPhrases.ocd2",
            Dictionary::TWPhrases => "TWPhrases.ocd2",
            Dictionary::TWPhrasesRev => "TWPhrasesRev.ocd2",
            Dictionary::TWVariants => "TWVariants.ocd2",
            Dictionary::TWVariantsRev => "TWVariantsRev.ocd2",
            Dictionary::TWVariantsRevPhrases => "TWVariantsRevPhrases.ocd2",
        }
    }
}

/// A file of the reference dictionaries: the JSON file of a configuration, or a binary
/// dictionary.
#[derive(Debug, Copy, Clone, PartialEq, Eq, Structural)]
pub enum StaticDictionary {
    /// The JSON file of a configuration.
    Config(DefaultConfig),
    /// The file of a binary dictionary.
    Dictionary(Dictionary),
}

impl StaticDictionary {
    /// The name of the file, as a sequence of characters.
    pub open spec fn file_name(self) -> Seq<char> {
        match self {
            StaticDictionary::Config(config) => config.file_name(),
            StaticDictionary::Dictionary(dictionary) => dictionary.file_name(),
        }
    }

    /// No two files share a name.
    pub proof fn lemma_file_name_injective(self, other: StaticDictionary)
        requires
            self.file_name() == other.file_name(),
        ensures
            self == other,
    {
        match self {
            StaticDictionary::Config(config) => config.lemma_file_name_start(),
            StaticDictionary::Dictionary(dictionary) => dictionary.lemma_file_name_start(),
        }
        match other {
            StaticDictionary::Config(config) => config.lemma_file_name_start(),
            StaticDictionary::Dictionary(dictionary) => dictionary.lemma_file_name_start(),
        }
    }

    /// Get the name under which the file is written.
    pub fn get_file_name(self) -> (name: &'static str)
        ensures
            name@ == self.file_name(),
    {
        match self {
            StaticDictionary::Config(config) => config.get_file_name(),
            StaticDictionary::Dictionary(dictionary) => dictionary.get_file_name(),
        }
    }
}

/// The files that are held ready, each once, in the order in which they are kept.
pub open spec fn registry_files() -> Seq<StaticDictionary> {
    seq![
        StaticDictionary::Config(DefaultConfig::HK2S),
        StaticDictionary::Config(DefaultConfig::HK2T),
        StaticDictionary::Dictionary(Dictionary::HKVariants),
        StaticDictionary::Dictionary(Dictionary::HKVariantsRev),
        StaticDictionary::Dictionary(Dictionary::HKVariantsRevPhrases),
        StaticDictionary::Config(DefaultConfig::JP2T),
        StaticDictionary::Dictionary(Dictionary::JPShinjitaiCharacters),
        StaticDictionary::Dictionary(Dictionary::JPShinjitaiPhrases),
        StaticDictionary::Dictionary(Dictionary::JPVariants),
        StaticDictionary::Dictionary(Dictionary::JPVariantsRev),
        StaticDictionary::Config(DefaultConfig::S2HK),
        StaticDictionary::Config(DefaultConfig::S2T),
        StaticDictionary::Config(DefaultConfig::S2TW),
        StaticDictionary::Config(DefaultConfig::S2TWP),
        StaticDictionary::Dictionary(Dictionary::STCharacters),
        StaticDictionary::Dictionary(Dictionary::STPhrases),
        StaticDictionary::Config(DefaultConfig::T2HK),
        StaticDictionary::Config(DefaultConfig::T2JP),
        StaticDictionary::Config(DefaultConfig::T2S),
        StaticDictionary::Config(DefaultConfig::T2TW),
        StaticDictionary::Dictionary(Dictionary::TSCharacters),
        StaticDictionary::Dictionary(Dictionary::TSPhrases),
        StaticDictionary::Config(DefaultConfig::TW2S),
        StaticDictionary::Config(DefaultConfig::TW2SP),
        StaticDictionary::Config(DefaultConfig::TW2T),
        StaticDictionary::Dictionary(Dictionary::TWPhrases),
        StaticDictionary::Dictionary(Dictionary::TWPhrasesRev),
        StaticDictionary::Dictionary(Dictionary::TWVariants),
        StaticDictionary::Dictionary(Dictionary::TWVariantsRev),
        StaticDictionary::Dictionary(Dictionary::TWVariantsRevPhrases),
    ]
}

/// The files that are held ready, each once, in the order in which they are kept.
pub fn registry() -> (files: Vec<StaticDictionary>)
    ensures
        files@ == registry_files(),
{
    vec![
        StaticDictionary::Config(DefaultConfig::HK2S),
        StaticDictionary::Config(DefaultConfig::HK2T),
        StaticDictionary::Dictionary(Dictionary::HKVariants),
        StaticDictionary::Dictionary(Dictionary::HKVariantsRev),
        StaticDictionary::Dictionary(Dictionary::HKVariantsRevPhrases),
        StaticDictionary::Config(DefaultConfig::JP2T),
        StaticDictionary::Dictionary(Dictionary::JPShinjitaiCharacters),
        StaticDictionary::Dictionary(Dictionary::JPShinjitaiPhrases),
        StaticDictionary::Dictionary(Dictionary::JPVariants),
        StaticDictionary::Dictionary(Dictionary::JPVariantsRev),
        StaticDictionary::Config(DefaultConfig::S2HK),
        StaticDictionary::Config(DefaultConfig::S2T),
        StaticDictionary::Config(DefaultConfig::S2TW),
        StaticDictionary::Config(DefaultConfig::S2TWP),
        StaticDictionary::Dictionary(Dictionary::STCharacters),
        StaticDictionary::Dictionary(Dictionary::STPhrases),
        StaticDictionary::Config(DefaultConfig::T2HK),
        StaticDictionary::Config(DefaultConfig::T2JP),
        StaticDictionary::Config(DefaultConfig::T2S),
        StaticDictionary::Config(DefaultConfig::T2TW),
        StaticDictionary::Dictionary(Dictionary::TSCharacters),
        StaticDictionary::Dictionary(Dictionary::TSPhrases),
        StaticDictionary::Config(DefaultConfig::TW2S),
        StaticDictionary::Config(DefaultConfig::TW2SP),
        StaticDictionary::Config(DefaultConfig::TW2T),
        StaticDictionary::Dictionary(Dictionary::TWPhrases),
        StaticDictionary::Dictionary(Dictionary::TWPhrasesRev),
        StaticDictionary::Dictionary(Dictionary::TWVariants),
        StaticDictionary::Dictionary(Dictionary::TWVariantsRev),
        StaticDictionary::Dictionary(Dictionary::TWVariantsRevPhrases),
    ]
}

/// The binary dictionaries that a configuration refers to, in the order in which they are
/// written.
pub open spec fn dictionaries_of(config: DefaultConfig) -> Seq<Dictionary> {
    match config {
        DefaultConfig::HK2S => seq![
            Dictionary::TSPhrases,
            Dictionary::HKVariantsRevPhrases,
            Dictionary::HKVariantsRev,
            Dictionary::TSCharacters,
        ],
        DefaultConfig::HK2T => seq![Dictionary::HKVariantsRevPhrases, Dictionary::HKVariantsRev],
        DefaultConfig::JP2T => seq![
            Dictionary::JPShinjitaiPhrases,
            Dictionary::JPShinjitaiCharacters,
            Dictionary::JPVariantsRev,
        ],
        DefaultConfig::S2HK => seq![
            Dictionary::STPhrases,
            Dictionary::STCharacters,
            Dictionary::HKVariants,
        ],
        DefaultConfig::S2T => seq![Dictionary::STPhrases, Dictionary::STCharacters],
        DefaultConfig::S2TW => seq![
            Dictionary::STPhrases,
            Dictionary::STCharacters,
            Dictionary::TWVariants,
        ],
        DefaultConfig::S2TWP => seq![
            Dictionary::STPhrases,
            Dictionary::STCharacters,
            Dictionary::TWPhrases,
            Dictionary::TWVariants,
        ],
        DefaultConfig::T2HK => seq![Dictionary::HKVariants],
        DefaultConfig::T2JP => seq![Dictionary::JPVariants],
        DefaultConfig::T2S => seq![Dictionary::TSPhrases, Dictionary::TSCharacters],
        DefaultConfig::T2TW => seq![Dictionary::TWVariants],
        DefaultConfig::TW2S => seq![
            Dictionary::TSPhrases,
            Dictionary::TWVariantsRevPhrases,
            Dictionary::TWVariantsRev,
            Dictionary::TSCharacters,
        ],
        DefaultConfig::TW2SP => seq![
            Dictionary::TSPhrases,
            Dictionary::TWPhrasesRev,
            Dictionary::TWVariantsRevPhrases,
            Dictionary::TWVariantsRev,
            Dictionary::TSCharacters,
        ],
        DefaultConfig::TW2T => seq![Dictionary::TWVariantsRevPhrases, Dictionary::TWVariantsRev],
    }
}

/// The binary dictionaries that a configuration refers to, in the order in which they are
/// written.
pub fn dictionaries(config: DefaultConfig) -> (list: Vec<Dictionary>)
    ensures
        list@ == dictionaries_of(config),
{
    match config {
        DefaultConfig::HK2S => vec![
            Dictionary::TSPhrases,
            Dictionary::HKVariantsRevPhrases,
            Dictionary::HKVariantsRev,
            Dictionary::TSCharacters,
        ],
        DefaultConfig::HK2T => vec![Dictionary::HKVariantsRevPhrases, Dictionary::HKVariantsRev],
        DefaultConfig::JP2T => vec![
            Dictionary::JPShinjitaiPhrases,
            Dictionary::JPShinjitaiCharacters,
            Dictionary::JPVariantsRev,
        ],
        DefaultConfig::S2HK => vec![
            Dictionary::STPhrases,
            Dictionary::STCharacters,
            Dictionary::HKVariants,
        ],
        DefaultConfig::S2T => vec![Dictionary::STPhrases, Dictionary::STCharacters],
        DefaultConfig::S2TW => vec![
            Dictionary::STPhrases,
            Dictionary::STCharacters,
            Dictionary::TWVariants,
        ],
        DefaultConfig::S2TWP => vec![
            Dictionary::STPhrases,
            Dictionary::STCharacters,
            Dictionary::TWPhrases,
            Dictionary::TWVariants,
        ],
        DefaultConfig::T2HK => vec![Dictionary::HKVariants],
        DefaultConfig::T2JP => vec![Dictionary::JPVariants],
        DefaultConfig::T2S => vec![Dictionary::TSPhrases, Dictionary::TSCharacters],
        DefaultConfig::T2TW => vec![Dictionary::TWVariants],
        DefaultConfig::TW2S => vec![
            Dictionary::TSPhrases,
            Dictionary::TWVariantsRevPhrases,
            Dictionary::TWVariantsRev,
            Dictionary::TSCharacters,
        ],
        DefaultConfig::TW2SP => vec![
            Dictionary::TSPhrases,
            Dictionary::TWPhrasesRev,
            Dictionary::TWVariantsRevPhrases,
            Dictionary::TWVariantsRev,
            Dictionary::TSCharacters,
        ],
        DefaultConfig::TW2T => vec![Dictionary::TWVariantsRevPhrases, Dictionary::TWVariantsRev],
    }
}

/// The files that make up a configuration, in the order in which they are written: its
/// own JSON file, then the binary dictionaries that it refers to.
pub open spec fn files_of(config: DefaultConfig) -> Seq<StaticDictionary> {
    seq![StaticDictionary::Config(config)] + dictionaries_of(config).map_values(
        |dictionary: Dictionary| StaticDictionary::Dictionary(dictionary),
    )
}

/// The list of files kept under the name of a configuration's file, if the name is one.
pub open spec fn manifest_of(config_filename: Seq<char>) -> Option<Seq<StaticDictionary>> {
    match DefaultConfig::named(config_filename) {
        Some(config) => Some(files_of(config)),
        None => None,
    }
}

/// Looks up the list of files kept under the name of a configuration's file.
pub fn manifest(config_filename: &str) -> (list: Option<Vec<StaticDictionary>>)
    ensures
        match list {
            Some(files) => manifest_of(config_filename@) == Some(files@),
            None => manifest_of(config_filename@) is None,
        },
{
    match DefaultConfig::from_file_name(config_filename) {
        Some(config) => {
            let dictionaries = dictionaries(config);
            let mut files = vec![StaticDictionary::Config(config)];
            let mut i: usize = 0;
            while i < dictionaries.len()
                invariant
                    i <= dictionaries.len(),
                    dictionaries@ == dictionaries_of(config),
                    files@ == seq![StaticDictionary::Config(config)] + dictionaries@.take(
                        i as int,
                    ).map_values(|dictionary: Dictionary| StaticDictionary::Dictionary(dictionary)),
                decreases dictionaries.len() - i,
            {
                files.push(StaticDictionary::Dictionary(dictionaries[i]));
                i += 1;
                assert(files@ =~= seq![StaticDictionary::Config(config)] + dictionaries@.take(
                    i as int,
                ).map_values(|dictionary: Dictionary| StaticDictionary::Dictionary(dictionary)));
            }
            Some(files)
        },
        None => None,
    }
}

/// No file comes twice in the list of a configuration.
pub proof fn lemma_files_of_no_duplicates(config: DefaultConfig)
    ensures
        files_of(config).no_duplicates(),
{
    let files = files_of(config);
    let dictionaries = dictionaries_of(config);
    assert forall|i: int, j: int|
        0 <= i < files.len() && 0 <= j < files.len() && i != j implies files[i] != files[j] by {
        if i > 0 && j > 0 {
            assert(dictionaries[i - 1] != dictionaries[j - 1]);
        }
    }
}

/// Under the name of each configuration's file its list of files is kept.
pub proof fn lemma_every_config_is_listed(config: DefaultConfig)
    ensures
        DefaultConfig::named(config.file_name()) == Some(config),
        manifest_of(config.file_name()) == Some(files_of(config)),
{
    let chosen = choose|other: DefaultConfig| other.file_name() == config.file_name();
    chosen.lemma_file_name_injective(config);
}

/// The place of a file in the registry.
pub open spec fn place_of(file: StaticDictionary) -> int {
    match file {
        StaticDictionary::Config(DefaultConfig::HK2S) => 0,
        StaticDictionary::Config(DefaultConfig::HK2T) => 1,
        StaticDictionary::Dictionary(Dictionary::HKVariants) => 2,
        StaticDictionary::Dictionary(Dictionary::HKVariantsRev) => 3,
        StaticDictionary::Dictionary(Dictionary::HKVariantsRevPhrases) => 4,
        StaticDictionary::Config(DefaultConfig::JP2T) => 5,
        StaticDictionary::Dictionary(Dictionary::JPShinjitaiCharacters) => 6,
        StaticDictionary::Dictionary(Dictionary::JPShinjitaiPhrases) => 7,
        StaticDictionary::Dictionary(Dictionary::JPVariants) => 8,
        StaticDictionary::Dictionary(Dictionary::JPVariantsRev) => 9,
        StaticDictionary::Config(DefaultConfig::S2HK) => 10,
        StaticDictionary::Config(DefaultConfig::S2T) => 11,
        StaticDictionary::Config(DefaultConfig::S2TW) => 12,
        StaticDictionary::Config(DefaultConfig::S2TWP) => 13,
        StaticDictionary::Dictionary(Dictionary::STCharacters) => 14,
        StaticDictionary::Dictionary(Dictionary::STPhrases) => 15,
        StaticDictionary::Config(DefaultConfig::T2HK) => 16,
        StaticDictionary::Config(DefaultConfig::T2JP) => 17,
        StaticDictionary::Config(DefaultConfig::T2S) => 18,
        StaticDictionary::Config(DefaultConfig::T2TW) => 19,
        StaticDictionary::Dictionary(Dictionary::TSCharacters) => 20,
        StaticDictionary::Dictionary(Dictionary::TSPhrases) => 21,
        StaticDictionary::Config(DefaultConfig::TW2S) => 22,
        StaticDictionary::Config(DefaultConfig::TW2SP) => 23,
        StaticDictionary::Config(DefaultConfig::TW2T) => 24,
        StaticDictionary::Dictionary(Dictionary::TWPhrases) => 25,
        StaticDictionary::Dictionary(Dictionary::TWPhrasesRev) => 26,
        StaticDictionary::Dictionary(Dictionary::TWVariants) => 27,
        StaticDictionary::Dictionary(Dictionary::TWVariantsRev) => 28,
        StaticDictionary::Dictionary(Dictionary::TWVariantsRevPhrases) => 29,
    }
}

/// The registry holds thirty files: every file at its place, and no file, and no file
/// name, at two places.
pub proof fn lemma_registry_holds_each_file_once(file: StaticDictionary)
    ensures
        registry_files().len() == 30,
        0 <= place_of(file) < 30,
        registry_files()[place_of(file)] == file,
        forall|i: int|
            0 <= i < 30 && (#[trigger] registry_files()[i]).file_name() == file.file_name() ==> i
                == place_of(file),
{
    let files = registry_files();
    assert forall|i: int| 0 <= i < 30 implies place_of(#[trigger] files[i]) == i by {}
    assert forall|i: int| 0 <= i < 30 && (#[trigger] files[i]).file_name()
        == file.file_name() implies i == place_of(file) by {
        files[i].lemma_file_name_injective(file);
    }
}

/// Every file on the list kept under the name of a configuration's file is held in the
/// registry, under a name that the registry has once.
pub proof fn lemma_listed_files_are_held(config_filename: Seq<char>, i: int)
    requires
        manifest_of(config_filename) is Some,
        0 <= i < manifest_of(config_filename)->Some_0.len(),
    ensures
        ({
            let file = manifest_of(config_filename)->Some_0[i];
            &&& 0 <= place_of(file) < registry_files().len()
            &&& registry_files()[place_of(file)].file_name() == file.file_name()
            &&& forall|j: int|
                0 <= j < registry_files().len() && (#[trigger] registry_files()[j]).file_name()
                    == file.file_name() ==> j == place_of(file)
        }),
{
    lemma_registry_holds_each_file_once(manifest_of(config_filename)->Some_0[i]);
}

} // verus!
