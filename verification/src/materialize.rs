//! Writing the files of configurations into a directory, as a plan.
//!
//! The engine opens a configuration from a directory that holds its JSON file and the
//! binary dictionaries it refers to. This module works out what is to be done so that a
//! directory holds them: whether it must be created, and which files remain to be written
//! into it, given those that it holds already. Files that are there are left as they are.
//! The looking and the writing are the caller's.

use crate::config::DefaultConfig;
use crate::dictionary::files_of;
use crate::dictionary::lemma_every_config_is_listed;
use crate::dictionary::lemma_files_of_no_duplicates;
use crate::dictionary::manifest;
use crate::dictionary::manifest_of;
use crate::dictionary::StaticDictionary;
use vstd::prelude::*;
use vstd::seq_lib::lemma_seq_concat_contains_all_elements;

verus! {

/// What lies at the path that is to hold the files.
#[derive(Debug, Copy, Clone, PartialEq, Eq, Structural)]
pub enum Target {
    /// Nothing: the directory is still to be created, with those above it.
    Missing,
    /// A directory.
    Directory,
    /// Something that is no directory.
    Occupied,
}

/// Why no files can be written.
#[derive(Debug)]
pub enum DictionaryError {
    /// The path for the files of one configuration exists but is not a directory.
    ExistsNotDirectory,
    /// The path for the files of several configurations exists but is not a directory.
    NeedsDirectory,
    /// No list of files is kept under the name of the configuration's file.
    UnsupportedConfig(String),
}

/// A [`DictionaryError`] with its text as a sequence of characters.
pub enum DictionaryErrorView {
    ExistsNotDirectory,
    NeedsDirectory,
    UnsupportedConfig(Seq<char>),
}

impl View for DictionaryError {
    type V = DictionaryErrorView;

    open spec fn view(&self) -> DictionaryErrorView {
        match self {
            DictionaryError::ExistsNotDirectory => DictionaryErrorView::ExistsNotDirectory,
            DictionaryError::NeedsDirectory => DictionaryErrorView::NeedsDirectory,
            DictionaryError::UnsupportedConfig(name) => DictionaryErrorView::UnsupportedConfig(
                name@,
            ),
        }
    }
}

impl DictionaryErrorView {
    /// The text that describes the error to a reader, `path` being the path as it is shown.
    pub open spec fn message(self, path: Seq<char>) -> Seq<char> {
        match self {
            DictionaryErrorView::ExistsNotDirectory => "The path '"@ + path
                + "' exists but is not a directory."@,
            DictionaryErrorView::NeedsDirectory =>
                "The path of static dictionaries needs to be a directory."@,
            DictionaryErrorView::UnsupportedConfig(name) =>
                "Unsupported or unknown default config: "@ + name,
        }
    }
}

impl DictionaryError {
    /// The text that describes the error to a reader, `path` being the path as it is shown.
    pub fn message(&self, path: &str) -> (text: String)
        ensures
            text@ == self@.message(path@),
    {
        match self {
            DictionaryError::ExistsNotDirectory => String::from_str("The path '").concat(
                path,
            ).concat("' exists but is not a directory."),
            DictionaryError::NeedsDirectory => String::from_str(
                "The path of static dictionaries needs to be a directory.",
            ),
            DictionaryError::UnsupportedConfig(name) => String::from_str(
                "Unsupported or unknown default config: ",
            ).concat(name.as_str()),
        }
    }
}

/// What is to be done so that a directory holds the files asked for.
#[derive(Debug)]
pub struct Materialization {
    /// Whether the directory is to be created first, with those above it.
    pub create_directory: bool,
    /// The files to write, in this order. None of them is there yet, and none comes twice.
    pub files: Vec<StaticDictionary>,
}

/// The test "is not among `present`".
pub open spec fn absent_from(present: Set<StaticDictionary>) -> spec_fn(StaticDictionary) -> bool {
    |file: StaticDictionary| !present.contains(file)
}

/// Those of `files` that are not among `present`, in the order of `files`.
pub open spec fn missing(files: Seq<StaticDictionary>, present: Set<StaticDictionary>) -> Seq<
    StaticDictionary,
> {
    files.filter(absent_from(present))
}

/// The files to write for the configurations, taken one after the other: for each, those
/// of its files that are neither among `present` nor written for an earlier one.
pub open spec fn missing_of_all(
    configs: Seq<DefaultConfig>,
    present: Set<StaticDictionary>,
) -> Seq<StaticDictionary>
    decreases configs.len(),
{
    if configs.len() == 0 {
        Seq::empty()
    } else {
        let earlier = missing_of_all(configs.drop_last(), present);
        earlier + missing(files_of(configs.last()), present + earlier.to_set())
    }
}

/// Tells whether the file is among `files`.
fn holds(files: &[StaticDictionary], file: StaticDictionary) -> (found: bool)
    ensures
        found == files@.contains(file),
{
    let mut i: usize = 0;
    while i < files.len()
        invariant
            i <= files.len(),
            forall|j: int| 0 <= j < i ==> files@[j] != file,
        decreases files.len() - i,
    {
        if files[i] == file {
            return true;
        }
        i += 1;
    }
    false
}

/// Adds to `files` those files on the list kept under the name of a configuration's file
/// that are neither among `present` nor in `files` already. Where no list is kept under
/// the name, nothing is added.
pub fn generate_static_dictionary_inner(
    present: &[StaticDictionary],
    config_filename: &str,
    files: &mut Vec<StaticDictionary>,
) -> (result: Result<(), DictionaryError>)
    ensures
        match manifest_of(config_filename@) {
            Some(list) => result is Ok && final(files)@ == old(files)@ + missing(
                list,
                present@.to_set() + old(files)@.to_set(),
            ),
            None => result matches Err(error) && error@ == DictionaryErrorView::UnsupportedConfig(
                config_filename@,
            ) && final(files)@ == old(files)@,
        },
{
    match manifest(config_filename) {
        Some(dictionaries_to_write) => {
            let ghost config = DefaultConfig::named(config_filename@)->Some_0;
            let ghost known = present@.to_set() + old(files)@.to_set();
            let ghost before = old(files)@;
            let mut i: usize = 0;
            assert(missing(Seq::empty(), known) =~= Seq::empty()) by {
                reveal(Seq::filter);
            }
            while i < dictionaries_to_write.len()
                invariant
                    i <= dictionaries_to_write.len(),
                    dictionaries_to_write@ == files_of(config),
                    known == present@.to_set() + before.to_set(),
                    files@ == before + missing(dictionaries_to_write@.take(i as int), known),
                decreases dictionaries_to_write.len() - i,
            {
                let data = dictionaries_to_write[i];
                let ghost done = dictionaries_to_write@.take(i as int);
                let there = holds(present, data) || holds(files.as_slice(), data);
                proof {
                    // the file at hand is among `files` only where it was there before:
                    // what `files` has gained stood earlier on the list, where the file
                    // does not stand a second time
                    lemma_files_of_no_duplicates(config);
                    let found = missing(done, known);
                    if found.contains(data) {
                        done.lemma_filter_contains_rev(absent_from(known), data);
                        let k = choose|k: int| 0 <= k < done.len() && done[k] == data;
                        assert(dictionaries_to_write@[k] == dictionaries_to_write@[i as int]);
                    }
                    lemma_seq_concat_contains_all_elements(before, found, data);
                    assert(there == known.contains(data));
                    done.lemma_filter_push(data, absent_from(known));
                    assert(dictionaries_to_write@.take(i + 1) =~= done.push(data));
                }
                if !there {
                    files.push(data);
                }
                i += 1;
            }
            assert(dictionaries_to_write@.take(i as int) =~= dictionaries_to_write@);
            Ok(())
        },
        None => Err(DictionaryError::UnsupportedConfig(String::from_str(config_filename))),
    }
}

/// Generate files for a specific dictionary: says what is to be done so that the target
/// holds the files of the configuration, `present` being those that it holds already.
/// These files are used for opening a new OpenCC instance.
pub fn generate_static_dictionary(
    target: Target,
    present: &[StaticDictionary],
    config: DefaultConfig,
) -> (result: Result<Materialization, DictionaryError>)
    ensures
        match result {
            Ok(plan) => {
                &&& target != Target::Occupied
                &&& plan.create_directory == (target == Target::Missing)
                &&& plan.files@ == missing(files_of(config), present@.to_set())
            },
            Err(error) => target == Target::Occupied && error@
                == DictionaryErrorView::ExistsNotDirectory,
        },
{
    let create_directory = match target {
        Target::Occupied => {
            return Err(DictionaryError::ExistsNotDirectory);
        },
        Target::Directory => false,
        Target::Missing => true,
    };
    let mut files: Vec<StaticDictionary> = Vec::new();
    assert(present@.to_set() + files@.to_set() =~= present@.to_set());
    proof {
        lemma_every_config_is_listed(config);
    }
    match generate_static_dictionary_inner(present, config.get_file_name(), &mut files) {
        Ok(_) => Ok(Materialization { create_directory, files }),
        Err(error) => Err(error),
    }
}

/// Generate files for specific dictionaries: says what is to be done so that the target
/// holds the files of each of the configurations, `present` being those that it holds
/// already. These files are used for opening a new OpenCC instance.
pub fn generate_static_dictionaries(
    target: Target,
    present: &[StaticDictionary],
    configs: &[DefaultConfig],
) -> (result: Result<Materialization, DictionaryError>)
    ensures
        match result {
            Ok(plan) => {
                &&& target != Target::Occupied
                &&& plan.create_directory == (target == Target::Missing)
                &&& plan.files@ == missing_of_all(configs@, present@.to_set())
            },
            Err(error) => target == Target::Occupied && error@
                == DictionaryErrorView::NeedsDirectory,
        },
{
    let create_directory = match target {
        Target::Occupied => {
            return Err(DictionaryError::NeedsDirectory);
        },
        Target::Directory => false,
        Target::Missing => true,
    };
    let mut files: Vec<StaticDictionary> = Vec::new();
    let mut i: usize = 0;
    while i < configs.len()
        invariant
            i <= configs.len(),
            files@ == missing_of_all(configs@.take(i as int), present@.to_set()),
        decreases configs.len() - i,
    {
        proof {
            lemma_every_config_is_listed(configs@[i as int]);
        }
        match generate_static_dictionary_inner(present, configs[i].get_file_name(), &mut files) {
            Ok(_) => {},
            Err(error) => {
                return Err(error);
            },
        }
        proof {
            let next = configs@.take(i + 1);
            assert(next.drop_last() =~= configs@.take(i as int));
        }
        i += 1;
    }
    assert(configs@.take(i as int) =~= configs@);
    Ok(Materialization { create_directory, files })
}

/// Those of the files that a directory holds, the directory being given by the contents
/// that it has under each name.
pub open spec fn present_in(directory: Map<Seq<char>, Seq<u8>>) -> Set<StaticDictionary> {
    Set::new(|file: StaticDictionary| directory.contains_key(file.file_name()))
}

/// The directory after the files have been written into it one after the other, each
/// under its name and with the contents that `contents` gives for it.
pub open spec fn after_writing(
    directory: Map<Seq<char>, Seq<u8>>,
    files: Seq<StaticDictionary>,
    contents: spec_fn(StaticDictionary) -> Seq<u8>,
) -> Map<Seq<char>, Seq<u8>>
    decreases files.len(),
{
    if files.len() == 0 {
        directory
    } else {
        after_writing(directory, files.drop_last(), contents).insert(
            files.last().file_name(),
            contents(files.last()),
        )
    }
}

/// The directory after the files of a configuration have been generated into it: those
/// that it did not hold have been written.
pub open spec fn after_generating(
    directory: Map<Seq<char>, Seq<u8>>,
    config: DefaultConfig,
    contents: spec_fn(StaticDictionary) -> Seq<u8>,
) -> Map<Seq<char>, Seq<u8>> {
    after_writing(directory, missing(files_of(config), present_in(directory)), contents)
}

/// True when one of the files has the name.
pub open spec fn is_named(files: Seq<StaticDictionary>, name: Seq<char>) -> bool {
    exists|i: int| 0 <= i < files.len() && (#[trigger] files[i]).file_name() == name
}

/// Writing files adds their names to those of the directory, and no others.
pub proof fn lemma_after_writing_names(
    directory: Map<Seq<char>, Seq<u8>>,
    files: Seq<StaticDictionary>,
    contents: spec_fn(StaticDictionary) -> Seq<u8>,
    name: Seq<char>,
)
    ensures
        after_writing(directory, files, contents).contains_key(name) <==> directory.contains_key(
            name,
        ) || is_named(files, name),
    decreases files.len(),
{
    if files.len() > 0 {
        let earlier = files.drop_last();
        lemma_after_writing_names(directory, earlier, contents, name);
        if is_named(earlier, name) {
            let i = choose|i: int|
                0 <= i < earlier.len() && (#[trigger] earlier[i]).file_name() == name;
            assert(files[i].file_name() == name);
        }
        if is_named(files, name) && files.last().file_name() != name {
            let i = choose|i: int|
                0 <= i < files.len() && (#[trigger] files[i]).file_name() == name;
            assert(earlier[i].file_name() == name);
        }
        if files.last().file_name() == name {
            assert(files[files.len() - 1].file_name() == name);
        }
    }
}

/// Writing files leaves what the directory has under every other name as it is.
pub proof fn lemma_after_writing_keeps(
    directory: Map<Seq<char>, Seq<u8>>,
    files: Seq<StaticDictionary>,
    contents: spec_fn(StaticDictionary) -> Seq<u8>,
    name: Seq<char>,
)
    requires
        directory.contains_key(name),
        !is_named(files, name),
    ensures
        after_writing(directory, files, contents).contains_key(name),
        after_writing(directory, files, contents)[name] == directory[name],
    decreases files.len(),
{
    if files.len() > 0 {
        let earlier = files.drop_last();
        if is_named(earlier, name) {
            let i = choose|i: int|
                0 <= i < earlier.len() && (#[trigger] earlier[i]).file_name() == name;
            assert(files[i].file_name() == name);
        }
        lemma_after_writing_keeps(directory, earlier, contents, name);
        assert(files[files.len() - 1].file_name() != name);
    }
}

/// A file that has been written has the contents that were given for it.
pub proof fn lemma_after_writing_contents(
    directory: Map<Seq<char>, Seq<u8>>,
    files: Seq<StaticDictionary>,
    contents: spec_fn(StaticDictionary) -> Seq<u8>,
    i: int,
)
    requires
        0 <= i < files.len(),
    ensures
        after_writing(directory, files, contents).contains_key(files[i].file_name()),
        after_writing(directory, files, contents)[files[i].file_name()] == contents(files[i]),
    decreases files.len(),
{
    if i < files.len() - 1 {
        lemma_after_writing_contents(directory, files.drop_last(), contents, i);
        if files.last().file_name() == files[i].file_name() {
            files.last().lemma_file_name_injective(files[i]);
        }
    }
}

/// The files that are missing are files of the list that are not present.
pub proof fn lemma_missing_are_absent(
    files: Seq<StaticDictionary>,
    present: Set<StaticDictionary>,
    i: int,
)
    requires
        0 <= i < missing(files, present).len(),
    ensures
        files.contains(missing(files, present)[i]),
        !present.contains(missing(files, present)[i]),
{
    let found = missing(files, present);
    files.lemma_filter_pred(absent_from(present), i);
    assert(found.contains(found[i]));
    files.lemma_filter_contains_rev(absent_from(present), found[i]);
}

/// Once the files of a configuration have been generated into a directory, the directory
/// holds each of them, the configuration's own JSON file among them.
pub proof fn lemma_after_generating_holds_every_file(
    directory: Map<Seq<char>, Seq<u8>>,
    config: DefaultConfig,
    contents: spec_fn(StaticDictionary) -> Seq<u8>,
)
    ensures
        forall|i: int|
            0 <= i < files_of(config).len() ==> after_generating(
                directory,
                config,
                contents,
            ).contains_key((#[trigger] files_of(config)[i]).file_name()),
        after_generating(directory, config, contents).contains_key(config.file_name()),
{
    let files = files_of(config);
    let found = missing(files, present_in(directory));
    assert forall|i: int| 0 <= i < files.len() implies after_generating(
        directory,
        config,
        contents,
    ).contains_key((#[trigger] files[i]).file_name()) by {
        lemma_after_writing_names(directory, found, contents, files[i].file_name());
        if !directory.contains_key(files[i].file_name()) {
            files.lemma_filter_contains(absent_from(present_in(directory)), i);
            let j = choose|j: int| 0 <= j < found.len() && found[j] == files[i];
            assert(found[j].file_name() == files[i].file_name());
        }
    }
    assert(files[0] == StaticDictionary::Config(config));
}

/// Generating the files of a configuration into a directory leaves every file that was
/// there as it was, and gives every file that it writes the contents given for it.
pub proof fn lemma_after_generating_contents(
    directory: Map<Seq<char>, Seq<u8>>,
    config: DefaultConfig,
    contents: spec_fn(StaticDictionary) -> Seq<u8>,
    name: Seq<char>,
)
    requires
        after_generating(directory, config, contents).contains_key(name),
    ensures
        directory.contains_key(name) ==> after_generating(directory, config, contents)[name]
            == directory[name],
        !directory.contains_key(name) ==> exists|i: int|
            0 <= i < files_of(config).len() && (#[trigger] files_of(config)[i]).file_name() == name
                && after_generating(directory, config, contents)[name] == contents(
                files_of(config)[i],
            ),
{
    let files = files_of(config);
    let found = missing(files, present_in(directory));
    if directory.contains_key(name) {
        if is_named(found, name) {
            let i = choose|i: int|
                0 <= i < found.len() && (#[trigger] found[i]).file_name() == name;
            lemma_missing_are_absent(files, present_in(directory), i);
        }
        lemma_after_writing_keeps(directory, found, contents, name);
    } else {
        lemma_after_writing_names(directory, found, contents, name);
        let j = choose|j: int| 0 <= j < found.len() && (#[trigger] found[j]).file_name() == name;
        lemma_after_writing_contents(directory, found, contents, j);
        lemma_missing_are_absent(files, present_in(directory), j);
        let i = choose|i: int| 0 <= i < files.len() && files[i] == found[j];
        assert(files[i].file_name() == name);
    }
}

/// Generating the files of a configuration a second time changes nothing: the directory
/// is left as the first time left it.
pub proof fn lemma_generating_twice_is_generating_once(
    directory: Map<Seq<char>, Seq<u8>>,
    config: DefaultConfig,
    contents: spec_fn(StaticDictionary) -> Seq<u8>,
)
    ensures
        missing(files_of(config), present_in(after_generating(directory, config, contents)))
            == Seq::<StaticDictionary>::empty(),
        after_generating(after_generating(directory, config, contents), config, contents)
            == after_generating(directory, config, contents),
{
    let files = files_of(config);
    let once = after_generating(directory, config, contents);
    let left = missing(files, present_in(once));
    lemma_after_generating_holds_every_file(directory, config, contents);
    if left.len() > 0 {
        // a file that were still missing would be one of the list, all of which are there
        lemma_missing_are_absent(files, present_in(once), 0);
        let i = choose|i: int| 0 <= i < files.len() && files[i] == left[0];
        assert(once.contains_key(files[i].file_name()));
    }
    assert(left =~= Seq::<StaticDictionary>::empty());
}

/// Of a list in which no file comes twice, the missing files are listed once each, and
/// none of them is present.
pub proof fn lemma_missing_once(files: Seq<StaticDictionary>, present: Set<StaticDictionary>)
    requires
        files.no_duplicates(),
    ensures
        missing(files, present).no_duplicates(),
        forall|i: int|
            0 <= i < missing(files, present).len() ==> !present.contains(
                #[trigger] missing(files, present)[i],
            ),
    decreases files.len(),
{
    let found = missing(files, present);
    assert forall|i: int| 0 <= i < found.len() implies !present.contains(#[trigger] found[i]) by {
        lemma_missing_are_absent(files, present, i);
    }
    if files.len() == 0 {
        files.lemma_filter_len(absent_from(present));
    } else {
        let earlier = files.drop_last();
        let before = missing(earlier, present);
        lemma_missing_once(earlier, present);
        earlier.lemma_filter_push(files.last(), absent_from(present));
        assert(earlier.push(files.last()) =~= files);
        if before.contains(files.last()) {
            // the last file would stand on the list a second time
            earlier.lemma_filter_contains_rev(absent_from(present), files.last());
            let k = choose|k: int| 0 <= k < earlier.len() && earlier[k] == files.last();
            assert(files[k] == files[files.len() - 1]);
        }
        assert forall|i: int, j: int|
            0 <= i < found.len() && 0 <= j < found.len() && i != j implies found[i] != found[j] by {
            if i == before.len() {
                assert(before.contains(before[j]));
            } else if j == before.len() {
                assert(before.contains(before[i]));
            }
        }
    }
}

/// For one configuration alone, the files to write are those of its files that are
/// missing.
pub proof fn lemma_missing_of_all_for_one(config: DefaultConfig, present: Set<StaticDictionary>)
    ensures
        missing_of_all(seq![config], present) == missing(files_of(config), present),
{
    let configs = seq![config];
    let earlier = missing_of_all(configs.drop_last(), present);
    assert(earlier =~= Seq::<StaticDictionary>::empty());
    assert(present + earlier.to_set() =~= present);
}

/// The files to write for several configurations are listed once each, and none of them
/// is present.
pub proof fn lemma_missing_of_all_once(
    configs: Seq<DefaultConfig>,
    present: Set<StaticDictionary>,
)
    ensures
        missing_of_all(configs, present).no_duplicates(),
        forall|i: int|
            0 <= i < missing_of_all(configs, present).len() ==> !present.contains(
                #[trigger] missing_of_all(configs, present)[i],
            ),
    decreases configs.len(),
{
    if configs.len() > 0 {
        let earlier = missing_of_all(configs.drop_last(), present);
        let known = present + earlier.to_set();
        let next = missing(files_of(configs.last()), known);
        let all = missing_of_all(configs, present);
        lemma_missing_of_all_once(configs.drop_last(), present);
        lemma_files_of_no_duplicates(configs.last());
        lemma_missing_once(files_of(configs.last()), known);
        // what comes next is neither present nor among the earlier files
        assert forall|i: int| 0 <= i < next.len() implies !present.contains(#[trigger] next[i])
            && !earlier.contains(next[i]) by {
            assert(!known.contains(next[i]));
        }
        assert forall|i: int| 0 <= i < all.len() implies !present.contains(#[trigger] all[i]) by {
            if i >= earlier.len() {
                assert(all[i] == next[i - earlier.len()]);
            }
        }
        assert forall|i: int, j: int|
            0 <= i < all.len() && 0 <= j < all.len() && i != j implies all[i] != all[j] by {
            if i < earlier.len() && j >= earlier.len() {
                assert(all[j] == next[j - earlier.len()]);
                assert(earlier.contains(earlier[i]));
            } else if j < earlier.len() && i >= earlier.len() {
                assert(all[i] == next[i - earlier.len()]);
                assert(earlier.contains(earlier[j]));
            }
        }
    }
}

/// Every file of every one of the configurations is present or among the files to write.
pub proof fn lemma_missing_of_all_covers(
    configs: Seq<DefaultConfig>,
    present: Set<StaticDictionary>,
    k: int,
    i: int,
)
    requires
        0 <= k < configs.len(),
        0 <= i < files_of(configs[k]).len(),
    ensures
        present.contains(files_of(configs[k])[i]) || missing_of_all(configs, present).contains(
            files_of(configs[k])[i],
        ),
    decreases configs.len(),
{
    let file = files_of(configs[k])[i];
    let earlier = missing_of_all(configs.drop_last(), present);
    let known = present + earlier.to_set();
    let next = missing(files_of(configs.last()), known);
    lemma_seq_concat_contains_all_elements(earlier, next, file);
    if k < configs.len() - 1 {
        assert(configs.drop_last()[k] == configs[k]);
        lemma_missing_of_all_covers(configs.drop_last(), present, k, i);
    } else if !known.contains(file) {
        files_of(configs.last()).lemma_filter_contains(absent_from(known), i);
    }
}

} // verus!
