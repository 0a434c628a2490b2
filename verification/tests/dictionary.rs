use opencc_rust_windows::dictionary::dictionaries;
use opencc_rust_windows::dictionary::manifest;
use opencc_rust_windows::dictionary::registry;
use opencc_rust_windows::dictionary::Dictionary;
use opencc_rust_windows::{DefaultConfig, StaticDictionary};

fn names(files: &[StaticDictionary]) -> Vec<&'static str> {
    files.iter().map(|file| file.get_file_name()).collect()
}

#[test]
fn registry_holds_thirty_files() {
    assert_eq!(
        vec![
            "hk2s.json",
            "hk2t.json",
            "HKVariants.ocd2",
            "HKVariantsRev.ocd2",
            "HKVariantsRevPhrases.ocd2",
            "jp2t.json",
            "JPShinjitaiCharacters.ocd2",
            "JPShinjitaiPhrases.ocd2",
            "JPVariants.ocd2",
            "JPVariantsRev.ocd2",
            "s2hk.json",
            "s2t.json",
            "s2tw.json",
            "s2twp.json",
            "STCharacters.ocd2",
            "STPhrases.ocd2",
            "t2hk.json",
            "t2jp.json",
            "t2s.json",
            "t2tw.json",
            "TSCharacters.ocd2",
            "TSPhrases.ocd2",
            "tw2s.json",
            "tw2sp.json",
            "tw2t.json",
            "TWPhrases.ocd2",
            "TWPhrasesRev.ocd2",
            "TWVariants.ocd2",
            "TWVariantsRev.ocd2",
            "TWVariantsRevPhrases.ocd2",
        ],
        names(&registry())
    );
}

#[test]
fn registry_holds_fourteen_configs_and_sixteen_dictionaries() {
    let files = registry();
    assert_eq!(30, files.len());
    let configs = files.iter().filter(|file| matches!(file, StaticDictionary::Config(_))).count();
    let dictionaries =
        files.iter().filter(|file| matches!(file, StaticDictionary::Dictionary(_))).count();
    assert_eq!(14, configs);
    assert_eq!(16, dictionaries);
    for file in &files {
        match file {
            StaticDictionary::Config(_) => assert!(file.get_file_name().ends_with(".json")),
            StaticDictionary::Dictionary(_) => assert!(file.get_file_name().ends_with(".ocd2")),
        }
    }
}

#[test]
fn registry_holds_each_name_once() {
    let files = registry();
    for (i, a) in files.iter().enumerate() {
        for (j, b) in files.iter().enumerate() {
            assert_eq!(i == j, a.get_file_name() == b.get_file_name());
            assert_eq!(i == j, a == b);
        }
    }
}

#[test]
fn manifest_of_each_config() {
    assert_eq!(
        vec![
            "hk2s.json",
            "TSPhrases.ocd2",
            "HKVariantsRevPhrases.ocd2",
            "HKVariantsRev.ocd2",
            "TSCharacters.ocd2"
        ],
        names(&manifest("hk2s.json").unwrap())
    );
    assert_eq!(
        vec!["hk2t.json", "HKVariantsRevPhrases.ocd2", "HKVariantsRev.ocd2"],
        names(&manifest("hk2t.json").unwrap())
    );
    assert_eq!(
        vec![
            "jp2t.json",
            "JPShinjitaiPhrases.ocd2",
            "JPShinjitaiCharacters.ocd2",
            "JPVariantsRev.ocd2"
        ],
        names(&manifest("jp2t.json").unwrap())
    );
    assert_eq!(
        vec!["s2hk.json", "STPhrases.ocd2", "STCharacters.ocd2", "HKVariants.ocd2"],
        names(&manifest("s2hk.json").unwrap())
    );
    assert_eq!(
        vec!["s2t.json", "STPhrases.ocd2", "STCharacters.ocd2"],
        names(&manifest("s2t.json").unwrap())
    );
    assert_eq!(
        vec!["s2tw.json", "STPhrases.ocd2", "STCharacters.ocd2", "TWVariants.ocd2"],
        names(&manifest("s2tw.json").unwrap())
    );
    assert_eq!(
        vec![
            "s2twp.json",
            "STPhrases.ocd2",
            "STCharacters.ocd2",
            "TWPhrases.ocd2",
            "TWVariants.ocd2"
        ],
        names(&manifest("s2twp.json").unwrap())
    );
    assert_eq!(vec!["t2hk.json", "HKVariants.ocd2"], names(&manifest("t2hk.json").unwrap()));
    assert_eq!(vec!["t2jp.json", "JPVariants.ocd2"], names(&manifest("t2jp.json").unwrap()));
    assert_eq!(
        vec!["t2s.json", "TSPhrases.ocd2", "TSCharacters.ocd2"],
        names(&manifest("t2s.json").unwrap())
    );
    assert_eq!(vec!["t2tw.json", "TWVariants.ocd2"], names(&manifest("t2tw.json").unwrap()));
    assert_eq!(
        vec![
            "tw2s.json",
            "TSPhrases.ocd2",
            "TWVariantsRevPhrases.ocd2",
            "TWVariantsRev.ocd2",
            "TSCharacters.ocd2"
        ],
        names(&manifest("tw2s.json").unwrap())
    );
    assert_eq!(
        vec![
            "tw2sp.json",
            "TSPhrases.ocd2",
            "TWPhrasesRev.ocd2",
            "TWVariantsRevPhrases.ocd2",
            "TWVariantsRev.ocd2",
            "TSCharacters.ocd2"
        ],
        names(&manifest("tw2sp.json").unwrap())
    );
    assert_eq!(
        vec!["tw2t.json", "TWVariantsRevPhrases.ocd2", "TWVariantsRev.ocd2"],
        names(&manifest("tw2t.json").unwrap())
    );
}

#[test]
fn manifest_has_a_list_for_every_config() {
    for file in registry() {
        if let StaticDictionary::Config(config) = file {
            let list = manifest(config.get_file_name()).unwrap();
            assert_eq!(StaticDictionary::Config(config), list[0]);
            assert_eq!(dictionaries(config).len() + 1, list.len());
        }
    }
}

#[test]
fn manifest_lists_files_of_the_registry() {
    let held = registry();
    for file in &held {
        if let StaticDictionary::Config(config) = file {
            for listed in manifest(config.get_file_name()).unwrap() {
                let places = held
                    .iter()
                    .filter(|other| other.get_file_name() == listed.get_file_name())
                    .count();
                assert_eq!(1, places);
            }
        }
    }
}

#[test]
fn manifest_has_no_list_under_other_names() {
    assert!(manifest("").is_none());
    assert!(manifest("s2jp.json").is_none());
    assert!(manifest("tw2sp").is_none());
    assert!(manifest("TSPhrases.ocd2").is_none());
    assert!(manifest("Tw2sp.json").is_none());
}

#[test]
fn dictionaries_of_a_config() {
    assert_eq!(vec![Dictionary::JPVariants], dictionaries(DefaultConfig::T2JP));
    assert_eq!(
        vec![
            Dictionary::TSPhrases,
            Dictionary::TWPhrasesRev,
            Dictionary::TWVariantsRevPhrases,
            Dictionary::TWVariantsRev,
            Dictionary::TSCharacters
        ],
        dictionaries(DefaultConfig::TW2SP)
    );
    assert_eq!("TWPhrasesRev.ocd2", Dictionary::TWPhrasesRev.get_file_name());
}
