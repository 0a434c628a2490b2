use std::path::Path;

use opencc_rust_windows::DefaultConfig;

const ALL: [DefaultConfig; 14] = [
    DefaultConfig::HK2S,
    DefaultConfig::HK2T,
    DefaultConfig::JP2T,
    DefaultConfig::S2T,
    DefaultConfig::S2TW,
    DefaultConfig::S2TWP,
    DefaultConfig::T2HK,
    DefaultConfig::T2JP,
    DefaultConfig::T2TW,
    DefaultConfig::T2S,
    DefaultConfig::S2HK,
    DefaultConfig::TW2S,
    DefaultConfig::TW2SP,
    DefaultConfig::TW2T,
];

#[test]
fn file_name_of_each_config() {
    assert_eq!("hk2s.json", DefaultConfig::HK2S.get_file_name());
    assert_eq!("hk2t.json", DefaultConfig::HK2T.get_file_name());
    assert_eq!("jp2t.json", DefaultConfig::JP2T.get_file_name());
    assert_eq!("s2hk.json", DefaultConfig::S2HK.get_file_name());
    assert_eq!("s2t.json", DefaultConfig::S2T.get_file_name());
    assert_eq!("s2tw.json", DefaultConfig::S2TW.get_file_name());
    assert_eq!("s2twp.json", DefaultConfig::S2TWP.get_file_name());
    assert_eq!("t2hk.json", DefaultConfig::T2HK.get_file_name());
    assert_eq!("t2jp.json", DefaultConfig::T2JP.get_file_name());
    assert_eq!("t2s.json", DefaultConfig::T2S.get_file_name());
    assert_eq!("t2tw.json", DefaultConfig::T2TW.get_file_name());
    assert_eq!("tw2s.json", DefaultConfig::TW2S.get_file_name());
    assert_eq!("tw2sp.json", DefaultConfig::TW2SP.get_file_name());
    assert_eq!("tw2t.json", DefaultConfig::TW2T.get_file_name());
}

#[test]
fn file_names_are_lower_case_json_names() {
    for config in ALL {
        let name = config.get_file_name();
        assert!(name.ends_with(".json"));
        assert!(name.len() > ".json".len());
        assert_eq!(name.to_lowercase(), name);
    }
}

#[test]
fn file_names_differ() {
    for (i, a) in ALL.iter().enumerate() {
        for (j, b) in ALL.iter().enumerate() {
            assert_eq!(i == j, a.get_file_name() == b.get_file_name());
            assert_eq!(i == j, a == b);
        }
    }
}

#[test]
fn config_is_found_by_its_file_name() {
    for config in ALL {
        assert_eq!(Some(config), DefaultConfig::from_file_name(config.get_file_name()));
    }
    assert_eq!(None, DefaultConfig::from_file_name("tw2sp"));
    assert_eq!(None, DefaultConfig::from_file_name("TW2SP.json"));
    assert_eq!(None, DefaultConfig::from_file_name("tw2sp.json "));
    assert_eq!(None, DefaultConfig::from_file_name("s2jp.json"));
    assert_eq!(None, DefaultConfig::from_file_name(""));
}

#[test]
fn config_is_a_string_and_a_path() {
    let config = DefaultConfig::S2TWP;
    let name: &str = config.as_ref();
    assert_eq!("s2twp.json", name);
    let path: &Path = config.as_ref();
    assert_eq!(Path::new("s2twp.json"), path);
    assert_eq!(Path::new("dictionaries/tw2sp.json"), Path::new("dictionaries").join(DefaultConfig::TW2SP));
}

#[test]
fn config_is_copied_and_compared() {
    let config = DefaultConfig::T2JP;
    let copy = config;
    assert_eq!(config, copy);
    assert_ne!(DefaultConfig::T2JP, DefaultConfig::JP2T);
    assert_eq!("T2JP", format!("{:?}", copy));
}
