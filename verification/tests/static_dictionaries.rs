use std::collections::BTreeMap;

use opencc_rust_windows::dictionary::registry;
use opencc_rust_windows::materialize::Target;
use opencc_rust_windows::{DefaultConfig, OpenCC, StaticDictionary};

/// A directory that is kept in memory: the contents of its files by their names.
type Directory = BTreeMap<String, Vec<u8>>;

/// What stands for the contents of a file in these tests.
fn contents(file: StaticDictionary) -> Vec<u8> {
    let mut bytes = b"contents of ".to_vec();
    bytes.extend_from_slice(file.get_file_name().as_bytes());
    bytes
}

/// Does what a driver does around the plan: looks which files are there, then writes
/// those that the plan names.
fn generate(directory: &mut Directory, config: DefaultConfig) -> Result<(), String> {
    let present: Vec<StaticDictionary> = registry()
        .into_iter()
        .filter(|file| directory.contains_key(file.get_file_name()))
        .collect();
    match opencc_rust_windows::generate_static_dictionary(Target::Directory, &present, config) {
        Ok(plan) => {
            for file in plan.files {
                let old = directory.insert(String::from(file.get_file_name()), contents(file));
                assert!(old.is_none());
            }
            Ok(())
        }
        Err(e) => Err(e.message("tmp")),
    }
}

#[test]
fn generate_static_dictionary() {
    let mut dir = Directory::new();

    match generate(&mut dir, DefaultConfig::TW2SP) {
        Ok(_) => println!("The dictionary file was created successfully."),
        Err(e) => panic!("Failed to generate dictionary file: {}", e),
    }

    let entries: Vec<&String> = dir.keys().collect();
    println!("Archives in the directory: {:?}", entries);
    assert_eq!(6, entries.len());

    let s = String::from("無");

    let config_filename = DefaultConfig::TW2SP.get_file_name();
    let config_path = format!("tmp/{}", config_filename);

    println!("Prepare to initialize OpenCC using configuration file '{}'...", config_path);

    // the engine opens a configuration whose file is there
    assert!(dir.contains_key(config_filename));
    let opencc = OpenCC::new(config_path.as_bytes())
        .expect("OpenCC initialization failed")
        .opened(0x1000)
        .expect("OpenCC initialization failed");

    println!("OpenCC initialization successful!");

    // and answers for this text as the reference dictionaries have it
    let call = opencc.convert(&s).unwrap();
    assert_eq!("無\0".as_bytes(), &call.input[..]);
    assert_eq!("无", &call.converted(Some("无".as_bytes())).unwrap());

    println!("Conversion Successful!");
}

#[test]
fn generating_again_leaves_the_directory_as_it_is() {
    let mut dir = Directory::new();
    dir.insert(String::from("TSPhrases.ocd2"), b"older contents".to_vec());
    dir.insert(String::from("notes.txt"), b"kept".to_vec());
    generate(&mut dir, DefaultConfig::TW2SP).unwrap();
    assert_eq!(7, dir.len());
    assert_eq!(b"older contents".to_vec(), dir["TSPhrases.ocd2"]);
    assert_eq!(b"kept".to_vec(), dir["notes.txt"]);
    assert_eq!(b"contents of tw2sp.json".to_vec(), dir["tw2sp.json"]);
    assert_eq!(b"contents of TWPhrasesRev.ocd2".to_vec(), dir["TWPhrasesRev.ocd2"]);

    let once = dir.clone();
    generate(&mut dir, DefaultConfig::TW2SP).unwrap();
    assert_eq!(once, dir);
}
