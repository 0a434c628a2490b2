use opencc_rust_windows::materialize::DictionaryError;
use opencc_rust_windows::OpenCCError;

#[test]
fn message_of_each_conversion_error() {
    assert_eq!(
        "The configuration file path contains invalid characters",
        OpenCCError::InvalidConfigPath.message()
    );
    assert_eq!(
        "Failed to create OpenCC instance: no such file",
        OpenCCError::NewInstanceFailed(String::from("no such file")).message()
    );
    assert_eq!(
        "The input string contains an invalid NULL character",
        OpenCCError::InputContainsNull.message()
    );
    assert_eq!(
        "OpenCC conversion failed: out of memory",
        OpenCCError::ConversionFailed(String::from("out of memory")).message()
    );
    assert_eq!("OpenCC returned an invalid UTF-8 sequence", OpenCCError::InvalidUtf8.message());
}

#[test]
fn message_with_empty_details() {
    assert_eq!(
        "Failed to create OpenCC instance: ",
        OpenCCError::NewInstanceFailed(String::new()).message()
    );
    assert_eq!("OpenCC conversion failed: ", OpenCCError::ConversionFailed(String::new()).message());
}

#[test]
fn message_of_each_dictionary_error() {
    assert_eq!(
        "The path '/tmp/dictionaries' exists but is not a directory.",
        DictionaryError::ExistsNotDirectory.message("/tmp/dictionaries")
    );
    assert_eq!(
        "The path of static dictionaries needs to be a directory.",
        DictionaryError::NeedsDirectory.message("/tmp/dictionaries")
    );
    assert_eq!(
        "Unsupported or unknown default config: s2jp.json",
        DictionaryError::UnsupportedConfig(String::from("s2jp.json")).message("/tmp/dictionaries")
    );
}

#[test]
fn errors_are_shown_for_debugging() {
    assert_eq!("InvalidUtf8", format!("{:?}", OpenCCError::InvalidUtf8));
    assert_eq!(
        "ConversionFailed(\"x\")",
        format!("{:?}", OpenCCError::ConversionFailed(String::from("x")))
    );
    assert_eq!("NeedsDirectory", format!("{:?}", DictionaryError::NeedsDirectory));
}
