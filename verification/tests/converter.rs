use opencc_rust_windows::converter::Failure;
use opencc_rust_windows::converter::FAILED_HANDLE;
use opencc_rust_windows::converter::FAILED_SIZE;
use opencc_rust_windows::text::c_string;
use opencc_rust_windows::text::contains_nul;
use opencc_rust_windows::text::decode;
use opencc_rust_windows::text::same_text;
use opencc_rust_windows::{OpenCC, OpenCCError};

fn open(address: usize) -> OpenCC {
    OpenCC::new(b"/usr/share/opencc/s2t.json").unwrap().opened(address).unwrap()
}

#[test]
fn path_becomes_a_c_string() {
    let opening = OpenCC::new(b"/usr/share/opencc/s2t.json").unwrap();
    assert_eq!(b"/usr/share/opencc/s2t.json\0".to_vec(), opening.config_path);
    let opening = OpenCC::new("詞典/s2t.json".as_bytes()).unwrap();
    assert_eq!("詞典/s2t.json\0".as_bytes(), &opening.config_path[..]);
    let opening = OpenCC::new(b"").unwrap();
    assert_eq!(vec![0u8], opening.config_path);
}

#[test]
fn path_with_embedded_nul_is_invalid() {
    assert!(matches!(OpenCC::new(b"s2t\0.json"), Err(OpenCCError::InvalidConfigPath)));
    assert!(matches!(OpenCC::new(b"\0"), Err(OpenCCError::InvalidConfigPath)));
    assert!(matches!(OpenCC::new(b"s2t.json\0"), Err(OpenCCError::InvalidConfigPath)));
}

#[test]
fn path_that_is_not_utf8_is_invalid() {
    assert!(matches!(OpenCC::new(b"s2t\xff.json"), Err(OpenCCError::InvalidConfigPath)));
    // a surrogate, as an encoded path may hold one
    assert!(matches!(OpenCC::new(b"\xed\xa0\x80.json"), Err(OpenCCError::InvalidConfigPath)));
    // an overlong NUL
    assert!(matches!(OpenCC::new(b"\xc0\x80"), Err(OpenCCError::InvalidConfigPath)));
    // a text cut short
    assert!(matches!(OpenCC::new(&"詞".as_bytes()[..2]), Err(OpenCCError::InvalidConfigPath)));
}

#[test]
fn open_takes_the_address_as_the_handle() {
    let opencc = open(0x5566_0000);
    assert_eq!(0x5566_0000, opencc.address());
    let opencc = open(1);
    assert_eq!(1, opencc.address());
    let opencc = open(usize::MAX - 1);
    assert_eq!(usize::MAX - 1, opencc.address());
}

#[test]
fn open_fails_on_null_and_on_minus_one() {
    assert_eq!(usize::MAX, FAILED_HANDLE);
    let opening = OpenCC::new(b"missing.json").unwrap();
    assert!(matches!(opening.opened(0), Err(Failure::Open)));
    let opening = OpenCC::new(b"missing.json").unwrap();
    assert!(matches!(opening.opened(FAILED_HANDLE), Err(Failure::Open)));
}

#[test]
fn missing_config_fails_with_an_account() {
    let opening = OpenCC::new(b"/nowhere/s2t.json").unwrap();
    let failure = match opening.opened(0) {
        Ok(_) => panic!("null is no handle"),
        Err(failure) => failure,
    };
    let error = failure.diagnosed(Some(b"/nowhere/s2t.json not found or not accessible."));
    match error {
        OpenCCError::NewInstanceFailed(details) => {
            assert!(!details.is_empty());
            assert_eq!("/nowhere/s2t.json not found or not accessible.", details);
        }
        other => panic!("{:?}", other),
    }
}

#[test]
fn failure_without_account_has_a_fallback() {
    match Failure::Open.diagnosed(None) {
        OpenCCError::NewInstanceFailed(details) => {
            assert_eq!("Unknown error from OpenCC library", details)
        }
        other => panic!("{:?}", other),
    }
    match Failure::Convert.diagnosed(None) {
        OpenCCError::ConversionFailed(details) => {
            assert_eq!("Unknown conversion error from OpenCC library", details)
        }
        other => panic!("{:?}", other),
    }
    match Failure::ConvertAppend.diagnosed(None) {
        OpenCCError::ConversionFailed(details) => assert_eq!("Unknown conversion error", details),
        other => panic!("{:?}", other),
    }
}

#[test]
fn failure_with_account_that_is_not_utf8() {
    match Failure::Convert.diagnosed(Some(b"bad \xff byte")) {
        OpenCCError::ConversionFailed(details) => assert_eq!("bad \u{fffd} byte", details),
        other => panic!("{:?}", other),
    }
    match Failure::ConvertAppend.diagnosed(Some(b"")) {
        OpenCCError::ConversionFailed(details) => assert_eq!("", details),
        other => panic!("{:?}", other),
    }
}

#[test]
fn convert_hands_over_a_c_string_and_its_length() {
    let opencc = open(0x1000);
    let call = opencc.convert("涼風").unwrap();
    assert_eq!(0x1000, call.handle);
    assert_eq!(6, call.length);
    assert_eq!(vec![0xe6, 0xb6, 0xbc, 0xe9, 0xa2, 0xa8, 0], call.input);
    let call = opencc.convert("abc").unwrap();
    assert_eq!(3, call.length);
    assert_eq!(b"abc\0".to_vec(), call.input);
}

#[test]
fn convert_append_asks_for_three_times_the_length_and_one() {
    let opencc = open(0x1000);
    let call = opencc.convert_append("涼風").unwrap();
    assert_eq!(0x1000, call.handle);
    assert_eq!(6, call.length);
    assert_eq!(19, call.capacity);
    assert_eq!(vec![0xe6, 0xb6, 0xbc, 0xe9, 0xa2, 0xa8, 0], call.input);
    let call = opencc.convert_append("").unwrap();
    assert_eq!(0, call.length);
    assert_eq!(1, call.capacity);
    let call = opencc.convert_append("a").unwrap();
    assert_eq!(4, call.capacity);
}

#[test]
fn input_with_embedded_nul_is_refused() {
    let opencc = open(0x1000);
    assert!(matches!(opencc.convert("a\0b"), Err(OpenCCError::InputContainsNull)));
    assert!(matches!(opencc.convert("\0"), Err(OpenCCError::InputContainsNull)));
    assert!(matches!(opencc.convert("涼風\0"), Err(OpenCCError::InputContainsNull)));
    assert!(matches!(opencc.convert_append("a\0b"), Err(OpenCCError::InputContainsNull)));
    assert!(matches!(opencc.convert_append("\0涼風"), Err(OpenCCError::InputContainsNull)));
}

#[test]
fn empty_input_gives_empty_output() {
    let opencc = open(0x1000);
    let call = opencc.convert("").unwrap();
    assert_eq!(0, call.length);
    assert_eq!(vec![0u8], call.input);
    assert_eq!("", call.converted(Some(b"")).unwrap());

    let mut output = String::from("涼風");
    let call = opencc.convert_append("").unwrap();
    let size = call.written(0).unwrap();
    assert_eq!(0, size);
    assert!(call.append(&[], &mut output).is_ok());
    assert_eq!("涼風", output);
}

#[test]
fn converted_text_is_read_with_replacements() {
    let opencc = open(0x1000);
    let call = opencc.convert("x").unwrap();
    assert_eq!("凉风", call.converted(Some("凉风".as_bytes())).unwrap());
    let call = opencc.convert("x").unwrap();
    assert_eq!("凉\u{fffd}风", call.converted(Some(b"\xe5\x87\x89\xff\xe9\xa3\x8e")).unwrap());
}

#[test]
fn conversion_without_text_has_failed() {
    let opencc = open(0x1000);
    let call = opencc.convert("x").unwrap();
    let failure = match call.converted(None) {
        Ok(text) => panic!("{}", text),
        Err(failure) => failure,
    };
    assert_eq!(Failure::Convert, failure);
    assert!(matches!(
        failure.diagnosed(Some(b"conversion broke")),
        OpenCCError::ConversionFailed(details) if details == "conversion broke"
    ));
}

#[test]
fn greatest_size_means_failure() {
    assert_eq!(usize::MAX, FAILED_SIZE);
    let opencc = open(0x1000);
    let call = opencc.convert_append("x").unwrap();
    assert_eq!(Err(Failure::ConvertAppend), call.written(FAILED_SIZE));
    assert_eq!(Ok(0), call.written(0));
    assert_eq!(Ok(3), call.written(3));
    assert_eq!(Ok(usize::MAX - 1), call.written(usize::MAX - 1));
}

#[test]
fn written_bytes_are_appended() {
    let opencc = open(0x1000);
    let mut output = String::from("凉风有讯");
    let call = opencc.convert_append("，秋月無邊").unwrap();
    assert!(call.append("，秋月无边".as_bytes(), &mut output).is_ok());
    assert_eq!("凉风有讯，秋月无边", output);
}

#[test]
fn written_bytes_that_are_not_utf8_are_refused() {
    let opencc = open(0x1000);
    let mut output = String::from("凉风有讯");
    let call = opencc.convert_append("x").unwrap();
    assert!(matches!(call.append(b"\xe5\x87", &mut output), Err(OpenCCError::InvalidUtf8)));
    assert_eq!("凉风有讯", output);
    let call = opencc.convert_append("x").unwrap();
    assert!(matches!(call.append(b"ab\xffcd", &mut output), Err(OpenCCError::InvalidUtf8)));
    assert_eq!("凉风有讯", output);
}

#[test]
fn closed_handle_converts_no_more() {
    let mut opencc = open(0x1000);
    assert_eq!(Some(0x1000), opencc.close());
    assert_eq!(0, opencc.address());
    assert_eq!(None, opencc.close());
    match opencc.convert("x") {
        Err(OpenCCError::NewInstanceFailed(details)) => {
            assert_eq!("OpenCC instance is not valid or has been closed.", details)
        }
        _ => panic!("a closed handle took a text"),
    }
    match opencc.convert_append("x") {
        Err(OpenCCError::NewInstanceFailed(details)) => {
            assert_eq!("OpenCC instance is not valid.", details)
        }
        _ => panic!("a closed handle took a text"),
    }
    assert!(matches!(opencc.convert("a\0"), Err(OpenCCError::InputContainsNull)));
}

#[test]
fn nul_bytes_are_found() {
    assert!(!contains_nul(b""));
    assert!(!contains_nul(b"abc"));
    assert!(contains_nul(b"\0"));
    assert!(contains_nul(b"abc\0"));
    assert!(contains_nul(b"\0abc"));
    assert!(contains_nul(b"a\0c"));
    assert!(!contains_nul("涼風".as_bytes()));
}

#[test]
fn c_string_ends_in_one_nul() {
    assert_eq!(Some(vec![0u8]), c_string(b""));
    assert_eq!(Some(b"abc\0".to_vec()), c_string(b"abc"));
    assert_eq!(Some(vec![0xff, 0]), c_string(b"\xff"));
    assert_eq!(None, c_string(b"a\0c"));
    assert_eq!(None, c_string(b"abc\0"));
}

#[test]
fn bytes_are_decoded_when_well_formed() {
    assert_eq!(Some(""), decode(b""));
    assert_eq!(Some("abc"), decode(b"abc"));
    assert_eq!(Some("涼風"), decode("涼風".as_bytes()));
    assert_eq!(Some("\u{10ffff}"), decode(b"\xf4\x8f\xbf\xbf"));
    assert_eq!(None, decode(b"\xf4\x90\x80\x80"));
    assert_eq!(None, decode(b"\xed\xa0\x80"));
    assert_eq!(None, decode(b"\xe0\x80\x80"));
    assert_eq!(None, decode(b"\x80"));
    assert_eq!(None, decode(b"abc\xe6\xb6"));
}

#[test]
fn texts_are_compared() {
    assert!(same_text("", ""));
    assert!(same_text("tw2sp.json", "tw2sp.json"));
    assert!(!same_text("tw2sp.json", "tw2s.json"));
    assert!(!same_text("tw2sp.json", "tw2sp.jsoN"));
    assert!(!same_text("涼", "凉"));
    assert!(!same_text("a", ""));
}
