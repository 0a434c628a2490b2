//! The operations of the handle from end to end.
//!
//! A driver carries an operation out in turns: the first half, the engine's call, the
//! second half and, where the engine has signalled failure, the fetching of its account.
//! What the engine answers is not known here. So the outcome of each operation is written
//! down for every answer that the engine may give, and what holds of the operations is
//! stated over those outcomes.

use crate::converter::convert_append_call;
use crate::converter::convert_append_result;
use crate::converter::convert_call;
use crate::converter::convert_result;
use crate::converter::is_config_path;
use crate::converter::is_open_failure;
use crate::converter::open_call;
use crate::converter::open_result;
use crate::converter::written_length;
use crate::converter::Failure;
use crate::converter::FAILED_SIZE;
use crate::error::OpenCCErrorView;
use crate::text::has_nul;
use crate::text::lemma_decode_utf8_concat;
use crate::text::lemma_has_nul_is_nul_char;
use crate::text::text_of;
use vstd::prelude::*;
use vstd::utf8::*;

verus! {

/// What opening a configuration yields: the address of the handle, or the error.
/// `address` is what the engine's open returns, `diagnostic` its account of a failure.
pub open spec fn new_outcome(
    config_file_path: Seq<u8>,
    address: usize,
    diagnostic: Option<Seq<u8>>,
) -> Result<usize, OpenCCErrorView> {
    match open_call(config_file_path) {
        Err(error) => Err(error),
        Ok(_) => match open_result(address) {
            Ok(opencc) => Ok(opencc),
            Err(failure) => Err(failure.error(diagnostic)),
        },
    }
}

/// What converting a text yields on the handle at `opencc`: the converted text, or the
/// error. `text` is what the engine's conversion returns, `diagnostic` its account of a
/// failure.
pub open spec fn convert_outcome(
    opencc: usize,
    input: Seq<char>,
    text: Option<Seq<u8>>,
    diagnostic: Option<Seq<u8>>,
) -> Result<Seq<char>, OpenCCErrorView> {
    match convert_call(opencc, input) {
        Err(error) => Err(error),
        Ok(_) => match convert_result(text) {
            Ok(converted) => Ok(converted),
            Err(failure) => Err(failure.error(diagnostic)),
        },
    }
}

/// What converting a text and appending the result to `output` yields on the handle at
/// `opencc`: the output as it is afterwards, or the error. `size` is what the engine's
/// conversion into the buffer returns, `buffer` what the buffer holds then, `diagnostic`
/// the engine's account of a failure.
pub open spec fn convert_append_outcome(
    opencc: usize,
    input: Seq<char>,
    output: Seq<char>,
    size: usize,
    buffer: Seq<u8>,
    diagnostic: Option<Seq<u8>>,
) -> Result<Seq<char>, OpenCCErrorView> {
    match convert_append_call(opencc, input) {
        Err(error) => Err(error),
        Ok(_) => match written_length(size) {
            Ok(length) => convert_append_result(output, buffer.take(length as int)),
            Err(failure) => Err(failure.error(diagnostic)),
        },
    }
}

/// A path that holds a NUL, or that is not UTF-8, is refused whatever the engine would
/// answer.
pub proof fn lemma_new_refuses_the_path(
    config_file_path: Seq<u8>,
    address: usize,
    diagnostic: Option<Seq<u8>>,
)
    requires
        has_nul(config_file_path) || !valid_utf8(config_file_path),
    ensures
        new_outcome(config_file_path, address, diagnostic) == Err::<usize, OpenCCErrorView>(
            OpenCCErrorView::InvalidConfigPath,
        ),
{
}

/// Where the engine's open signals failure, opening fails with the engine's account of
/// the failure, or with a text that stands in for it and is not empty.
pub proof fn lemma_new_fails_with_an_account(
    config_file_path: Seq<u8>,
    address: usize,
    diagnostic: Option<Seq<u8>>,
)
    requires
        is_config_path(config_file_path),
        is_open_failure(address),
    ensures
        new_outcome(config_file_path, address, diagnostic) == Err::<usize, OpenCCErrorView>(
            OpenCCErrorView::NewInstanceFailed(
                match diagnostic {
                    Some(account) => text_of(account),
                    None => Failure::Open.fallback(),
                },
            ),
        ),
        Failure::Open.fallback().len() > 0,
{
    Failure::Open.lemma_fallback_is_not_empty();
}

/// A handle that the engine's open has returned for a path takes every text that holds
/// no NUL: whatever text the engine's conversion returns for it is the result, and its
/// bytes are well-formed UTF-8.
pub proof fn lemma_opened_handle_converts(
    config_file_path: Seq<u8>,
    address: usize,
    input: Seq<char>,
    text: Seq<u8>,
    diagnostic: Option<Seq<u8>>,
)
    requires
        is_config_path(config_file_path),
        !is_open_failure(address),
        !has_nul(encode_utf8(input)),
    ensures
        new_outcome(config_file_path, address, diagnostic) == Ok::<usize, OpenCCErrorView>(
            address,
        ),
        convert_outcome(address, input, Some(text), diagnostic) == Ok::<
            Seq<char>,
            OpenCCErrorView,
        >(text_of(text)),
        valid_utf8(encode_utf8(text_of(text))),
{
    encode_utf8_valid_utf8(text_of(text));
}

/// An input that holds a NUL is refused whatever the engine would answer, by both
/// conversions; the output of the second stays out of it.
pub proof fn lemma_convert_refuses_nul(
    opencc: usize,
    input: Seq<char>,
    text: Option<Seq<u8>>,
    output: Seq<char>,
    size: usize,
    buffer: Seq<u8>,
    diagnostic: Option<Seq<u8>>,
)
    requires
        input.contains('\0'),
    ensures
        convert_outcome(opencc, input, text, diagnostic) == Err::<Seq<char>, OpenCCErrorView>(
            OpenCCErrorView::InputContainsNull,
        ),
        convert_append_outcome(opencc, input, output, size, buffer, diagnostic) == Err::<
            Seq<char>,
            OpenCCErrorView,
        >(OpenCCErrorView::InputContainsNull),
{
    lemma_has_nul_is_nul_char(input);
}

/// Where the engine answers the empty text with the empty text, converting the empty
/// text gives the empty text, and appending its conversion leaves the output as it is.
pub proof fn lemma_empty_input_gives_empty_output(
    opencc: usize,
    output: Seq<char>,
    buffer: Seq<u8>,
    diagnostic: Option<Seq<u8>>,
)
    requires
        !is_open_failure(opencc),
    ensures
        convert_outcome(opencc, Seq::empty(), Some(Seq::empty()), diagnostic) == Ok::<
            Seq<char>,
            OpenCCErrorView,
        >(Seq::empty()),
        convert_append_outcome(opencc, Seq::empty(), output, 0, buffer, diagnostic) == Ok::<
            Seq<char>,
            OpenCCErrorView,
        >(output),
{
}

/// Converting one text and appending the conversion of a second one to the result gives
/// what converting the two texts joined gives, wherever the engine answers the joined
/// text with its answer to the first followed by its answer to the second, both of them
/// well-formed UTF-8.
pub proof fn lemma_convert_append_continues_convert(
    opencc: usize,
    first: Seq<char>,
    second: Seq<char>,
    first_answer: Seq<u8>,
    second_answer: Seq<u8>,
    diagnostic: Option<Seq<u8>>,
)
    requires
        !is_open_failure(opencc),
        !has_nul(encode_utf8(first)),
        !has_nul(encode_utf8(second)),
        valid_utf8(first_answer),
        valid_utf8(second_answer),
        second_answer.len() < FAILED_SIZE,
    ensures
        convert_outcome(opencc, first, Some(first_answer), diagnostic) is Ok,
        convert_append_outcome(
            opencc,
            second,
            convert_outcome(opencc, first, Some(first_answer), diagnostic)->Ok_0,
            second_answer.len() as usize,
            second_answer,
            diagnostic,
        ) == convert_outcome(
            opencc,
            first + second,
            Some(first_answer + second_answer),
            diagnostic,
        ),
{
    lemma_decode_utf8_concat(first_answer, second_answer);
    lemma_has_nul_is_nul_char(first);
    lemma_has_nul_is_nul_char(second);
    lemma_has_nul_is_nul_char(first + second);
    if (first + second).contains('\0') {
        // the NUL would stand in one of the two texts
        let i = choose|i: int| 0 <= i < (first + second).len() && (first + second)[i] == '\0';
        if i < first.len() {
            assert(first[i] == '\0');
        } else {
            assert(second[i - first.len()] == '\0');
        }
    }
    assert(second_answer.take(second_answer.len() as int) =~= second_answer);
}

} // verus!
