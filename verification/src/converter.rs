//! The conversion handle, as the decisions taken around each call of the engine.
//!
//! Nothing here calls the engine. Each operation is cut where a call would stand: the
//! first half checks the arguments and says what to hand to the engine, the second half
//! takes what the engine returned and says what the operation yields. A driver makes the
//! calls in between. Each half has its outcome written down as a function of its inputs.

use crate::error::outcome;
use crate::error::OpenCCError;
use crate::error::OpenCCErrorView;
use crate::text::bytes_of;
use crate::text::c_string;
use crate::text::decode;
use crate::text::from_utf8_lossy;
use crate::text::has_nul;
use crate::text::nul_terminated;
use crate::text::text_of;
use libc::size_t;
use vstd::prelude::*;
use vstd::utf8::*;

verus! {

/// What the engine's open returns in place of a handle when it fails, besides null: the
/// pointer whose address is -1.
pub const FAILED_HANDLE: usize = usize::MAX;

/// What the engine's conversion into a buffer returns in place of a size when it fails.
pub const FAILED_SIZE: size_t = size_t::MAX;

/// True when the engine's open has failed, going by the address it returned.
pub open spec fn is_open_failure(address: usize) -> bool {
    address == 0 || address == FAILED_HANDLE
}

/// True when the path can be handed to the engine: it is UTF-8 and holds no NUL.
pub open spec fn is_config_path(path: Seq<u8>) -> bool {
    valid_utf8(path) && !has_nul(path)
}

/// The room that a conversion into a buffer is given for an input of `length` bytes.
pub open spec fn buffer_capacity(length: nat) -> nat {
    3 * length + 1
}

/// A call of the engine that has signalled failure. The engine keeps an account of its
/// last failure; once that is fetched, the error is complete.
#[derive(Debug, Copy, Clone, PartialEq, Eq, Structural)]
pub enum Failure {
    /// The open returned no handle.
    Open,
    /// The conversion returned no text.
    Convert,
    /// The conversion into a buffer returned no size.
    ConvertAppend,
}

impl View for Failure {
    type V = Failure;

    open spec fn view(&self) -> Failure {
        *self
    }
}

impl Failure {
    /// The text that stands in for the engine's account where it gives none.
    pub open spec fn fallback(self) -> Seq<char> {
        match self {
            Failure::Open => "Unknown error from OpenCC library"@,
            Failure::Convert => "Unknown conversion error from OpenCC library"@,
            Failure::ConvertAppend => "Unknown conversion error"@,
        }
    }

    /// The text that stands in for the engine's account is never empty.
    pub proof fn lemma_fallback_is_not_empty(self)
        ensures
            self.fallback().len() > 0,
    {
        reveal_strlit("Unknown error from OpenCC library");
        reveal_strlit("Unknown conversion error from OpenCC library");
        reveal_strlit("Unknown conversion error");
    }

    /// The error that the failure ends in, given the engine's account of it.
    pub open spec fn error(self, diagnostic: Option<Seq<u8>>) -> OpenCCErrorView {
        let details = match diagnostic {
            Some(bytes) => text_of(bytes),
            None => self.fallback(),
        };
        match self {
            Failure::Open => OpenCCErrorView::NewInstanceFailed(details),
            Failure::Convert => OpenCCErrorView::ConversionFailed(details),
            Failure::ConvertAppend => OpenCCErrorView::ConversionFailed(details),
        }
    }

    /// Completes the error with the engine's account of its last failure: the bytes of its
    /// message, or `None` where it has none.
    pub fn diagnosed(self, diagnostic: Option<&[u8]>) -> (error: OpenCCError)
        ensures
            error@ == self.error(bytes_of(diagnostic)),
    {
        let details = match diagnostic {
            Some(bytes) => from_utf8_lossy(bytes),
            None => match self {
                Failure::Open => String::from_str("Unknown error from OpenCC library"),
                Failure::Convert => String::from_str(
                    "Unknown conversion error from OpenCC library",
                ),
                Failure::ConvertAppend => String::from_str("Unknown conversion error"),
            },
        };
        match self {
            Failure::Open => OpenCCError::NewInstanceFailed(details),
            Failure::Convert => OpenCCError::ConversionFailed(details),
            Failure::ConvertAppend => OpenCCError::ConversionFailed(details),
        }
    }
}

/// The argument of the engine's open.
#[derive(Debug)]
pub struct Opening {
    /// The path of the configuration file, as a C string.
    pub config_path: Vec<u8>,
}

impl View for Opening {
    type V = Seq<u8>;

    open spec fn view(&self) -> Seq<u8> {
        self.config_path@
    }
}

/// The arguments of the engine's conversion.
#[derive(Debug)]
pub struct Conversion {
    /// The address of the engine's handle.
    pub handle: usize,
    /// The text to convert, as a C string.
    pub input: Vec<u8>,
    /// The length of the text in bytes, without the NUL behind it.
    pub length: size_t,
}

/// A [`Conversion`] with its text as a sequence of bytes.
pub struct ConversionView {
    pub handle: usize,
    pub input: Seq<u8>,
    pub length: nat,
}

impl View for Conversion {
    type V = ConversionView;

    open spec fn view(&self) -> ConversionView {
        ConversionView { handle: self.handle, input: self.input@, length: self.length as nat }
    }
}

/// The arguments of the engine's conversion into a buffer.
#[derive(Debug)]
pub struct Appending {
    /// The address of the engine's handle.
    pub handle: usize,
    /// The text to convert, as a C string.
    pub input: Vec<u8>,
    /// The length of the text in bytes, without the NUL behind it.
    pub length: size_t,
    /// The number of bytes that the buffer must have room for.
    pub capacity: usize,
}

/// An [`Appending`] with its text as a sequence of bytes.
pub struct AppendingView {
    pub handle: usize,
    pub input: Seq<u8>,
    pub length: nat,
    pub capacity: nat,
}

impl View for Appending {
    type V = AppendingView;

    open spec fn view(&self) -> AppendingView {
        AppendingView {
            handle: self.handle,
            input: self.input@,
            length: self.length as nat,
            capacity: self.capacity as nat,
        }
    }
}

/// What opening begins with, for a path given by its bytes: the argument of the engine's
/// open, unless the path cannot be handed over.
pub open spec fn open_call(config_file_path: Seq<u8>) -> Result<Seq<u8>, OpenCCErrorView> {
    if is_config_path(config_file_path) {
        Ok(nul_terminated(config_file_path))
    } else {
        Err(OpenCCErrorView::InvalidConfigPath)
    }
}

/// What opening ends in, for the address that the engine's open returned: the address of
/// the handle, unless the address signals failure.
pub open spec fn open_result(address: usize) -> Result<usize, Failure> {
    if is_open_failure(address) {
        Err(Failure::Open)
    } else {
        Ok(address)
    }
}

/// What a conversion begins with, on the handle at `opencc`: the arguments of the
/// engine's conversion, unless the input holds a NUL or the handle is closed.
pub open spec fn convert_call(opencc: usize, input: Seq<char>) -> Result<
    ConversionView,
    OpenCCErrorView,
> {
    let bytes = encode_utf8(input);
    if has_nul(bytes) {
        Err(OpenCCErrorView::InputContainsNull)
    } else if opencc == 0 {
        Err(
            OpenCCErrorView::NewInstanceFailed(
                "OpenCC instance is not valid or has been closed."@,
            ),
        )
    } else {
        Ok(ConversionView { handle: opencc, input: nul_terminated(bytes), length: bytes.len() })
    }
}

/// What a conversion ends in, for what the engine's conversion returned: the text,
/// unless the engine returned none.
pub open spec fn convert_result(text: Option<Seq<u8>>) -> Result<Seq<char>, Failure> {
    match text {
        Some(bytes) => Ok(text_of(bytes)),
        None => Err(Failure::Convert),
    }
}

/// What a conversion into a buffer begins with, on the handle at `opencc`: the arguments
/// of the engine's conversion into a buffer, unless the input holds a NUL or the handle
/// is closed.
pub open spec fn convert_append_call(opencc: usize, input: Seq<char>) -> Result<
    AppendingView,
    OpenCCErrorView,
> {
    let bytes = encode_utf8(input);
    if has_nul(bytes) {
        Err(OpenCCErrorView::InputContainsNull)
    } else if opencc == 0 {
        Err(OpenCCErrorView::NewInstanceFailed("OpenCC instance is not valid."@))
    } else {
        Ok(
            AppendingView {
                handle: opencc,
                input: nul_terminated(bytes),
                length: bytes.len(),
                capacity: buffer_capacity(bytes.len()),
            },
        )
    }
}

/// What the size that the engine's conversion into a buffer returned stands for: the
/// number of bytes written, unless the size signals failure.
pub open spec fn written_length(size: size_t) -> Result<usize, Failure> {
    if size == FAILED_SIZE {
        Err(Failure::ConvertAppend)
    } else {
        Ok(size)
    }
}

/// What a conversion into a buffer ends in, for the bytes that the engine wrote: the
/// output with their text behind it, unless they are not UTF-8.
pub open spec fn convert_append_result(output: Seq<char>, written: Seq<u8>) -> Result<
    Seq<char>,
    OpenCCErrorView,
> {
    if valid_utf8(written) {
        Ok(output + decode_utf8(written))
    } else {
        Err(OpenCCErrorView::InvalidUtf8)
    }
}

/// OpenCC binding for Rust: the handle that the engine's open returned, by its address.
/// A handle that has been closed has the address 0.
pub struct OpenCC {
    address: usize,
}

impl View for OpenCC {
    type V = usize;

    closed spec fn view(&self) -> usize {
        self.address
    }
}

impl OpenCC {
    #[verifier::type_invariant]
    spec fn never_the_failure_signal(&self) -> bool {
        self.address != FAILED_HANDLE
    }

    /// True until the handle is closed.
    pub open spec fn is_open(&self) -> bool {
        self@ != 0
    }

    /// Begins to create a new OpenCC instance through a file provided by its path, given
    /// as the bytes of the path.
    pub fn new(config_file_path: &[u8]) -> (result: Result<Opening, OpenCCError>)
        ensures
            outcome(result) == open_call(config_file_path@),
    {
        if decode(config_file_path).is_none() {
            return Err(OpenCCError::InvalidConfigPath);
        }
        match c_string(config_file_path) {
            Some(config_path) => Ok(Opening { config_path }),
            None => Err(OpenCCError::InvalidConfigPath),
        }
    }

    /// The address of the handle, 0 once it is closed. It is never the address by which
    /// the engine signals failure.
    pub fn address(&self) -> (address: usize)
        ensures
            address == self@,
            address != FAILED_HANDLE,
    {
        proof {
            use_type_invariant(self);
        }
        self.address
    }

    /// Begins to convert a string to another string.
    pub fn convert(&self, input: &str) -> (result: Result<Conversion, OpenCCError>)
        ensures
            outcome(result) == convert_call(self@, input@),
            result matches Ok(call) ==> !is_open_failure(call.handle),
    {
        proof {
            use_type_invariant(self);
        }
        let bytes = input.as_bytes();
        let length = bytes.len();
        match c_string(bytes) {
            None => Err(OpenCCError::InputContainsNull),
            Some(c_input) => {
                if self.address == 0 {
                    Err(
                        OpenCCError::NewInstanceFailed(
                            String::from_str("OpenCC instance is not valid or has been closed."),
                        ),
                    )
                } else {
                    Ok(Conversion { handle: self.address, input: c_input, length })
                }
            },
        }
    }

    /// Begins to convert the input string and append the result to the end of a string.
    pub fn convert_append(&self, input: &str) -> (result: Result<Appending, OpenCCError>)
        requires
            buffer_capacity(encode_utf8(input@).len()) <= usize::MAX,
        ensures
            outcome(result) == convert_append_call(self@, input@),
            result matches Ok(call) ==> !is_open_failure(call.handle),
    {
        proof {
            use_type_invariant(self);
        }
        let bytes = input.as_bytes();
        let length = bytes.len();
        match c_string(bytes) {
            None => Err(OpenCCError::InputContainsNull),
            Some(c_input) => {
                if self.address == 0 {
                    Err(
                        OpenCCError::NewInstanceFailed(
                            String::from_str("OpenCC instance is not valid."),
                        ),
                    )
                } else {
                    Ok(
                        Appending {
                            handle: self.address,
                            input: c_input,
                            length,
                            capacity: length * 3 + 1,
                        },
                    )
                }
            },
        }
    }

    /// Gives up the handle. The address returned, if any, is to be closed with the engine;
    /// a handle that was closed before has none left.
    pub fn close(&mut self) -> (address: Option<usize>)
        ensures
            !final(self).is_open(),
            match address {
                Some(address) => old(self).is_open() && address == old(self)@ && !is_open_failure(
                    address,
                ),
                None => !old(self).is_open(),
            },
    {
        proof {
            use_type_invariant(&*self);
        }
        let address = self.address;
        self.address = 0;
        if address == 0 {
            None
        } else {
            Some(address)
        }
    }
}

impl Opening {
    /// Takes the address that the engine's open returned: the handle, unless the address
    /// is one of the two by which the engine signals failure.
    pub fn opened(self, address: usize) -> (result: Result<OpenCC, Failure>)
        ensures
            outcome(result) == open_result(address),
    {
        if address == 0 || address == FAILED_HANDLE {
            Err(Failure::Open)
        } else {
            Ok(OpenCC { address })
        }
    }
}

impl Conversion {
    /// Takes what the engine's conversion returned: the bytes of the converted text up
    /// to its NUL, or `None` for the null pointer by which the engine signals failure.
    pub fn converted(self, text: Option<&[u8]>) -> (result: Result<String, Failure>)
        ensures
            outcome(result) == convert_result(bytes_of(text)),
    {
        match text {
            Some(bytes) => Ok(from_utf8_lossy(bytes)),
            None => Err(Failure::Convert),
        }
    }
}

impl Appending {
    /// Takes the size that the engine's conversion into the buffer returned: the number
    /// of bytes that it wrote, unless the size is the one by which it signals failure.
    pub fn written(&self, size: size_t) -> (result: Result<usize, Failure>)
        ensures
            outcome(result) == written_length(size),
    {
        if size == FAILED_SIZE {
            Err(Failure::ConvertAppend)
        } else {
            Ok(size)
        }
    }

    /// Appends the bytes that the engine wrote to the end of `output`, provided that they
    /// are well-formed UTF-8. Where they are not, `output` stays as it is.
    pub fn append(self, written: &[u8], output: &mut String) -> (result: Result<(), OpenCCError>)
        ensures
            match convert_append_result(old(output)@, written@) {
                Ok(text) => result is Ok && final(output)@ == text,
                Err(error) => outcome(result) == Err::<(), OpenCCErrorView>(error)
                    && final(output)@ == old(output)@,
            },
    {
        if written.len() > 0 {
            match decode(written) {
                Some(text) => {
                    output.append(text);
                    Ok(())
                },
                None => Err(OpenCCError::InvalidUtf8),
            }
        } else {
            Ok(())
        }
    }
}

} // verus!
