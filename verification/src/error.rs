use vstd::prelude::*;

verus! {

/// Where a byte string stopped being valid UTF-8.
#[derive(Debug, Clone, Copy, PartialEq, Eq)]
pub struct Utf8Failure {
    /// Length of the longest prefix that is valid UTF-8.
    pub valid_up_to: usize,
    /// Length of the offending byte sequence, or `None` where the input ends
    /// in the middle of a character.
    pub error_len: Option<usize>,
}

/// Why a text cannot be handed to the native library as a C string.
#[derive(Debug, Clone, PartialEq, Eq)]
pub struct NulFailure {
    /// Index of the first zero byte.
    pub position: usize,
    /// The bytes of the rejected text.
    pub bytes: Vec<u8>,
}

/// MIDI error
#[derive(Debug, Clone, PartialEq, Eq)]
pub enum RtMidiError {
    /// The native library reported a failure, with this message.
    Error(String),
    /// A text from the native library is not valid UTF-8.
    Utf8(Utf8Failure),
    /// A text for the native library holds a zero byte.
    NullString(NulFailure),
    /// The native library reported success and handed out no text.
    NullPointer,
}

impl From<Utf8Failure> for RtMidiError {
    fn from(failure: Utf8Failure) -> (error: RtMidiError) {
        RtMidiError::Utf8(failure)
    }
}

impl vstd::std_specs::convert::FromSpecImpl<Utf8Failure> for RtMidiError {
    open spec fn obeys_from_spec() -> bool {
        true
    }

    open spec fn from_spec(failure: Utf8Failure) -> RtMidiError {
        RtMidiError::Utf8(failure)
    }
}

impl From<NulFailure> for RtMidiError {
    fn from(failure: NulFailure) -> (error: RtMidiError) {
        RtMidiError::NullString(failure)
    }
}

impl vstd::std_specs::convert::FromSpecImpl<NulFailure> for RtMidiError {
    open spec fn obeys_from_spec() -> bool {
        true
    }

    open spec fn from_spec(failure: NulFailure) -> RtMidiError {
        RtMidiError::NullString(failure)
    }
}

/// The mathematical content of an [`RtMidiError`].
pub enum ErrorView {
    Error(Seq<char>),
    Utf8 { valid_up_to: usize, error_len: Option<usize> },
    NullString { position: usize, bytes: Seq<u8> },
    NullPointer,
}

impl View for RtMidiError {
    type V = ErrorView;

    open spec fn view(&self) -> ErrorView {
        match self {
            RtMidiError::Error(message) => ErrorView::Error(message@),
            RtMidiError::Utf8(failure) => ErrorView::Utf8 {
                valid_up_to: failure.valid_up_to,
                error_len: failure.error_len,
            },
            RtMidiError::NullString(failure) => ErrorView::NullString {
                position: failure.position,
                bytes: failure.bytes@,
            },
            RtMidiError::NullPointer => ErrorView::NullPointer,
        }
    }
}

/// The outcome of an operation with the error taken by its view.
pub open spec fn outcome<T>(result: Result<T, RtMidiError>) -> Result<T, ErrorView> {
    match result {
        Ok(value) => Ok(value),
        Err(error) => Err(error@),
    }
}

/// The outcome of an operation that yields a text, both taken by their views.
pub open spec fn text_outcome(result: Result<String, RtMidiError>) -> Result<Seq<char>, ErrorView> {
    match result {
        Ok(text) => Ok(text@),
        Err(error) => Err(error@),
    }
}

/// The outcome of an operation that yields bytes, both taken by their views.
pub open spec fn bytes_outcome(result: Result<Vec<u8>, RtMidiError>) -> Result<Seq<u8>, ErrorView> {
    match result {
        Ok(bytes) => Ok(bytes@),
        Err(error) => Err(error@),
    }
}

} // verus!
