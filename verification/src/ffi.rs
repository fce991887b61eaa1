//! Plain values that cross the boundary to the native library: C strings on
//! the way in, texts and the status record on the way out.
use vstd::prelude::*;
use vstd::string::StringSliceAdditionalSpecFns;
use vstd::string::StrSliceExecFns;
use vstd::utf8::{decode_utf8, valid_utf8};

use crate::error::{
    bytes_outcome, outcome, text_outcome, ErrorView, NulFailure, RtMidiError, Utf8Failure,
};

verus! {

/// A native instance, as the number that the native library knows it by:
/// the address of its record.
pub type NativeInstance = usize;

/// A callback context, as the number that the native library hands to the
/// callback: the address of the boxed closure.
pub type CallbackContext = usize;

/// No byte of `bytes` is zero.
pub open spec fn nul_free(bytes: Seq<u8>) -> bool {
    forall|i: int| 0 <= i < bytes.len() ==> bytes[i] != 0
}

/// `position` is the index of the first zero byte of `bytes`.
pub open spec fn is_first_nul(bytes: Seq<u8>, position: int) -> bool {
    &&& 0 <= position < bytes.len()
    &&& bytes[position] == 0
    &&& forall|i: int| 0 <= i < position ==> bytes[i] != 0
}

/// The index of the first zero byte of `bytes`, where there is one.
pub open spec fn first_nul(bytes: Seq<u8>) -> int {
    choose|position: int| is_first_nul(bytes, position)
}

/// The C string for `bytes`: the bytes followed by the terminating zero, or
/// the failure that names the first zero byte among them.
pub open spec fn c_string_of(bytes: Seq<u8>) -> Result<Seq<u8>, ErrorView> {
    if nul_free(bytes) {
        Ok(bytes.push(0u8))
    } else {
        Err(ErrorView::NullString { position: first_nul(bytes) as usize, bytes })
    }
}

/// A sequence has at most one first zero byte.
pub proof fn lemma_first_nul_unique(bytes: Seq<u8>, position: int)
    requires
        is_first_nul(bytes, position),
    ensures
        !nul_free(bytes),
        first_nul(bytes) == position,
{
    let chosen = first_nul(bytes);
    assert(is_first_nul(bytes, chosen));
    if chosen < position {
        assert(bytes[chosen] != 0);
    } else if position < chosen {
        assert(bytes[position] != 0);
    }
}

/// A text with a zero byte has no C string: the failure names a zero byte at
/// or before any given one, and holds the bytes as they were.
pub proof fn lemma_embedded_nul_is_rejected(bytes: Seq<u8>, i: int)
    requires
        bytes.len() <= usize::MAX,
        0 <= i < bytes.len(),
        bytes[i] == 0,
    ensures
        c_string_of(bytes) matches Err(ErrorView::NullString { position, bytes: held })
            && position <= i && bytes[position as int] == 0 && held == bytes,
{
    assert(!nul_free(bytes));
    lemma_first_nul_exists(bytes, i);
    let first = first_nul(bytes);
    assert(is_first_nul(bytes, first));
    if i < first {
        assert(bytes[i] != 0);
    }
}

/// Below or at a zero byte there is a first one.
proof fn lemma_first_nul_exists(bytes: Seq<u8>, i: int)
    requires
        0 <= i < bytes.len(),
        bytes[i] == 0,
    ensures
        exists|position: int| is_first_nul(bytes, position),
    decreases i,
{
    if forall|j: int| 0 <= j < i ==> bytes[j] != 0 {
        assert(is_first_nul(bytes, i));
    } else {
        let j = choose|j: int| 0 <= j < i && bytes[j] == 0;
        lemma_first_nul_exists(bytes, j);
    }
}

/// The C string of a text without zero bytes holds one zero byte, the last,
/// and before it the text.
pub proof fn lemma_c_string_is_terminated(bytes: Seq<u8>)
    requires
        nul_free(bytes),
    ensures
        c_string_of(bytes) matches Ok(made) && made.len() == bytes.len() + 1 && made.take(
            bytes.len() as int,
        ) == bytes && is_first_nul(made, bytes.len() as int),
{
    let made = bytes.push(0u8);
    assert(made.take(bytes.len() as int) =~= bytes);
}

/// Turns a text into the bytes of a C string.
///
/// A text with a zero byte cannot be represented and is rejected with
/// [`RtMidiError::NullString`], which holds the index of the first zero byte
/// and the bytes of the text.
pub fn c_string(text: &str) -> (r: Result<Vec<u8>, RtMidiError>)
    ensures
        bytes_outcome(r) == c_string_of(text.spec_bytes()),
{
    let mut bytes = text.as_bytes_vec();
    let mut i: usize = 0;
    while i < bytes.len()
        invariant
            i <= bytes.len(),
            bytes@ == text.spec_bytes(),
            forall|j: int| 0 <= j < i ==> bytes@[j] != 0,
        decreases bytes.len() - i,
    {
        if bytes[i] == 0 {
            proof {
                lemma_first_nul_unique(bytes@, i as int);
            }
            return Err(RtMidiError::from(NulFailure { position: i, bytes }));
        }
        i += 1;
    }
    bytes.push(0u8);
    Ok(bytes)
}

/// `length` is the length of the longest prefix of `bytes` that is valid
/// UTF-8.
pub open spec fn is_valid_up_to(bytes: Seq<u8>, length: int) -> bool {
    &&& 0 <= length <= bytes.len()
    &&& valid_utf8(bytes.take(length))
    &&& forall|longer: int|
        length < longer <= bytes.len() ==> !valid_utf8(#[trigger] bytes.take(longer))
}

/// The length of the longest prefix of `bytes` that is valid UTF-8.
pub open spec fn valid_up_to(bytes: Seq<u8>) -> int {
    choose|length: int| is_valid_up_to(bytes, length)
}

/// What the standard decoder reports as the length of the byte sequence that
/// stopped it, on bytes that are not valid UTF-8.
pub uninterp spec fn utf8_error_len(bytes: Seq<u8>) -> Option<usize>;

/// The text that `bytes` encode, or the failure of decoding them.
pub open spec fn text_of(bytes: Seq<u8>) -> Result<Seq<char>, ErrorView> {
    if valid_utf8(bytes) {
        Ok(decode_utf8(bytes))
    } else {
        Err(
            ErrorView::Utf8 {
                valid_up_to: valid_up_to(bytes) as usize,
                error_len: utf8_error_len(bytes),
            },
        )
    }
}

/// A sequence has one longest valid prefix.
pub proof fn lemma_valid_up_to_unique(bytes: Seq<u8>, length: int)
    requires
        is_valid_up_to(bytes, length),
    ensures
        valid_up_to(bytes) == length,
{
    let chosen = valid_up_to(bytes);
    assert(is_valid_up_to(bytes, chosen));
    if chosen < length {
        assert(!valid_utf8(bytes.take(length)));
    } else if length < chosen {
        assert(!valid_utf8(bytes.take(chosen)));
    }
}

/// Calls `std::str::from_utf8` and copies what it returns.
///
/// Not proved: that the call succeeds exactly on valid UTF-8 and then yields
/// the characters that the bytes encode; that on other bytes the error's
/// `valid_up_to()` is the length of the longest valid prefix, as its
/// documentation says, and its `error_len()` depends on the bytes alone.
#[verifier::external_body]
fn from_utf8(bytes: &[u8]) -> (r: Result<String, Utf8Failure>)
    ensures
        match r {
            Ok(text) => valid_utf8(bytes@) && text@ == decode_utf8(bytes@),
            Err(failure) => {
                &&& !valid_utf8(bytes@)
                &&& is_valid_up_to(bytes@, failure.valid_up_to as int)
                &&& failure.error_len == utf8_error_len(bytes@)
            },
        },
{
    match std::str::from_utf8(bytes) {
        Ok(text) => Ok(text.to_owned()),
        Err(error) => Err(
            Utf8Failure { valid_up_to: error.valid_up_to(), error_len: error.error_len() },
        ),
    }
}

/// Decodes a text that the native library handed out.
///
/// Bytes that are not valid UTF-8 are rejected with [`RtMidiError::Utf8`],
/// which holds the length of the longest valid prefix.
pub fn decode_text(bytes: &[u8]) -> (r: Result<String, RtMidiError>)
    ensures
        text_outcome(r) == text_of(bytes@),
{
    match from_utf8(bytes) {
        Ok(text) => Ok(text),
        Err(failure) => {
            proof {
                lemma_valid_up_to_unique(bytes@, failure.valid_up_to as int);
            }
            Err(RtMidiError::from(failure))
        },
    }
}

/// The status record of a native instance, read after a call.
#[derive(Debug, Clone, PartialEq, Eq)]
pub struct NativeStatus {
    /// Whether the call succeeded.
    pub ok: bool,
    /// The bytes of the error message without the terminating zero, or
    /// `None` where the record holds no message.
    pub msg: Option<Vec<u8>>,
}

impl NativeStatus {
    /// What the record means: success, or the error with its message. A
    /// record without a message gives "Invalid error", one whose message is
    /// not valid UTF-8 gives "Unknown error".
    pub open spec fn result_spec(&self) -> Result<(), ErrorView> {
        if self.ok {
            Ok(())
        } else {
            match self.msg {
                None => Err(ErrorView::Error("Invalid error"@)),
                Some(bytes) => if valid_utf8(bytes@) {
                    Err(ErrorView::Error(decode_utf8(bytes@)))
                } else {
                    Err(ErrorView::Error("Unknown error"@))
                },
            }
        }
    }

    /// A record that reports success.
    pub fn success() -> (status: NativeStatus)
        ensures
            status.ok,
            status.msg is None,
    {
        NativeStatus { ok: true, msg: None }
    }

    /// A record that reports a failure with the given message.
    pub fn failure(message: &str) -> (status: NativeStatus)
        ensures
            !status.ok,
            status.msg matches Some(bytes) && bytes@ == message.spec_bytes(),
    {
        NativeStatus { ok: false, msg: Some(message.as_bytes_vec()) }
    }

    /// Turns the record into a typed result.
    pub fn result(&self) -> (r: Result<(), RtMidiError>)
        ensures
            outcome(r) == self.result_spec(),
    {
        if self.ok {
            return Ok(());
        }
        match &self.msg {
            None => Err(RtMidiError::Error("Invalid error".to_owned())),
            Some(bytes) => match from_utf8(bytes.as_slice()) {
                Ok(message) => Err(RtMidiError::Error(message)),
                Err(_) => Err(RtMidiError::Error("Unknown error".to_owned())),
            },
        }
    }
}

/// The result of a status record is a success exactly where the record says
/// so: no failure of the native library is swallowed, and none is made up.
pub proof fn lemma_result_follows_status(status: NativeStatus)
    ensures
        status.result_spec() is Ok <==> status.ok,
        status.result_spec() matches Err(error) ==> error is Error,
{
}

/// The number of message bytes that a callback of the older interface
/// receives: it is handed no length.
pub const FIXED_MESSAGE_LEN: usize = 3;

/// The generations of the native library's interface. Which one is linked is
/// settled when the program is built.
#[derive(Debug, Clone, Copy, PartialEq, Eq, Structural)]
pub enum Generation {
    /// Major version 3: a callback receives the time, the data and the
    /// context, and there is no lookup of display names.
    V3,
    /// Major version 4: a callback receives the time, the data, their length
    /// as a 64-bit number and the context.
    V4,
}

impl Generation {
    /// The number of bytes behind the data pointer of a callback.
    pub open spec fn callback_len_spec(self, size: u64) -> int {
        match self {
            Generation::V3 => FIXED_MESSAGE_LEN as int,
            Generation::V4 => size as int,
        }
    }

    /// The number of bytes behind the data pointer that the native library
    /// hands to a callback: `size` where the interface passes the length,
    /// else the fixed length, whatever `size` is.
    pub fn callback_len(self, size: u64) -> (len: usize)
        requires
            self == Generation::V4 ==> size <= usize::MAX,
        ensures
            len == self.callback_len_spec(size),
    {
        match self {
            Generation::V3 => FIXED_MESSAGE_LEN,
            Generation::V4 => size as usize,
        }
    }

    /// Whether the interface can look up the display name of a backend.
    pub fn has_display_names(self) -> (has: bool)
        ensures
            has <==> self == Generation::V4,
    {
        match self {
            Generation::V3 => false,
            Generation::V4 => true,
        }
    }
}

} // verus!
