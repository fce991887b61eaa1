//! The backends of the native library and their native numbers.
use vstd::prelude::*;

use crate::error::{text_outcome, ErrorView, RtMidiError};
use crate::ffi::{decode_text, text_of};

verus! {

/// MIDI API specifier
#[derive(Debug, Clone, Copy, PartialEq, Eq, Structural)]
pub enum RtMidiApi {
    /// Search for a working compiled API.
    Unspecified,
    /// Macintosh OS-X CoreMIDI API.
    MacOSXCore,
    /// The Advanced Linux Sound Architecture API.
    LinuxALSA,
    /// The JACK Low-Latency MIDI Server API.
    UnixJack,
    /// The Microsoft Multimedia MIDI API.
    WindowsMM,
    /// A compilable but non-functional API.
    RtMidiDummy,
}

impl RtMidiApi {
    /// The number by which the native library knows this backend.
    pub open spec fn code_spec(self) -> u32 {
        match self {
            RtMidiApi::Unspecified => 0,
            RtMidiApi::MacOSXCore => 1,
            RtMidiApi::LinuxALSA => 2,
            RtMidiApi::UnixJack => 3,
            RtMidiApi::WindowsMM => 4,
            RtMidiApi::RtMidiDummy => 5,
        }
    }

    /// Whether the native library knows a backend by this number.
    pub open spec fn is_code(code: u32) -> bool {
        code <= 5
    }

    /// The backend that the native library knows by `code`.
    pub open spec fn from_code_spec(code: u32) -> RtMidiApi
        recommends
            Self::is_code(code),
    {
        if code == 0 {
            RtMidiApi::Unspecified
        } else if code == 1 {
            RtMidiApi::MacOSXCore
        } else if code == 2 {
            RtMidiApi::LinuxALSA
        } else if code == 3 {
            RtMidiApi::UnixJack
        } else if code == 4 {
            RtMidiApi::WindowsMM
        } else {
            RtMidiApi::RtMidiDummy
        }
    }

    /// The number by which the native library knows this backend.
    #[verifier::when_used_as_spec(code_spec)]
    pub fn code(self) -> (code: u32)
        ensures
            code == self.code_spec(),
            Self::is_code(code),
            Self::from_code_spec(code) == self,
    {
        match self {
            RtMidiApi::Unspecified => 0,
            RtMidiApi::MacOSXCore => 1,
            RtMidiApi::LinuxALSA => 2,
            RtMidiApi::UnixJack => 3,
            RtMidiApi::WindowsMM => 4,
            RtMidiApi::RtMidiDummy => 5,
        }
    }

    /// The backend for a number that came from the native library.
    ///
    /// A number that stands for no backend is a programming error: the
    /// caller rules it out.
    pub fn from_code(code: u32) -> (api: RtMidiApi)
        requires
            Self::is_code(code),
        ensures
            api == Self::from_code_spec(code),
            api.code_spec() == code,
            api == RtMidiApi::Unspecified <==> code == 0,
    {
        match code {
            0 => RtMidiApi::Unspecified,
            1 => RtMidiApi::MacOSXCore,
            2 => RtMidiApi::LinuxALSA,
            3 => RtMidiApi::UnixJack,
            4 => RtMidiApi::WindowsMM,
            _ => RtMidiApi::RtMidiDummy,
        }
    }

    /// The backend for `code`, or `None` where it stands for none.
    pub fn try_from_code(code: u32) -> (api: Option<RtMidiApi>)
        ensures
            api == if Self::is_code(code) {
                Some(Self::from_code_spec(code))
            } else {
                None
            },
    {
        if code <= 5 {
            Some(Self::from_code(code))
        } else {
            None
        }
    }

    /// The name under which the native library shows this backend.
    ///
    /// `native` looks the name up by the backend's number and returns its
    /// bytes, or `None` where the linked library has no such lookup or knows
    /// no name; the display name is then empty.
    pub fn display_name<N: FnOnce(u32) -> Option<Vec<u8>>>(self, native: N) -> (r: Result<
        String,
        RtMidiError,
    >)
        requires
            call_requires(native, (self.code_spec(),)),
        ensures
            exists|found: Option<Vec<u8>>|
                {
                    &&& #[trigger] call_ensures(native, (self.code_spec(),), found)
                    &&& text_outcome(r) == Self::display_name_of(found)
                },
    {
        let found = native(self.code());
        Self::display_name_from(found)
    }

    /// The display name for what the native lookup returned.
    pub open spec fn display_name_of(found: Option<Vec<u8>>) -> Result<Seq<char>, ErrorView> {
        match found {
            None => Ok(Seq::empty()),
            Some(bytes) => text_of(bytes@),
        }
    }

    /// The display name for what the native lookup returned: empty where it
    /// returned nothing, else the text that the bytes encode.
    pub fn display_name_from(found: Option<Vec<u8>>) -> (r: Result<String, RtMidiError>)
        ensures
            text_outcome(r) == Self::display_name_of(found),
    {
        match found {
            None => Ok(String::new()),
            Some(bytes) => decode_text(bytes.as_slice()),
        }
    }
}

/// Every backend is found again from its native number.
pub proof fn lemma_code_round_trip(api: RtMidiApi)
    ensures
        RtMidiApi::is_code(api.code_spec()),
        RtMidiApi::from_code_spec(api.code_spec()) == api,
{
}

/// Every native number of a backend is found again from the backend.
pub proof fn lemma_from_code_round_trip(code: u32)
    requires
        RtMidiApi::is_code(code),
    ensures
        RtMidiApi::from_code_spec(code).code_spec() == code,
{
}

/// Two backends with the same native number are the same backend.
pub proof fn lemma_code_injective(a: RtMidiApi, b: RtMidiApi)
    requires
        a.code_spec() == b.code_spec(),
    ensures
        a == b,
{
}

} // verus!
