//! The port operations that inputs and outputs share.
//!
//! Each operation takes the native instance it works on and the native
//! function that it drives. It hands that function the instance and the
//! validated arguments, and turns what comes back into a typed result.
use vstd::prelude::*;
use vstd::string::StringSliceAdditionalSpecFns;
use vstd::utf8::{decode_utf8, valid_utf8};

use crate::error::{outcome, text_outcome, ErrorView, RtMidiError};
use crate::ffi::{c_string, c_string_of, decode_text, text_of, NativeInstance, NativeStatus};
use crate::RtMidiPort;

verus! {

/// The port count for what the native query returned: the count where the
/// status reports success, zero included, else the error of the status.
pub open spec fn port_count_of(count: RtMidiPort, status: NativeStatus) -> Result<
    RtMidiPort,
    ErrorView,
> {
    match status.result_spec() {
        Ok(_) => Ok(count),
        Err(error) => Err(error),
    }
}

/// The port name for what the native query returned: the error of the
/// status where it reports one, a missing name where the query returned no
/// text, else the text that the bytes encode.
pub open spec fn port_name_of(name: Option<Vec<u8>>, status: NativeStatus) -> Result<
    Seq<char>,
    ErrorView,
> {
    match status.result_spec() {
        Ok(_) => match name {
            None => Err(ErrorView::NullPointer),
            Some(bytes) => text_of(bytes@),
        },
        Err(error) => Err(error),
    }
}

/// A port count is never an error by itself: where the native library
/// reports success the count is returned, also where no device is there and
/// the count is zero.
pub proof fn lemma_port_count_needs_no_device(count: RtMidiPort, status: NativeStatus)
    requires
        status.ok,
    ensures
        port_count_of(count, status) == Ok::<RtMidiPort, ErrorView>(count),
        port_count_of(0, status) == Ok::<RtMidiPort, ErrorView>(0),
{
}

/// A query for the name of a port that the native library does not know
/// ends in a value: where the library reports success, no text gives the
/// missing-name error and an empty text gives the empty name.
pub proof fn lemma_port_name_out_of_range(status: NativeStatus, empty: Vec<u8>)
    requires
        status.ok,
        empty@.len() == 0,
    ensures
        port_name_of(None, status) == Err::<Seq<char>, ErrorView>(ErrorView::NullPointer),
        port_name_of(Some(empty), status) == Ok::<Seq<char>, ErrorView>(Seq::empty()),
{
    assert(valid_utf8(empty@));
    assert(decode_utf8(empty@) =~= Seq::<char>::empty());
}

/// Opens a connection from `instance` to the port with the given number.
///
/// `native` receives the instance, the port number and the name as a C
/// string, and returns the status of the instance after the call. It is not
/// called where the name holds a zero byte.
pub fn open_port<N: FnOnce(NativeInstance, RtMidiPort, Vec<u8>) -> NativeStatus>(
    instance: NativeInstance,
    port_number: RtMidiPort,
    port_name: &str,
    native: N,
) -> (r: Result<(), RtMidiError>)
    requires
        forall|name: Vec<u8>|
            c_string_of(port_name.spec_bytes()) == Ok::<Seq<u8>, ErrorView>(name@)
                ==> call_requires(native, (instance, port_number, name)),
    ensures
        match c_string_of(port_name.spec_bytes()) {
            Ok(bytes) => exists|name: Vec<u8>, status: NativeStatus|
                {
                    &&& name@ == bytes
                    &&& #[trigger] call_ensures(native, (instance, port_number, name), status)
                    &&& outcome(r) == status.result_spec()
                },
            Err(error) => outcome(r) == Err::<(), ErrorView>(error),
        },
{
    match c_string(port_name) {
        Ok(name) => {
            let status = native(instance, port_number, name);
            status.result()
        },
        Err(error) => Err(error),
    }
}

/// Creates a virtual port of `instance` under the given name.
///
/// `native` receives the instance and the name as a C string, and returns
/// the status of the instance after the call. It is not called where the
/// name holds a zero byte. A backend without virtual ports reports an error,
/// which is returned like any other.
pub fn open_virtual_port<N: FnOnce(NativeInstance, Vec<u8>) -> NativeStatus>(
    instance: NativeInstance,
    port_name: &str,
    native: N,
) -> (r: Result<(), RtMidiError>)
    requires
        forall|name: Vec<u8>|
            c_string_of(port_name.spec_bytes()) == Ok::<Seq<u8>, ErrorView>(name@)
                ==> call_requires(native, (instance, name)),
    ensures
        match c_string_of(port_name.spec_bytes()) {
            Ok(bytes) => exists|name: Vec<u8>, status: NativeStatus|
                {
                    &&& name@ == bytes
                    &&& #[trigger] call_ensures(native, (instance, name), status)
                    &&& outcome(r) == status.result_spec()
                },
            Err(error) => outcome(r) == Err::<(), ErrorView>(error),
        },
{
    match c_string(port_name) {
        Ok(name) => {
            let status = native(instance, name);
            status.result()
        },
        Err(error) => Err(error),
    }
}

/// Closes the connection of `instance`, if one is open.
///
/// `native` receives the instance and returns its status after the call.
pub fn close_port<N: FnOnce(NativeInstance) -> NativeStatus>(
    instance: NativeInstance,
    native: N,
) -> (r: Result<(), RtMidiError>)
    requires
        call_requires(native, (instance,)),
    ensures
        exists|status: NativeStatus|
            {
                &&& #[trigger] call_ensures(native, (instance,), status)
                &&& outcome(r) == status.result_spec()
            },
{
    let status = native(instance);
    status.result()
}

/// The port count for what the native query returned.
pub fn port_count_from(count: RtMidiPort, status: &NativeStatus) -> (r: Result<
    RtMidiPort,
    RtMidiError,
>)
    ensures
        outcome(r) == port_count_of(count, *status),
{
    match status.result() {
        Ok(_) => Ok(count),
        Err(error) => Err(error),
    }
}

/// Returns the number of ports that `instance` can currently enumerate.
///
/// `native` receives the instance and returns the count with the status of
/// the instance after the call.
pub fn port_count<N: FnOnce(NativeInstance) -> (RtMidiPort, NativeStatus)>(
    instance: NativeInstance,
    native: N,
) -> (r: Result<RtMidiPort, RtMidiError>)
    requires
        call_requires(native, (instance,)),
    ensures
        exists|reply: (RtMidiPort, NativeStatus)|
            {
                &&& #[trigger] call_ensures(native, (instance,), reply)
                &&& outcome(r) == port_count_of(reply.0, reply.1)
            },
{
    let reply = native(instance);
    port_count_from(reply.0, &reply.1)
}

/// The port name for what the native query returned.
pub fn port_name_from(name: Option<Vec<u8>>, status: &NativeStatus) -> (r: Result<
    String,
    RtMidiError,
>)
    ensures
        text_outcome(r) == port_name_of(name, *status),
{
    match status.result() {
        Ok(_) => match name {
            None => Err(RtMidiError::NullPointer),
            Some(bytes) => decode_text(bytes.as_slice()),
        },
        Err(error) => Err(error),
    }
}

/// Returns the name of the port with the given number.
///
/// `native` receives the instance and the port number, and returns the bytes
/// of the name, or `None` where the native library produced no text, with
/// the status of the instance after the call.
pub fn port_name<N: FnOnce(NativeInstance, RtMidiPort) -> (Option<Vec<u8>>, NativeStatus)>(
    instance: NativeInstance,
    port_number: RtMidiPort,
    native: N,
) -> (r: Result<String, RtMidiError>)
    requires
        call_requires(native, (instance, port_number)),
    ensures
        exists|reply: (Option<Vec<u8>>, NativeStatus)|
            {
                &&& #[trigger] call_ensures(native, (instance, port_number), reply)
                &&& text_outcome(r) == port_name_of(reply.0, reply.1)
            },
{
    let reply = native(instance, port_number);
    port_name_from(reply.0, &reply.1)
}

} // verus!
