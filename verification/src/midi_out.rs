//! Realtime MIDI output.
use vstd::prelude::*;
use vstd::string::StringSliceAdditionalSpecFns;

use crate::api::RtMidiApi;
use crate::error::{outcome, text_outcome, ErrorView, RtMidiError};
use crate::ffi::{c_string, c_string_of, NativeInstance, NativeStatus};
use crate::midi;
use crate::RtMidiPort;

verus! {

/// The client name of an output that is given none.
pub const DEFAULT_CLIENT_NAME: &'static str = "RtMidi Output Client";

/// Output arguments
///
/// Defines arguments used when constructing [`RtMidiOut`].
pub struct RtMidiOutArgs<'a> {
    /// API to use
    pub api: RtMidiApi,
    /// A client name used to group ports created by the application
    pub client_name: &'a str,
}

impl<'a> Default for RtMidiOutArgs<'a> {
    fn default() -> (args: Self)
        ensures
            args.api == RtMidiApi::Unspecified,
            args.client_name@ == DEFAULT_CLIENT_NAME@,
    {
        RtMidiOutArgs { api: RtMidiApi::Unspecified, client_name: DEFAULT_CLIENT_NAME }
    }
}

/// Realtime MIDI output
///
/// An output owns one native instance. It allows one to probe the available
/// MIDI output ports, to connect to one such port, and to send MIDI bytes
/// immediately over the connection. The value cannot be copied, so the
/// instance has one owner, and [`RtMidiOut::free`] consumes it.
pub struct RtMidiOut {
    instance: NativeInstance,
}

/// The instance that a constructor call yields, or its error.
pub open spec fn made(r: Result<RtMidiOut, RtMidiError>) -> Result<NativeInstance, ErrorView> {
    match r {
        Ok(output) => Ok(output.instance_spec()),
        Err(error) => Err(error@),
    }
}

/// The instance that the native constructor created, where the status
/// reports success, else the error of the status.
pub open spec fn created_of(instance: NativeInstance, status: NativeStatus) -> Result<
    NativeInstance,
    ErrorView,
> {
    match status.result_spec() {
        Ok(_) => Ok(instance),
        Err(error) => Err(error),
    }
}

impl RtMidiOut {
    /// The native instance that this output owns.
    pub closed spec fn instance_spec(&self) -> NativeInstance {
        self.instance
    }

    /// The native instance that this output owns.
    #[verifier::when_used_as_spec(instance_spec)]
    pub fn instance(&self) -> (instance: NativeInstance)
        ensures
            instance == self.instance_spec(),
    {
        self.instance
    }

    /// The output for what the native constructor returned: the owner of
    /// `instance` where the status reports success, else the error of the
    /// status.
    pub fn wrap(instance: NativeInstance, status: &NativeStatus) -> (r: Result<
        RtMidiOut,
        RtMidiError,
    >)
        ensures
            made(r) == created_of(instance, *status),
    {
        match status.result() {
            Ok(_) => Ok(RtMidiOut { instance }),
            Err(error) => Err(error),
        }
    }

    /// Default constructor that allows an optional api and client name using
    /// the [`RtMidiOutArgs`] type.
    ///
    /// `native` receives the number of the API and the client name as a C
    /// string, and returns the instance that it created with the status of
    /// that instance. It is not called where the client name holds a zero
    /// byte.
    pub fn new<N: FnOnce(u32, Vec<u8>) -> (NativeInstance, NativeStatus)>(
        args: RtMidiOutArgs,
        native: N,
    ) -> (r: Result<RtMidiOut, RtMidiError>)
        requires
            forall|name: Vec<u8>|
                c_string_of(args.client_name.spec_bytes()) == Ok::<Seq<u8>, ErrorView>(name@)
                    ==> call_requires(native, (args.api.code_spec(), name)),
        ensures
            match c_string_of(args.client_name.spec_bytes()) {
                Ok(bytes) => exists|name: Vec<u8>, reply: (NativeInstance, NativeStatus)|
                    {
                        &&& name@ == bytes
                        &&& #[trigger] call_ensures(native, (args.api.code_spec(), name), reply)
                        &&& made(r) == created_of(reply.0, reply.1)
                    },
                Err(error) => made(r) matches Err(given) && given == error,
            },
    {
        match c_string(args.client_name) {
            Ok(name) => {
                let reply = native(args.api.code(), name);
                Self::wrap(reply.0, &reply.1)
            },
            Err(error) => Err(error),
        }
    }

    /// Returns the MIDI API specifier for the current instance
    ///
    /// `native` receives the instance and returns the number of its backend.
    /// The result is [`RtMidiApi::Unspecified`] only where the native
    /// library reports that number.
    pub fn current_api<N: FnOnce(NativeInstance) -> u32>(&self, native: N) -> (api: RtMidiApi)
        requires
            call_requires(native, (self.instance_spec(),)),
            forall|code: u32| #[trigger]
                call_ensures(native, (self.instance_spec(),), code) ==> RtMidiApi::is_code(code),
        ensures
            exists|code: u32|
                {
                    &&& #[trigger] call_ensures(native, (self.instance_spec(),), code)
                    &&& api == RtMidiApi::from_code_spec(code)
                    &&& api == RtMidiApi::Unspecified <==> code == 0
                },
    {
        let code = native(self.instance);
        RtMidiApi::from_code(code)
    }

    /// Open a MIDI output connection
    pub fn open_port<N: FnOnce(NativeInstance, RtMidiPort, Vec<u8>) -> NativeStatus>(
        &self,
        port_number: RtMidiPort,
        port_name: &str,
        native: N,
    ) -> (r: Result<(), RtMidiError>)
        requires
            forall|name: Vec<u8>|
                c_string_of(port_name.spec_bytes()) == Ok::<Seq<u8>, ErrorView>(name@)
                    ==> call_requires(native, (self.instance_spec(), port_number, name)),
        ensures
            match c_string_of(port_name.spec_bytes()) {
                Ok(bytes) => exists|name: Vec<u8>, status: NativeStatus|
                    {
                        &&& name@ == bytes
                        &&& #[trigger] call_ensures(
                            native,
                            (self.instance_spec(), port_number, name),
                            status,
                        )
                        &&& outcome(r) == status.result_spec()
                    },
                Err(error) => outcome(r) == Err::<(), ErrorView>(error),
            },
    {
        midi::open_port(self.instance, port_number, port_name, native)
    }

    /// Create a virtual output port, with a name, to allow software
    /// connections (macOS, JACK and ALSA only).
    ///
    /// The other backends report an error, which is returned.
    pub fn open_virtual_port<N: FnOnce(NativeInstance, Vec<u8>) -> NativeStatus>(
        &self,
        port_name: &str,
        native: N,
    ) -> (r: Result<(), RtMidiError>)
        requires
            forall|name: Vec<u8>|
                c_string_of(port_name.spec_bytes()) == Ok::<Seq<u8>, ErrorView>(name@)
                    ==> call_requires(native, (self.instance_spec(), name)),
        ensures
            match c_string_of(port_name.spec_bytes()) {
                Ok(bytes) => exists|name: Vec<u8>, status: NativeStatus|
                    {
                        &&& name@ == bytes
                        &&& #[trigger] call_ensures(native, (self.instance_spec(), name), status)
                        &&& outcome(r) == status.result_spec()
                    },
                Err(error) => outcome(r) == Err::<(), ErrorView>(error),
            },
    {
        midi::open_virtual_port(self.instance, port_name, native)
    }

    /// Close an open MIDI connection (if one exists)
    pub fn close_port<N: FnOnce(NativeInstance) -> NativeStatus>(&self, native: N) -> (r: Result<
        (),
        RtMidiError,
    >)
        requires
            call_requires(native, (self.instance_spec(),)),
        ensures
            exists|status: NativeStatus|
                {
                    &&& #[trigger] call_ensures(native, (self.instance_spec(),), status)
                    &&& outcome(r) == status.result_spec()
                },
    {
        midi::close_port(self.instance, native)
    }

    /// Return the number of available MIDI output ports
    pub fn port_count<N: FnOnce(NativeInstance) -> (RtMidiPort, NativeStatus)>(
        &self,
        native: N,
    ) -> (r: Result<RtMidiPort, RtMidiError>)
        requires
            call_requires(native, (self.instance_spec(),)),
        ensures
            exists|reply: (RtMidiPort, NativeStatus)|
                {
                    &&& #[trigger] call_ensures(native, (self.instance_spec(),), reply)
                    &&& outcome(r) == midi::port_count_of(reply.0, reply.1)
                },
    {
        midi::port_count(self.instance, native)
    }

    /// Return a string identifier for the specified MIDI output port number
    pub fn port_name<N: FnOnce(NativeInstance, RtMidiPort) -> (Option<Vec<u8>>, NativeStatus)>(
        &self,
        port_number: RtMidiPort,
        native: N,
    ) -> (r: Result<String, RtMidiError>)
        requires
            call_requires(native, (self.instance_spec(), port_number)),
        ensures
            exists|reply: (Option<Vec<u8>>, NativeStatus)|
                {
                    &&& #[trigger] call_ensures(native, (self.instance_spec(), port_number), reply)
                    &&& text_outcome(r) == midi::port_name_of(reply.0, reply.1)
                },
    {
        midi::port_name(self.instance, port_number, native)
    }

    /// Immediately send a single message out an open MIDI output port.
    ///
    /// `native` receives the instance, the bytes of the message as they were
    /// given and their number, and returns the status of the instance after
    /// the call. An error is returned if the native library reports one, as
    /// it does where no connection was established.
    pub fn message<N: FnOnce(NativeInstance, &[u8], i32) -> NativeStatus>(
        &self,
        message: &[u8],
        native: N,
    ) -> (r: Result<(), RtMidiError>)
        requires
            message@.len() <= i32::MAX,
            call_requires(native, (self.instance_spec(), message, message@.len() as i32)),
        ensures
            exists|status: NativeStatus|
                {
                    &&& #[trigger] call_ensures(
                        native,
                        (self.instance_spec(), message, message@.len() as i32),
                        status,
                    )
                    &&& outcome(r) == status.result_spec()
                },
    {
        let length = message.len() as i32;
        let status = native(self.instance, message, length);
        status.result()
    }

    /// Releases the native instance. The output is consumed, so the instance
    /// is released once.
    ///
    /// `native` receives the instance.
    pub fn free<N: FnOnce(NativeInstance)>(self, native: N)
        requires
            call_requires(native, (self.instance_spec(),)),
        ensures
            call_ensures(native, (self.instance_spec(),), ()),
    {
        native(self.instance)
    }
}

} // verus!
