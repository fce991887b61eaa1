//! Realtime MIDI input.
use vstd::prelude::*;
use vstd::string::StringSliceAdditionalSpecFns;

use crate::api::RtMidiApi;
use crate::error::{outcome, text_outcome, ErrorView, RtMidiError};
use crate::ffi::{c_string, c_string_of, CallbackContext, NativeInstance, NativeStatus};
use crate::midi;
use crate::RtMidiPort;

verus! {

/// The client name of an input that is given none.
pub const DEFAULT_CLIENT_NAME: &'static str = "RtMidi Input Client";

/// The queue size limit of an input that is given none.
pub const DEFAULT_QUEUE_SIZE_LIMIT: u32 = 100;

/// The number of bytes that the buffer for a polled message holds.
pub const MESSAGE_CAPACITY: usize = 1024;

/// Input arguments
///
/// Defines arguments used when constructing [`RtMidiIn`].
pub struct RtMidiInArgs<'a> {
    /// API to use
    pub api: RtMidiApi,
    /// A client name used to group ports created by the application
    pub client_name: &'a str,
    /// Size of the MIDI input queue
    pub queue_size_limit: u32,
}

impl<'a> Default for RtMidiInArgs<'a> {
    fn default() -> (args: Self)
        ensures
            args.api == RtMidiApi::Unspecified,
            args.client_name@ == DEFAULT_CLIENT_NAME@,
            args.queue_size_limit == DEFAULT_QUEUE_SIZE_LIMIT,
    {
        RtMidiInArgs {
            api: RtMidiApi::Unspecified,
            client_name: DEFAULT_CLIENT_NAME,
            queue_size_limit: DEFAULT_QUEUE_SIZE_LIMIT,
        }
    }
}

/// What the native library returned to a poll of the message queue.
pub struct NativeMessage<T> {
    /// The time since the previous message, as the native library gave it.
    pub timestamp: T,
    /// The buffer that was handed to the native library.
    pub buffer: Vec<u8>,
    /// The length of the message as the native library reported it. A
    /// message that does not fit in the buffer was not written to it.
    pub length: usize,
    /// The status of the instance after the call.
    pub status: NativeStatus,
}

/// How a change of the callback registration ended.
pub struct CallbackChange {
    /// What the operation returns.
    pub result: Result<(), RtMidiError>,
    /// The context that the native library held before and holds no longer:
    /// the caller reclaims it.
    pub released: Option<CallbackContext>,
}

/// The registration after the native library answered a request to cancel
/// the callback: nothing where it succeeded, else what was held before.
pub open spec fn after_cancel(
    held: Option<CallbackContext>,
    status: NativeStatus,
) -> Option<CallbackContext> {
    if status.ok {
        None
    } else {
        held
    }
}

/// The context that a request to cancel the callback sets free: the one held
/// before where the native library succeeded, else none.
pub open spec fn released_by_cancel(
    held: Option<CallbackContext>,
    status: NativeStatus,
) -> Option<CallbackContext> {
    if status.ok {
        held
    } else {
        None
    }
}

/// The registration after the native library answered a request to install
/// `context`: that context where it succeeded, else what was held before.
pub open spec fn after_install(
    held: Option<CallbackContext>,
    context: CallbackContext,
    status: NativeStatus,
) -> Option<CallbackContext> {
    if status.ok {
        Some(context)
    } else {
        held
    }
}

/// The bytes of a polled message: the first `length` bytes of the buffer, or
/// none where the message did not fit in it.
pub open spec fn message_bytes(buffer: Seq<u8>, length: usize) -> Seq<u8> {
    if length <= buffer.len() {
        buffer.take(length as int)
    } else {
        Seq::empty()
    }
}

/// The outcome of a poll with the bytes and the error taken by their views.
pub open spec fn polled<T>(r: Result<(T, Vec<u8>), RtMidiError>) -> Result<
    (T, Seq<u8>),
    ErrorView,
> {
    match r {
        Ok(message) => Ok((message.0, message.1@)),
        Err(error) => Err(error@),
    }
}

/// The message for what the native poll returned: the timestamp with the
/// bytes of the message where the status reports success, else the error of
/// the status. An empty queue gives a message without bytes.
pub open spec fn message_of<T>(reply: NativeMessage<T>) -> Result<(T, Seq<u8>), ErrorView> {
    match reply.status.result_spec() {
        Ok(_) => Ok((reply.timestamp, message_bytes(reply.buffer@, reply.length))),
        Err(error) => Err(error),
    }
}

/// Realtime MIDI input
///
/// An input owns one native instance and knows the callback context that
/// the native library holds for it, if any. Incoming messages are either
/// queued and read with [`RtMidiIn::message`], or passed to the callback
/// registered with [`RtMidiIn::set_callback`]. The value cannot be copied,
/// so the instance has one owner, and [`RtMidiIn::free`] consumes it.
pub struct RtMidiIn {
    instance: NativeInstance,
    callback: Option<CallbackContext>,
}

/// The instance and the registered callback of the input that a constructor
/// call yields, or its error.
pub open spec fn made(r: Result<RtMidiIn, RtMidiError>) -> Result<
    (NativeInstance, Option<CallbackContext>),
    ErrorView,
> {
    match r {
        Ok(input) => Ok((input.instance_spec(), input.callback_spec())),
        Err(error) => Err(error@),
    }
}

/// The instance that the native constructor created, with no callback
/// registered, where the status reports success, else the error of the
/// status.
pub open spec fn created_of(instance: NativeInstance, status: NativeStatus) -> Result<
    (NativeInstance, Option<CallbackContext>),
    ErrorView,
> {
    match status.result_spec() {
        Ok(_) => Ok((instance, None)),
        Err(error) => Err(error),
    }
}

impl RtMidiIn {
    /// The native instance that this input owns.
    pub closed spec fn instance_spec(&self) -> NativeInstance {
        self.instance
    }

    /// The callback context that the native library holds for this input.
    pub closed spec fn callback_spec(&self) -> Option<CallbackContext> {
        self.callback
    }

    /// The native instance that this input owns.
    #[verifier::when_used_as_spec(instance_spec)]
    pub fn instance(&self) -> (instance: NativeInstance)
        ensures
            instance == self.instance_spec(),
    {
        self.instance
    }

    /// The callback context that the native library holds for this input.
    #[verifier::when_used_as_spec(callback_spec)]
    pub fn callback(&self) -> (callback: Option<CallbackContext>)
        ensures
            callback == self.callback_spec(),
    {
        self.callback
    }

    /// The input for what the native constructor returned: the owner of
    /// `instance`, with no callback registered, where the status reports
    /// success, else the error of the status.
    pub fn wrap(instance: NativeInstance, status: &NativeStatus) -> (r: Result<
        RtMidiIn,
        RtMidiError,
    >)
        ensures
            made(r) == created_of(instance, *status),
    {
        match status.result() {
            Ok(_) => Ok(RtMidiIn { instance, callback: None }),
            Err(error) => Err(error),
        }
    }

    /// Default constructor that allows an optional api, client name and
    /// queue size using the [`RtMidiInArgs`] type.
    ///
    /// `native` receives the number of the API, the client name as a C
    /// string and the queue size limit, and returns the instance that it
    /// created with the status of that instance. It is not called where the
    /// client name holds a zero byte.
    pub fn new<N: FnOnce(u32, Vec<u8>, u32) -> (NativeInstance, NativeStatus)>(
        args: RtMidiInArgs,
        native: N,
    ) -> (r: Result<RtMidiIn, RtMidiError>)
        requires
            forall|name: Vec<u8>|
                c_string_of(args.client_name.spec_bytes()) == Ok::<Seq<u8>, ErrorView>(name@)
                    ==> call_requires(
                    native,
                    (args.api.code_spec(), name, args.queue_size_limit),
                ),
        ensures
            match c_string_of(args.client_name.spec_bytes()) {
                Ok(bytes) => exists|name: Vec<u8>, reply: (NativeInstance, NativeStatus)|
                    {
                        &&& name@ == bytes
                        &&& #[trigger] call_ensures(
                            native,
                            (args.api.code_spec(), name, args.queue_size_limit),
                            reply,
                        )
                        &&& made(r) == created_of(reply.0, reply.1)
                    },
                Err(error) => made(r) matches Err(given) && given == error,
            },
    {
        match c_string(args.client_name) {
            Ok(name) => {
                let reply = native(args.api.code(), name, args.queue_size_limit);
                Self::wrap(reply.0, &reply.1)
            },
            Err(error) => Err(error),
        }
    }

    /// Returns the MIDI API specifier for the current instance
    ///
    /// `native` receives the instance and returns the number of its backend.
    /// The result is [`RtMidiApi::Unspecified`] only where the native
    /// library reports that number.
    pub fn current_api<N: FnOnce(NativeInstance) -> u32>(&self, native: N) -> (api: RtMidiApi)
        requires
            call_requires(native, (self.instance_spec(),)),
            forall|code: u32| #[trigger]
                call_ensures(native, (self.instance_spec(),), code) ==> RtMidiApi::is_code(code),
        ensures
            exists|code: u32|
                {
                    &&& #[trigger] call_ensures(native, (self.instance_spec(),), code)
                    &&& api == RtMidiApi::from_code_spec(code)
                    &&& api == RtMidiApi::Unspecified <==> code == 0
                },
    {
        let code = native(self.instance);
        RtMidiApi::from_code(code)
    }

    /// Open a MIDI input connection given by enumeration number
    pub fn open_port<N: FnOnce(NativeInstance, RtMidiPort, Vec<u8>) -> NativeStatus>(
        &self,
        port_number: RtMidiPort,
        port_name: &str,
        native: N,
    ) -> (r: Result<(), RtMidiError>)
        requires
            forall|name: Vec<u8>|
                c_string_of(port_name.spec_bytes()) == Ok::<Seq<u8>, ErrorView>(name@)
                    ==> call_requires(native, (self.instance_spec(), port_number, name)),
        ensures
            match c_string_of(port_name.spec_bytes()) {
                Ok(bytes) => exists|name: Vec<u8>, status: NativeStatus|
                    {
                        &&& name@ == bytes
                        &&& #[trigger] call_ensures(
                            native,
                            (self.instance_spec(), port_number, name),
                            status,
                        )
                        &&& outcome(r) == status.result_spec()
                    },
                Err(error) => outcome(r) == Err::<(), ErrorView>(error),
            },
    {
        midi::open_port(self.instance, port_number, port_name, native)
    }

    /// Create a virtual input port, with a name, to allow software
    /// connections (macOS, JACK and ALSA only).
    ///
    /// The other backends report an error, which is returned.
    pub fn open_virtual_port<N: FnOnce(NativeInstance, Vec<u8>) -> NativeStatus>(
        &self,
        port_name: &str,
        native: N,
    ) -> (r: Result<(), RtMidiError>)
        requires
            forall|name: Vec<u8>|
                c_string_of(port_name.spec_bytes()) == Ok::<Seq<u8>, ErrorView>(name@)
                    ==> call_requires(native, (self.instance_spec(), name)),
        ensures
            match c_string_of(port_name.spec_bytes()) {
                Ok(bytes) => exists|name: Vec<u8>, status: NativeStatus|
                    {
                        &&& name@ == bytes
                        &&& #[trigger] call_ensures(native, (self.instance_spec(), name), status)
                        &&& outcome(r) == status.result_spec()
                    },
                Err(error) => outcome(r) == Err::<(), ErrorView>(error),
            },
    {
        midi::open_virtual_port(self.instance, port_name, native)
    }

    /// Close an open MIDI connection (if one exists)
    pub fn close_port<N: FnOnce(NativeInstance) -> NativeStatus>(&self, native: N) -> (r: Result<
        (),
        RtMidiError,
    >)
        requires
            call_requires(native, (self.instance_spec(),)),
        ensures
            exists|status: NativeStatus|
                {
                    &&& #[trigger] call_ensures(native, (self.instance_spec(),), status)
                    &&& outcome(r) == status.result_spec()
                },
    {
        midi::close_port(self.instance, native)
    }

    /// Return the number of available MIDI input ports
    pub fn port_count<N: FnOnce(NativeInstance) -> (RtMidiPort, NativeStatus)>(
        &self,
        native: N,
    ) -> (r: Result<RtMidiPort, RtMidiError>)
        requires
            call_requires(native, (self.instance_spec(),)),
        ensures
            exists|reply: (RtMidiPort, NativeStatus)|
                {
                    &&& #[trigger] call_ensures(native, (self.instance_spec(),), reply)
                    &&& outcome(r) == midi::port_count_of(reply.0, reply.1)
                },
    {
        midi::port_count(self.instance, native)
    }

    /// Return a string identifier for the specified MIDI input port number
    pub fn port_name<N: FnOnce(NativeInstance, RtMidiPort) -> (Option<Vec<u8>>, NativeStatus)>(
        &self,
        port_number: RtMidiPort,
        native: N,
    ) -> (r: Result<String, RtMidiError>)
        requires
            call_requires(native, (self.instance_spec(), port_number)),
        ensures
            exists|reply: (Option<Vec<u8>>, NativeStatus)|
                {
                    &&& #[trigger] call_ensures(native, (self.instance_spec(), port_number), reply)
                    &&& text_outcome(r) == midi::port_name_of(reply.0, reply.1)
                },
    {
        midi::port_name(self.instance, port_number, native)
    }

    /// Set a callback function to be invoked for incoming MIDI messages.
    ///
    /// `context` identifies the callback to the native library. Where a
    /// callback is registered already, `cancel` first takes it out of the
    /// native library, so that the native library never holds two contexts
    /// and never calls one that its owner has reclaimed; where that fails,
    /// nothing changes. Then `install` registers `context`. Each of the two
    /// receives the instance and returns its status after the call.
    ///
    /// The context registered before is handed back once the native library
    /// has let go of it. Where the result is an error, `context` was not
    /// registered and stays with the caller.
    pub fn set_callback<
        C: FnOnce(NativeInstance) -> NativeStatus,
        I: FnOnce(NativeInstance, CallbackContext) -> NativeStatus,
    >(
        &mut self,
        context: CallbackContext,
        cancel: C,
        install: I,
    ) -> (change: CallbackChange)
        requires
            old(self).callback_spec() != Some(context),
            old(self).callback_spec() is Some ==> call_requires(
                cancel,
                (old(self).instance_spec(),),
            ),
            call_requires(install, (old(self).instance_spec(), context)),
        ensures
            final(self).instance_spec() == old(self).instance_spec(),
            change.released is Some ==> change.released != final(self).callback_spec(),
            match old(self).callback_spec() {
                None => exists|installed: NativeStatus|
                    {
                        &&& #[trigger] call_ensures(
                            install,
                            (old(self).instance_spec(), context),
                            installed,
                        )
                        &&& final(self).callback_spec() == after_install(None, context, installed)
                        &&& change.released is None
                        &&& outcome(change.result) == installed.result_spec()
                    },
                Some(previous) => exists|cancelled: NativeStatus|
                    {
                        &&& #[trigger] call_ensures(
                            cancel,
                            (old(self).instance_spec(),),
                            cancelled,
                        )
                        &&& change.released == released_by_cancel(Some(previous), cancelled)
                        &&& if cancelled.ok {
                            exists|installed: NativeStatus|
                                {
                                    &&& #[trigger] call_ensures(
                                        install,
                                        (old(self).instance_spec(), context),
                                        installed,
                                    )
                                    &&& final(self).callback_spec() == after_install(
                                        None,
                                        context,
                                        installed,
                                    )
                                    &&& outcome(change.result) == installed.result_spec()
                                }
                        } else {
                            &&& final(self).callback_spec() == Some(previous)
                            &&& outcome(change.result) == cancelled.result_spec()
                        }
                    },
            },
    {
        let mut released: Option<CallbackContext> = None;
        if self.callback.is_some() {
            let cancelled = cancel(self.instance);
            if !cancelled.ok {
                return CallbackChange { result: cancelled.result(), released };
            }
            released = self.callback;
            self.callback = None;
        }
        let installed = install(self.instance, context);
        if installed.ok {
            self.callback = Some(context);
        }
        CallbackChange { result: installed.result(), released }
    }

    /// Cancel use of the current callback function (if one exists).
    ///
    /// `native` receives the instance and returns its status after the call.
    /// Where it succeeded no callback is registered any more, and the
    /// context registered before is handed back; subsequent incoming MIDI
    /// messages are written to the queue and can be retrieved with
    /// [`RtMidiIn::message`]. Where it failed nothing changes.
    pub fn cancel_callback<N: FnOnce(NativeInstance) -> NativeStatus>(
        &mut self,
        native: N,
    ) -> (change: CallbackChange)
        requires
            call_requires(native, (old(self).instance_spec(),)),
        ensures
            final(self).instance_spec() == old(self).instance_spec(),
            change.released is Some ==> change.released != final(self).callback_spec(),
            exists|status: NativeStatus|
                {
                    &&& #[trigger] call_ensures(native, (old(self).instance_spec(),), status)
                    &&& final(self).callback_spec() == after_cancel(
                        old(self).callback_spec(),
                        status,
                    )
                    &&& change.released == released_by_cancel(old(self).callback_spec(), status)
                    &&& outcome(change.result) == status.result_spec()
                },
    {
        let status = native(self.instance);
        let mut released: Option<CallbackContext> = None;
        if status.ok {
            released = self.callback;
            self.callback = None;
        }
        CallbackChange { result: status.result(), released }
    }

    /// Specify whether certain MIDI message types should be queued or
    /// ignored during input.
    ///
    /// Values of `true` imply that the respective message type will be
    /// ignored. `native` receives the instance and the three choices as they
    /// were given, and returns the status of the instance after the call.
    pub fn ignore_types<N: FnOnce(NativeInstance, bool, bool, bool) -> NativeStatus>(
        &self,
        midi_sysex: bool,
        midi_time: bool,
        midi_sense: bool,
        native: N,
    ) -> (r: Result<(), RtMidiError>)
        requires
            call_requires(native, (self.instance_spec(), midi_sysex, midi_time, midi_sense)),
        ensures
            exists|status: NativeStatus|
                {
                    &&& #[trigger] call_ensures(
                        native,
                        (self.instance_spec(), midi_sysex, midi_time, midi_sense),
                        status,
                    )
                    &&& outcome(r) == status.result_spec()
                },
    {
        let status = native(self.instance, midi_sysex, midi_time, midi_sense);
        status.result()
    }

    /// The message for what the native poll returned.
    pub fn message_from<T>(reply: NativeMessage<T>) -> (r: Result<(T, Vec<u8>), RtMidiError>)
        ensures
            polled(r) == message_of(reply),
    {
        match reply.status.result() {
            Ok(_) => {
                let mut bytes = reply.buffer;
                if reply.length <= bytes.len() {
                    bytes.truncate(reply.length);
                } else {
                    bytes.clear();
                }
                assert(bytes@ =~= message_bytes(reply.buffer@, reply.length));
                Ok((reply.timestamp, bytes))
            },
            Err(error) => Err(error),
        }
    }

    /// Return the data bytes for the next available MIDI message in the
    /// input queue and the event delta-time.
    ///
    /// This function returns immediately whether a new message is available
    /// or not. A valid message is indicated by a non-zero vector size: an
    /// empty queue is no error. `native` receives the instance and a zeroed
    /// buffer of [`MESSAGE_CAPACITY`] bytes, and returns what it polled.
    pub fn message<T, N: FnOnce(NativeInstance, Vec<u8>) -> NativeMessage<T>>(
        &self,
        native: N,
    ) -> (r: Result<(T, Vec<u8>), RtMidiError>)
        requires
            forall|buffer: Vec<u8>|
                buffer@ == Seq::new(MESSAGE_CAPACITY as nat, |i: int| 0u8) ==> call_requires(
                    native,
                    (self.instance_spec(), buffer),
                ),
        ensures
            exists|buffer: Vec<u8>, reply: NativeMessage<T>|
                {
                    &&& buffer@ == Seq::new(MESSAGE_CAPACITY as nat, |i: int| 0u8)
                    &&& #[trigger] call_ensures(native, (self.instance_spec(), buffer), reply)
                    &&& polled(r) == message_of(reply)
                },
    {
        let buffer = vec![0u8; MESSAGE_CAPACITY];
        assert(buffer@ =~= Seq::new(MESSAGE_CAPACITY as nat, |i: int| 0u8));
        let reply = native(self.instance, buffer);
        Self::message_from(reply)
    }

    /// Releases the native instance. The input is consumed, so the instance
    /// is released once.
    ///
    /// `native` receives the instance. A callback context that is still
    /// registered is returned: the native library never hands it back.
    pub fn free<N: FnOnce(NativeInstance)>(self, native: N) -> (context: Option<CallbackContext>)
        requires
            call_requires(native, (self.instance_spec(),)),
        ensures
            call_ensures(native, (self.instance_spec(),), ()),
            context == self.callback_spec(),
    {
        native(self.instance);
        self.callback
    }
}

/// A poll that finds nothing pending is no error: where the native library
/// reports success and a length of zero, the message has no bytes, whatever
/// the buffer holds.
pub proof fn lemma_empty_poll_is_no_error<T>(reply: NativeMessage<T>)
    requires
        reply.status.ok,
        reply.length == 0,
    ensures
        message_of(reply) == Ok::<(T, Seq<u8>), ErrorView>((reply.timestamp, Seq::empty())),
{
    assert(message_bytes(reply.buffer@, reply.length) =~= Seq::<u8>::empty());
}

/// A callback that was registered and then cancelled is out of the native
/// library before the next one goes in: where the native library accepts
/// each step, registering `first`, cancelling and registering `second`
/// leaves exactly `second` registered, and `first` was handed back by the
/// cancellation, after which nothing was registered.
pub proof fn lemma_cancelled_callback_is_replaced(
    first: CallbackContext,
    second: CallbackContext,
    installed_first: NativeStatus,
    cancelled: NativeStatus,
    installed_second: NativeStatus,
)
    requires
        installed_first.ok,
        cancelled.ok,
        installed_second.ok,
    ensures
        ({
            let registered = after_install(None, first, installed_first);
            let idle = after_cancel(registered, cancelled);
            let replaced = after_install(idle, second, installed_second);
            &&& registered == Some(first)
            &&& released_by_cancel(registered, cancelled) == Some(first)
            &&& idle is None
            &&& replaced == Some(second)
        }),
{
}

/// A context that a cancellation hands back is no longer registered, and
/// one that it does not hand back is registered as before.
pub proof fn lemma_released_is_not_registered(held: Option<CallbackContext>, status: NativeStatus)
    ensures
        released_by_cancel(held, status) is Some ==> after_cancel(held, status) is None,
        released_by_cancel(held, status) is None ==> after_cancel(held, status) == held,
{
}

} // verus!
