use std::cell::RefCell;

use rtmidi::midi_out::DEFAULT_CLIENT_NAME;
use rtmidi::{NativeStatus, RtMidiApi, RtMidiError, RtMidiOut, RtMidiOutArgs};

const INSTANCE: usize = 0x5000;

fn create(_api: u32, _name: Vec<u8>) -> (usize, NativeStatus) {
    (INSTANCE, NativeStatus::success())
}

fn output() -> RtMidiOut {
    RtMidiOut::new(Default::default(), create).unwrap()
}

#[test]
fn midi_out_new() {
    assert!(RtMidiOut::new(
        RtMidiOutArgs {
            client_name: "Test",
            ..Default::default()
        },
        create
    )
    .is_ok());
}

#[test]
fn midi_out_current_api() {
    assert_ne!(
        output().current_api(|_instance| RtMidiApi::LinuxALSA.code()),
        RtMidiApi::Unspecified
    );
}

#[test]
fn midi_out_open_port() {
    assert!(output()
        .open_port(9999, "Test", |_instance, _port, _name| NativeStatus::failure(
            "MidiOutAlsa::openPort: the 'portNumber' argument (9999) is invalid."
        ))
        .is_err());
}

#[test]
fn midi_out_open_virtual_port() {
    assert!(output()
        .open_virtual_port("Test", |_instance, _name| NativeStatus::success())
        .is_ok());
}

#[test]
fn midi_out_close_port() {
    assert!(output()
        .close_port(|_instance| NativeStatus::success())
        .is_ok());
}

#[test]
fn midi_out_port_count() {
    assert!(output()
        .port_count(|_instance| (0, NativeStatus::success()))
        .is_ok());
}

#[test]
fn midi_out_port_name() {
    assert_eq!(
        output()
            .port_name(9999, |_instance, _port| (Some(Vec::new()), NativeStatus::success()))
            .unwrap(),
        ""
    );
}

#[test]
fn midi_out_message() {
    assert!(output()
        .message(&[0, 0, 0], |_instance, _bytes, _length| NativeStatus::success())
        .is_ok());
}

#[test]
fn out_args_default() {
    let args = RtMidiOutArgs::default();
    assert_eq!(args.api, RtMidiApi::Unspecified);
    assert_eq!(args.client_name, "RtMidi Output Client");
    assert_eq!(DEFAULT_CLIENT_NAME, "RtMidi Output Client");
}

#[test]
fn out_new_hands_over_api_and_c_string() {
    let seen = RefCell::new(Vec::new());
    let made = RtMidiOut::new(
        RtMidiOutArgs {
            api: RtMidiApi::UnixJack,
            client_name: "Test",
        },
        |api, name| {
            seen.borrow_mut().push((api, name));
            (77, NativeStatus::success())
        },
    )
    .unwrap();
    assert_eq!(made.instance(), 77);
    assert_eq!(*seen.borrow(), vec![(3u32, b"Test\0".to_vec())]);
}

#[test]
fn out_new_rejects_embedded_nul_without_calling() {
    let calls = RefCell::new(0u32);
    let made = RtMidiOut::new(
        RtMidiOutArgs {
            client_name: "Te\0st",
            ..Default::default()
        },
        |_api, _name| {
            *calls.borrow_mut() += 1;
            (INSTANCE, NativeStatus::success())
        },
    );
    match made {
        Err(RtMidiError::NullString(failure)) => {
            assert_eq!(failure.position, 2);
            assert_eq!(failure.bytes, b"Te\0st".to_vec());
        }
        _ => panic!("expected the embedded-null error"),
    }
    assert_eq!(*calls.borrow(), 0);
}

#[test]
fn out_new_returns_native_error() {
    let made = RtMidiOut::new(Default::default(), |_api, _name| {
        (INSTANCE, NativeStatus::failure("no compiled API support"))
    });
    match made {
        Err(error) => assert_eq!(
            error,
            RtMidiError::Error("no compiled API support".to_string())
        ),
        Ok(_) => panic!("expected an error"),
    }
}

#[test]
fn out_wrap_follows_status() {
    assert_eq!(
        RtMidiOut::wrap(9, &NativeStatus::success()).unwrap().instance(),
        9
    );
    assert!(RtMidiOut::wrap(9, &NativeStatus { ok: false, msg: None }).is_err());
}

#[test]
fn out_current_api_maps_every_code() {
    let all = [
        RtMidiApi::Unspecified,
        RtMidiApi::MacOSXCore,
        RtMidiApi::LinuxALSA,
        RtMidiApi::UnixJack,
        RtMidiApi::WindowsMM,
        RtMidiApi::RtMidiDummy,
    ];
    for (code, api) in all.iter().enumerate() {
        let seen = RefCell::new(Vec::new());
        let got = output().current_api(|instance| {
            seen.borrow_mut().push(instance);
            code as u32
        });
        assert_eq!(got, *api);
        assert_eq!(*seen.borrow(), vec![INSTANCE]);
    }
}

#[test]
fn out_open_port_hands_over_instance_port_and_name() {
    let seen = RefCell::new(Vec::new());
    let r = output().open_port(3, "RtMidi Output", |instance, port, name| {
        seen.borrow_mut().push((instance, port, name));
        NativeStatus::success()
    });
    assert_eq!(r, Ok(()));
    assert_eq!(
        *seen.borrow(),
        vec![(INSTANCE, 3u32, b"RtMidi Output\0".to_vec())]
    );
}

#[test]
fn out_open_port_rejects_embedded_nul_without_calling() {
    let calls = RefCell::new(0u32);
    let r = output().open_port(0, "\0", |_instance, _port, _name| {
        *calls.borrow_mut() += 1;
        NativeStatus::success()
    });
    assert_eq!(
        r,
        Err(RtMidiError::NullString(rtmidi::NulFailure {
            position: 0,
            bytes: vec![0],
        }))
    );
    assert_eq!(*calls.borrow(), 0);
}

#[test]
fn out_open_virtual_port_forwards_native_error() {
    let seen = RefCell::new(Vec::new());
    let r = output().open_virtual_port("Virtual", |instance, name| {
        seen.borrow_mut().push((instance, name));
        NativeStatus::failure("MidiOutWinMM::openVirtualPort: cannot be implemented in Windows MM MIDI API!")
    });
    assert_eq!(
        r,
        Err(RtMidiError::Error(
            "MidiOutWinMM::openVirtualPort: cannot be implemented in Windows MM MIDI API!"
                .to_string()
        ))
    );
    assert_eq!(*seen.borrow(), vec![(INSTANCE, b"Virtual\0".to_vec())]);
}

#[test]
fn out_open_virtual_port_rejects_embedded_nul() {
    let r = output().open_virtual_port("a\0b\0", |_instance, _name| NativeStatus::success());
    assert_eq!(
        r,
        Err(RtMidiError::NullString(rtmidi::NulFailure {
            position: 1,
            bytes: b"a\0b\0".to_vec(),
        }))
    );
}

#[test]
fn out_close_port_twice_is_no_error() {
    let out = output();
    assert_eq!(out.close_port(|_instance| NativeStatus::success()), Ok(()));
    assert_eq!(out.close_port(|_instance| NativeStatus::success()), Ok(()));
}

#[test]
fn out_close_port_forwards_native_error() {
    assert_eq!(
        output().close_port(|_instance| NativeStatus { ok: false, msg: None }),
        Err(RtMidiError::Error("Invalid error".to_string()))
    );
}

#[test]
fn out_port_count_of_empty_device_set_is_zero() {
    assert_eq!(
        output().port_count(|_instance| (0, NativeStatus::success())),
        Ok(0)
    );
}

#[test]
fn out_port_count_is_a_live_snapshot() {
    let out = output();
    assert_eq!(out.port_count(|_instance| (2, NativeStatus::success())), Ok(2));
    assert_eq!(out.port_count(|_instance| (3, NativeStatus::success())), Ok(3));
}

#[test]
fn out_port_count_forwards_native_error() {
    assert_eq!(
        output().port_count(|_instance| (5, NativeStatus::failure("lost the sequencer"))),
        Err(RtMidiError::Error("lost the sequencer".to_string()))
    );
}

#[test]
fn out_port_name_without_text_is_null_pointer() {
    let seen = RefCell::new(Vec::new());
    let r = output().port_name(9999, |instance, port| {
        seen.borrow_mut().push((instance, port));
        (None, NativeStatus::success())
    });
    assert_eq!(r, Err(RtMidiError::NullPointer));
    assert_eq!(*seen.borrow(), vec![(INSTANCE, 9999u32)]);
}

#[test]
fn out_port_name_decodes_text() {
    assert_eq!(
        output()
            .port_name(0, |_instance, _port| (
                Some("Midi Through 14:0 \u{266b}".as_bytes().to_vec()),
                NativeStatus::success()
            ))
            .unwrap(),
        "Midi Through 14:0 \u{266b}"
    );
}

#[test]
fn out_port_name_rejects_invalid_text() {
    assert_eq!(
        output().port_name(0, |_instance, _port| (
            Some(vec![b'a', b'b', 0xff, b'c']),
            NativeStatus::success()
        )),
        Err(RtMidiError::Utf8(rtmidi::Utf8Failure {
            valid_up_to: 2,
            error_len: Some(1),
        }))
    );
}

#[test]
fn out_port_name_status_error_comes_first() {
    assert_eq!(
        output().port_name(0, |_instance, _port| (None, NativeStatus::failure("bad port"))),
        Err(RtMidiError::Error("bad port".to_string()))
    );
}

#[test]
fn out_message_is_transmitted_unmodified() {
    let seen = RefCell::new(Vec::new());
    let r = output().message(&[192, 5], |instance, bytes, length| {
        seen.borrow_mut().push((instance, bytes.to_vec(), length));
        NativeStatus::success()
    });
    assert_eq!(r, Ok(()));
    assert_eq!(*seen.borrow(), vec![(INSTANCE, vec![192u8, 5], 2i32)]);
}

#[test]
fn out_message_of_no_bytes_has_length_zero() {
    let seen = RefCell::new(Vec::new());
    let r = output().message(&[], |_instance, bytes, length| {
        seen.borrow_mut().push((bytes.to_vec(), length));
        NativeStatus::success()
    });
    assert_eq!(r, Ok(()));
    assert_eq!(*seen.borrow(), vec![(Vec::new(), 0i32)]);
}

#[test]
fn out_message_without_connection_is_an_error() {
    assert_eq!(
        output().message(&[144, 64, 90], |_instance, _bytes, _length| {
            NativeStatus::failure("MidiOutAlsa::sendMessage: no open port")
        }),
        Err(RtMidiError::Error(
            "MidiOutAlsa::sendMessage: no open port".to_string()
        ))
    );
}

#[test]
fn out_free_releases_the_instance_once() {
    let seen = RefCell::new(Vec::new());
    output().free(|instance| seen.borrow_mut().push(instance));
    assert_eq!(*seen.borrow(), vec![INSTANCE]);
}
