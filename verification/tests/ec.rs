use keylightd::command::{
    GetKeyboardBacklight, GetKeyboardBacklightResponse, GetVersion, Hello, HelloResponse,
    LedBrightnesses, LedControl, LedFlags, LedId, SetKeyboardBacklight,
    SetKeyboardBacklightResponse, Wire,
};
use keylightd::ec::{
    check_hello, request_code_readwrite, EcError, EmbeddedController, Frame,
    FrameV1, FrameV2, IoctlVersion, ENOTTY, HELLO_WORD, PROBE_WORD, RESULT_UNSET, V2_HEADER_SIZE,
};

fn v1_request() -> u32 {
    if usize::BITS == 64 {
        0xc028_3a00
    } else {
        0xc01c_3a00
    }
}

fn header(version: u32, command: u32, outsize: u32, insize: u32) -> Vec<u8> {
    let mut bytes = Vec::new();
    for word in [version, command, outsize, insize, 0xff] {
        bytes.extend_from_slice(&word.to_le_bytes());
    }
    bytes
}

fn session(version: IoctlVersion) -> EmbeddedController {
    let reply = match version {
        IoctlVersion::V1 => vec![0xb1, 0xe1, 0x57, 0xab],
        IoctlVersion::V2 => {
            let mut frame = header(0, 1, 4, 4);
            frame.extend_from_slice(&[0xb1, 0xe1, 0x57, 0xab]);
            frame
        }
    };
    EmbeddedController::open(version, Ok(reply)).unwrap()
}

#[test]
fn constants_of_the_transport() {
    assert_eq!(ENOTTY, 25);
    assert_eq!(PROBE_WORD, 0xa0b0c0d0);
    assert_eq!(HELLO_WORD, 0xaa55dead);
    assert_eq!(RESULT_UNSET, 0xff);
    assert_eq!(V2_HEADER_SIZE, 20);
}

#[test]
fn request_code_packs_direction_size_type_and_number() {
    assert_eq!(request_code_readwrite(0, 0, 0), 0xc000_0000);
    assert_eq!(request_code_readwrite(0xec, 0, 20), 0xc014_ec00);
    assert_eq!(request_code_readwrite(0x3a, 0, 40), 0xc028_3a00);
    assert_eq!(request_code_readwrite(0xff, 0xff, 0x3fff), 0xffff_ffff);
    assert_eq!(request_code_readwrite(0x12, 0x34, 1), 0xc001_1234);
}

#[test]
fn request_code_cuts_the_size_to_fourteen_bits() {
    assert_eq!(request_code_readwrite(0, 0, 0x4000), 0xc000_0000);
    assert_eq!(request_code_readwrite(0, 0, 0x4001), 0xc001_0000);
}

#[test]
fn interfaces_have_their_own_request_numbers() {
    assert_eq!(IoctlVersion::V1.magic(), b':');
    assert_eq!(IoctlVersion::V2.magic(), 0xec);
    assert_eq!(IoctlVersion::V2.header_size(), 20);
    assert_eq!(IoctlVersion::V1.header_size(), if usize::BITS == 64 { 40 } else { 28 });
    assert_eq!(IoctlVersion::V2.request_code(), 0xc014_ec00);
    assert_eq!(IoctlVersion::V1.request_code(), v1_request());
    assert_ne!(IoctlVersion::V1.request_code(), IoctlVersion::V2.request_code());
}

#[test]
fn first_interface_frames_point_to_the_request() {
    let frame = EmbeddedController::cmd_v1(&Hello { in_data: 0xaa55dead });
    assert_eq!(
        frame,
        FrameV1 {
            request: v1_request(),
            version: 0,
            command: 1,
            outdata: vec![0xad, 0xde, 0x55, 0xaa],
            outsize: 4,
            insize: 4,
            result: 0xff,
        }
    );
    let frame = EmbeddedController::cmd_v1(&GetKeyboardBacklight);
    assert_eq!(
        frame,
        FrameV1 {
            request: v1_request(),
            version: 0,
            command: 0x22,
            outdata: vec![],
            outsize: 0,
            insize: 2,
            result: 0xff,
        }
    );
}

#[test]
fn second_interface_frames_hold_header_and_request() {
    let frame = EmbeddedController::cmd_v2(&Hello { in_data: 0xaa55dead });
    let mut bytes = header(0, 1, 4, 4);
    bytes.extend_from_slice(&[0xad, 0xde, 0x55, 0xaa]);
    assert_eq!(frame, FrameV2 { request: 0xc014_ec00, bytes });
}

#[test]
fn second_interface_frames_leave_room_for_the_response() {
    let frame = EmbeddedController::cmd_v2(&GetKeyboardBacklight);
    let mut bytes = header(0, 0x22, 0, 2);
    bytes.extend_from_slice(&[0, 0]);
    assert_eq!(frame.bytes, bytes);

    let frame = EmbeddedController::cmd_v2(&GetVersion);
    let mut bytes = header(0, 2, 0, 100);
    bytes.extend_from_slice(&[0; 100]);
    assert_eq!(frame.bytes, bytes);
}

#[test]
fn second_interface_frames_are_as_long_as_the_larger_payload() {
    let cmd = LedControl {
        led_id: LedId::power(),
        flags: LedFlags::auto(),
        brightness: LedBrightnesses::default(),
    };
    let frame = EmbeddedController::cmd_v2(&cmd);
    let mut bytes = header(1, 0x29, 8, 6);
    bytes.extend_from_slice(&[1, 2, 0, 0, 0, 0, 0, 0]);
    assert_eq!(frame.bytes, bytes);

    let frame = EmbeddedController::cmd_v2(&SetKeyboardBacklight { percent: 30 });
    let mut bytes = header(0, 0x23, 1, 0);
    bytes.push(30);
    assert_eq!(frame.bytes, bytes);
}

#[test]
fn probe_is_a_hello_for_the_first_interface() {
    assert_eq!(EmbeddedController::probe(), Frame::V1(EmbeddedController::cmd_v1(&Hello { in_data: 0xa0b0c0d0 })));
}

#[test]
fn unsupported_ioctl_selects_the_second_interface() {
    assert_eq!(EmbeddedController::negotiate(&Err(ENOTTY)), IoctlVersion::V2);
}

#[test]
fn any_other_probe_outcome_selects_the_first_interface() {
    assert_eq!(EmbeddedController::negotiate(&Ok(vec![0xd4, 0xc3, 0xb2, 0xa1])), IoctlVersion::V1);
    assert_eq!(EmbeddedController::negotiate(&Ok(vec![])), IoctlVersion::V1);
    for errno in [-25, 0, 1, 5, 22, 24, 26, 95, i32::MAX] {
        assert_eq!(EmbeddedController::negotiate(&Err(errno)), IoctlVersion::V1);
    }
}

#[test]
fn hello_is_framed_for_the_chosen_interface() {
    assert_eq!(
        EmbeddedController::hello(IoctlVersion::V1),
        Frame::V1(EmbeddedController::cmd_v1(&Hello { in_data: 0xaa55dead }))
    );
    assert_eq!(
        EmbeddedController::hello(IoctlVersion::V2),
        Frame::V2(EmbeddedController::cmd_v2(&Hello { in_data: 0xaa55dead }))
    );
}

#[test]
fn check_hello_accepts_only_the_expected_word() {
    let hello = Hello { in_data: 7 };
    assert_eq!(check_hello(&hello, &HelloResponse { out_data: 0x0102030b }), Ok(()));
    assert_eq!(
        check_hello(&hello, &HelloResponse { out_data: 7 }),
        Err(EcError::Handshake { received: 7, expected: 0x0102030b })
    );
    let wrapping = Hello { in_data: u32::MAX };
    assert_eq!(check_hello(&wrapping, &HelloResponse { out_data: 0x01020303 }), Ok(()));
}

#[test]
fn open_succeeds_on_a_genuine_answer() {
    assert_eq!(session(IoctlVersion::V1).version(), IoctlVersion::V1);
    assert_eq!(session(IoctlVersion::V2).version(), IoctlVersion::V2);
}

#[test]
fn open_fails_on_any_other_answer() {
    let r = EmbeddedController::open(IoctlVersion::V1, Ok(vec![0xb0, 0xe1, 0x57, 0xab]));
    assert_eq!(
        r.unwrap_err(),
        EcError::Handshake { received: 0xab57e1b0, expected: 0xab57e1b1 }
    );
    let mut frame = header(0, 1, 4, 4);
    frame.extend_from_slice(&[0xad, 0xde, 0x55, 0xaa]);
    let r = EmbeddedController::open(IoctlVersion::V2, Ok(frame));
    assert_eq!(
        r.unwrap_err(),
        EcError::Handshake { received: 0xaa55dead, expected: 0xab57e1b1 }
    );
}

#[test]
fn open_hands_on_a_failed_ioctl() {
    let r = EmbeddedController::open(IoctlVersion::V2, Err(5));
    assert_eq!(r.unwrap_err(), EcError::Transport { errno: 5 });
    let r = EmbeddedController::open(IoctlVersion::V1, Err(ENOTTY));
    assert_eq!(r.unwrap_err(), EcError::Transport { errno: 25 });
}

#[test]
fn open_refuses_a_reply_of_the_wrong_size() {
    let r = EmbeddedController::open(IoctlVersion::V1, Ok(vec![0xb1, 0xe1, 0x57]));
    assert_eq!(r.unwrap_err(), EcError::MalformedReply);
    let r = EmbeddedController::open(IoctlVersion::V2, Ok(vec![0xb1, 0xe1, 0x57, 0xab]));
    assert_eq!(r.unwrap_err(), EcError::MalformedReply);
}

#[test]
fn handshake_message_names_both_words_in_hexadecimal() {
    let error = EcError::Handshake { received: 0x1234, expected: 0xab57e1b1 };
    assert_eq!(
        error.message(),
        "failed to connect to EC: invalid response to hello command (received 0000001234, expected 00ab57e1b1)"
    );
    assert_eq!(
        error.message(),
        format!(
            "failed to connect to EC: invalid response to hello command (received {:010x}, expected {:010x})",
            0x1234, 0xab57e1b1u32
        )
    );
}

#[test]
fn other_messages() {
    assert_eq!(
        EcError::Transport { errno: 25 }.message(),
        "controller command failed (os error 25)"
    );
    assert_eq!(
        EcError::Transport { errno: -1 }.message(),
        "controller command failed (os error -1)"
    );
    assert_eq!(EcError::MalformedReply.message(), "controller reply has an unexpected size");
}

#[test]
fn session_frames_commands_for_its_interface_only() {
    let first = session(IoctlVersion::V1);
    let second = session(IoctlVersion::V2);
    let set = SetKeyboardBacklight { percent: 12 };
    assert_eq!(first.command(&set), Frame::V1(EmbeddedController::cmd_v1(&set)));
    assert_eq!(second.command(&set), Frame::V2(EmbeddedController::cmd_v2(&set)));
    assert_eq!(first.command(&GetKeyboardBacklight), Frame::V1(EmbeddedController::cmd_v1(&GetKeyboardBacklight)));
    assert_eq!(second.command(&GetKeyboardBacklight), Frame::V2(EmbeddedController::cmd_v2(&GetKeyboardBacklight)));
}

#[test]
fn response_of_the_first_interface_is_the_buffer() {
    let ec = session(IoctlVersion::V1);
    assert_eq!(
        ec.response::<GetKeyboardBacklight>(Ok(vec![55, 1])),
        Ok(GetKeyboardBacklightResponse { percent: 55, enabled: 1 })
    );
    assert_eq!(
        ec.response::<SetKeyboardBacklight>(Ok(vec![])),
        Ok(SetKeyboardBacklightResponse)
    );
}

#[test]
fn response_of_the_second_interface_lies_behind_the_header() {
    let ec = session(IoctlVersion::V2);
    let mut frame = header(0, 0x22, 0, 2);
    frame.extend_from_slice(&[55, 1]);
    assert_eq!(
        ec.response::<GetKeyboardBacklight>(Ok(frame)),
        Ok(GetKeyboardBacklightResponse { percent: 55, enabled: 1 })
    );
    // The kernel may have changed the header: only the payload is read.
    let mut frame = vec![0xee; 20];
    frame.extend_from_slice(&[9, 0]);
    assert_eq!(
        ec.response::<GetKeyboardBacklight>(Ok(frame)),
        Ok(GetKeyboardBacklightResponse { percent: 9, enabled: 0 })
    );
}

#[test]
fn response_reads_only_the_leading_bytes_of_a_larger_region() {
    let ec = session(IoctlVersion::V2);
    let mut frame = header(1, 0x29, 8, 6);
    frame.extend_from_slice(&[10, 20, 30, 40, 50, 60, 70, 80]);
    let response = ec.response::<LedControl>(Ok(frame)).unwrap();
    assert_eq!(response.encode(), vec![10, 20, 30, 40, 50, 60]);
}

#[test]
fn response_hands_on_a_failed_ioctl() {
    for version in [IoctlVersion::V1, IoctlVersion::V2] {
        let ec = session(version);
        assert_eq!(
            ec.response::<GetKeyboardBacklight>(Err(19)),
            Err(EcError::Transport { errno: 19 })
        );
    }
}

#[test]
fn response_refuses_a_reply_of_the_wrong_size() {
    let first = session(IoctlVersion::V1);
    assert_eq!(
        first.response::<GetKeyboardBacklight>(Ok(vec![1])),
        Err(EcError::MalformedReply)
    );
    assert_eq!(
        first.response::<GetKeyboardBacklight>(Ok(vec![1, 2, 3])),
        Err(EcError::MalformedReply)
    );
    let second = session(IoctlVersion::V2);
    assert_eq!(
        second.response::<GetKeyboardBacklight>(Ok(vec![55, 1])),
        Err(EcError::MalformedReply)
    );
    assert_eq!(
        second.response::<GetKeyboardBacklight>(Ok(vec![0; 23])),
        Err(EcError::MalformedReply)
    );
    // A frame of a command with a larger request is longer than header plus response.
    assert!(second.response::<LedControl>(Ok(vec![0; 26])).is_err());
    assert!(second.response::<LedControl>(Ok(vec![0; 28])).is_ok());
}
