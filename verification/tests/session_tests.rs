use rdpclient::cliprdr::ClipboardPdu;
use rdpclient::events::{
    CGOKeyboardEvent, CGOMousePointerEvent, CGOPointerButton, CGOPointerWheel, CGOErrCode,
    PointerButton,
};
use rdpclient::rdpdr::{ClientPdu, ServerPdu};
use rdpclient::session::{
    build_rdp_client, cgo_code, pump_decision, route_channel, static_channel_names, BitmapFrame,
    ChannelPayload, ChannelRoute, Client, ConnectParams, GlobalPdu, PumpDecision, RdpEvent,
    ReadStatus, SessionError, SessionOutput, logon_extended_info_flags, logon_info_flags,
    security_protocols,
};
use rdpclient::tdp::{SharedDirectoryAnnounce, SharedDirectoryReadResponse, TdpErrCode};

fn params(allow_clipboard: bool, allow_directory_sharing: bool) -> ConnectParams {
    ConnectParams {
        username: String::from("alice"),
        cert_der: vec![1],
        key_der: vec![2],
        screen_width: 800,
        screen_height: 600,
        allow_clipboard,
        allow_directory_sharing,
    }
}

fn session(allow_clipboard: bool) -> Client {
    let rdp_client = build_rdp_client(params(allow_clipboard, true), String::from("12345678"));
    Client::new(rdp_client, 5, 42)
}

#[test]
fn channel_routing_by_name() {
    assert_eq!(route_channel(b"global"), ChannelRoute::Global);
    assert_eq!(route_channel(b"rdpdr"), ChannelRoute::Rdpdr);
    assert_eq!(route_channel(b"cliprdr"), ChannelRoute::Cliprdr);
    assert_eq!(route_channel(b"rdpsnd"), ChannelRoute::Rdpsnd);
    assert_eq!(route_channel(b"drdynvc"), ChannelRoute::Unknown);
}

#[test]
fn unknown_channel_is_a_protocol_error() {
    let mut s = session(true);
    let r = s.rdp_client.read(
        b"drdynvc",
        ChannelPayload::Global(GlobalPdu::ServerPointer),
    );
    assert_eq!(r.unwrap_err(), SessionError::UnexpectedChannel);
}

#[test]
fn sound_pdus_are_dropped() {
    let mut s = session(true);
    let r = s
        .rdp_client
        .read(b"rdpsnd", ChannelPayload::Global(GlobalPdu::ServerPointer));
    assert!(r.unwrap().is_empty());
}

#[test]
fn bitmap_frames_pass_through_unchanged() {
    let mut s = session(true);
    let data = vec![7u8; 64 * 64 * 4];
    let frame = BitmapFrame {
        dest_left: 0,
        dest_top: 0,
        dest_right: 63,
        dest_bottom: 63,
        data: data.clone(),
    };
    let out = s
        .rdp_client
        .read(b"global", ChannelPayload::Global(GlobalPdu::Bitmap(frame)))
        .unwrap();
    assert_eq!(out.len(), 1);
    match &out[0] {
        SessionOutput::Bitmap(g) => {
            assert_eq!(g.dest_left, 0);
            assert_eq!(g.dest_top, 0);
            assert_eq!(g.dest_right, 63);
            assert_eq!(g.dest_bottom, 63);
            assert_eq!(g.data.len(), 64 * 64 * 4);
            assert_eq!(g.data, data);
        }
        other => panic!("expected a bitmap, got {:?}", other),
    }
}

#[test]
fn server_pointer_updates_are_ignored() {
    let mut s = session(true);
    let out = s
        .rdp_client
        .read(b"global", ChannelPayload::Global(GlobalPdu::ServerPointer))
        .unwrap();
    assert!(out.is_empty());
}

#[test]
fn disabled_clipboard_is_silent_inbound() {
    let mut s = session(false);
    let out = s
        .rdp_client
        .read(
            b"cliprdr",
            ChannelPayload::Cliprdr(ClipboardPdu::FormatList {
                format_ids: vec![13],
            }),
        )
        .unwrap();
    assert!(out.is_empty());
}

#[test]
fn disabled_clipboard_is_silent_outbound() {
    let mut s = session(false);
    let out = s.update_clipboard(b"secret".to_vec());
    assert!(out.is_empty());
}

#[test]
fn enabled_clipboard_advertises_on_update() {
    let mut s = session(true);
    let out = s.update_clipboard(b"abc".to_vec());
    assert_eq!(out.len(), 1);
    assert!(matches!(
        out[0],
        SessionOutput::Cliprdr(ClipboardPdu::FormatList { .. })
    ));
}

#[test]
fn pointer_events_route_to_the_global_channel() {
    let mut s = session(true);
    let out = s.write_rdp_pointer(CGOMousePointerEvent {
        x: 10,
        y: 20,
        button: CGOPointerButton::PointerButtonLeft,
        down: true,
        wheel: CGOPointerWheel::PointerWheelNone,
        wheel_delta: 0,
    });
    assert_eq!(out.len(), 1);
    match &out[0] {
        SessionOutput::GlobalInput(RdpEvent::Pointer(p)) => {
            assert_eq!(p.x, 10);
            assert_eq!(p.y, 20);
            assert_eq!(p.button, PointerButton::Left);
            assert!(p.down);
        }
        other => panic!("expected a pointer event, got {:?}", other),
    }
}

#[test]
fn keyboard_events_route_to_the_global_channel() {
    let mut s = session(true);
    let out = s.write_rdp_keyboard(CGOKeyboardEvent { code: 31, down: true });
    assert_eq!(out.len(), 1);
    match &out[0] {
        SessionOutput::GlobalInput(RdpEvent::Key(k)) => {
            assert_eq!(k.code, 31);
            assert!(k.down);
        }
        other => panic!("expected a key event, got {:?}", other),
    }
}

#[test]
fn announce_and_read_through_the_session() {
    let mut s = session(true);
    let out = s.handle_tdp_sd_announce(SharedDirectoryAnnounce {
        directory_id: 1,
        name: b"share".to_vec(),
    });
    assert_eq!(out.len(), 1);
    assert!(matches!(
        out[0],
        SessionOutput::Rdpdr(ClientPdu::DeviceListAnnounce(_))
    ));
    // An unknown completion id through the session facade: success, no
    // output.
    let out = s.handle_tdp_sd_read_response(SharedDirectoryReadResponse {
        completion_id: 999999,
        err_code: TdpErrCode::Nil,
        read_data: Vec::new(),
    });
    assert!(out.is_empty());
    assert_eq!(cgo_code(true), CGOErrCode::ErrCodeSuccess);
}

#[test]
fn fd_and_host_ref_are_fixed_at_construction() {
    let mut s = session(true);
    assert_eq!(s.tcp_fd, 5);
    assert_eq!(s.go_ref, 42);
    s.update_clipboard(b"x".to_vec());
    s.write_rdp_keyboard(CGOKeyboardEvent { code: 1, down: true });
    let _ = s.rdp_client.read(b"rdpsnd", ChannelPayload::Global(GlobalPdu::ServerPointer));
    assert_eq!(s.tcp_fd, 5);
    assert_eq!(s.go_ref, 42);
}

#[test]
fn rdpdr_handshake_through_the_session() {
    let mut s = session(true);
    let out = s
        .rdp_client
        .read(
            b"rdpdr",
            ChannelPayload::Rdpdr(ServerPdu::AnnounceRequest {
                version_major: 1,
                version_minor: 12,
                client_id: 3,
            }),
        )
        .unwrap();
    assert_eq!(out.len(), 2);
    assert!(matches!(
        out[0],
        SessionOutput::Rdpdr(ClientPdu::AnnounceReply {
            version_major: 1,
            version_minor: 12,
            client_id: 3,
        })
    ));
    assert!(matches!(
        out[1],
        SessionOutput::Rdpdr(ClientPdu::ClientNameRequest { .. })
    ));
}

#[test]
fn eof_ends_the_pump_cleanly() {
    assert_eq!(
        pump_decision(ReadStatus::Eof, true),
        PumpDecision::ExitClean
    );
    assert_eq!(
        pump_decision(ReadStatus::Eof, false),
        PumpDecision::ExitClean
    );
}

#[test]
fn read_failures_end_the_pump_with_an_error() {
    assert_eq!(
        pump_decision(ReadStatus::Failed, true),
        PumpDecision::ExitError
    );
    assert_eq!(
        pump_decision(ReadStatus::Handled, false),
        PumpDecision::ExitError
    );
    assert_eq!(
        pump_decision(ReadStatus::Handled, true),
        PumpDecision::KeepGoing
    );
}

#[test]
fn static_channels_depend_on_clipboard() {
    let with = static_channel_names(true);
    assert_eq!(with.len(), 3);
    assert_eq!(with[0].as_slice(), b"rdpdr");
    assert_eq!(with[1].as_slice(), b"rdpsnd");
    assert_eq!(with[2].as_slice(), b"cliprdr");
    let without = static_channel_names(false);
    assert_eq!(without.len(), 2);
}

#[test]
fn bring_up_flag_words() {
    assert_eq!(security_protocols(), 1);
    assert_eq!(logon_info_flags(), 0x00060000);
    assert_eq!(logon_extended_info_flags(), 0x00000046);
}

#[test]
fn cgo_code_reflects_success() {
    assert_eq!(cgo_code(true), CGOErrCode::ErrCodeSuccess);
    assert_eq!(cgo_code(false), CGOErrCode::ErrCodeFailure);
}

#[test]
fn payload_of_the_wrong_channel_is_rejected() {
    let mut s = session(true);
    let r = s.rdp_client.read(
        b"rdpdr",
        ChannelPayload::Cliprdr(ClipboardPdu::FormatListResponse { ok: true }),
    );
    assert_eq!(r.unwrap_err(), SessionError::PayloadMismatch);
}

#[test]
fn submitted_bitmaps_cannot_be_sent() {
    let mut s = session(true);
    let r = s.rdp_client.write(RdpEvent::Bitmap(BitmapFrame {
        dest_left: 0,
        dest_top: 0,
        dest_right: 0,
        dest_bottom: 0,
        data: Vec::new(),
    }));
    assert_eq!(r.unwrap_err(), SessionError::UnexpectedEvent);
}
