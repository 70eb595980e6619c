use rdpclient::cliprdr::{Client, ClipboardOutput, ClipboardPdu, CF_UNICODETEXT};

#[test]
fn inbound_format_list_triggers_data_request() {
    let mut client = Client::new();
    let out = client.handle(ClipboardPdu::FormatList {
        format_ids: vec![CF_UNICODETEXT],
    });
    assert_eq!(out.len(), 2);
    assert!(matches!(
        out[0],
        ClipboardOutput::Pdu(ClipboardPdu::FormatListResponse { ok: true })
    ));
    match &out[1] {
        ClipboardOutput::Pdu(ClipboardPdu::FormatDataRequest { format_id }) => {
            assert_eq!(*format_id, CF_UNICODETEXT);
        }
        other => panic!("expected a data request, got {:?}", other),
    }
}

#[test]
fn format_list_without_text_is_only_acknowledged() {
    let mut client = Client::new();
    let out = client.handle(ClipboardPdu::FormatList {
        format_ids: vec![2, 8],
    });
    assert_eq!(out.len(), 1);
    assert!(matches!(
        out[0],
        ClipboardOutput::Pdu(ClipboardPdu::FormatListResponse { ok: true })
    ));
}

#[test]
fn remote_copy_strips_trailing_nul() {
    let mut client = Client::new();
    // "hello\0" as UTF-16LE.
    let data = vec![
        0x68, 0, 0x65, 0, 0x6C, 0, 0x6C, 0, 0x6F, 0, 0, 0,
    ];
    let out = client.handle(ClipboardPdu::FormatDataResponse { data });
    assert_eq!(out.len(), 1);
    match &out[0] {
        ClipboardOutput::RemoteCopy(text) => assert_eq!(text.as_slice(), b"hello"),
        other => panic!("expected remote copy, got {:?}", other),
    }
}

#[test]
fn update_clipboard_advertises_unicode_text() {
    let mut client = Client::new();
    let out = client.update_clipboard(b"abc".to_vec());
    assert_eq!(out.len(), 1);
    match &out[0] {
        ClipboardOutput::Pdu(ClipboardPdu::FormatList { format_ids }) => {
            assert_eq!(format_ids.as_slice(), &[CF_UNICODETEXT]);
        }
        other => panic!("expected a format list, got {:?}", other),
    }
}

#[test]
fn data_request_returns_staged_text_as_utf16le_with_nul() {
    let mut client = Client::new();
    client.update_clipboard(b"abc".to_vec());
    let out = client.handle(ClipboardPdu::FormatDataRequest {
        format_id: CF_UNICODETEXT,
    });
    assert_eq!(out.len(), 1);
    match &out[0] {
        ClipboardOutput::Pdu(ClipboardPdu::FormatDataResponse { data }) => {
            assert_eq!(data.as_slice(), &[0x61, 0, 0x62, 0, 0x63, 0, 0, 0]);
        }
        other => panic!("expected a data response, got {:?}", other),
    }
}

#[test]
fn data_request_for_other_format_is_empty() {
    let mut client = Client::new();
    client.update_clipboard(b"abc".to_vec());
    let out = client.handle(ClipboardPdu::FormatDataRequest { format_id: 2 });
    match &out[0] {
        ClipboardOutput::Pdu(ClipboardPdu::FormatDataResponse { data }) => {
            assert!(data.is_empty());
        }
        other => panic!("expected a data response, got {:?}", other),
    }
}

#[test]
fn format_list_response_is_ignored() {
    let mut client = Client::new();
    let out = client.handle(ClipboardPdu::FormatListResponse { ok: true });
    assert!(out.is_empty());
}
