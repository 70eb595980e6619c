use rdpclient::path::UnixPath;
use rdpclient::rdpdr::{
    Client, ClientDeviceListAnnounce, ClientPdu, Config, DeviceIoRequest, RdpdrOutput,
    ServerCreateDriveRequest, FILE_OPEN, SCARD_DEVICE_ID, STATUS_SUCCESS, STATUS_UNSUCCESSFUL,
};
use rdpclient::tdp::{
    FileSystemObject, FileType, SharedDirectoryDeleteResponse, SharedDirectoryInfoResponse,
    SharedDirectoryListResponse, SharedDirectoryMoveResponse, SharedDirectoryWriteResponse,
    TdpErrCode, TdpRequest,
};

fn drive_client() -> Client {
    Client::new(Config {
        cert_der: Vec::new(),
        key_der: Vec::new(),
        pin: String::from("00000000"),
        allow_directory_sharing: true,
    })
}

fn open_file(client: &mut Client, completion_id: u32, path: &[u8]) -> u32 {
    let req = ServerCreateDriveRequest {
        device_io_request: DeviceIoRequest {
            device_id: 1,
            file_id: 0,
            completion_id,
        },
        create_disposition: FILE_OPEN,
        create_options: 0,
        path: UnixPath::from_bytes(path.to_vec()),
    };
    let out = client.handle_create_drive(req);
    let cid = match &out[0] {
        RdpdrOutput::Tdp(TdpRequest::Info(r)) => r.completion_id,
        other => panic!("expected an info request, got {:?}", other),
    };
    let out = client.handle_tdp_sd_info_response(SharedDirectoryInfoResponse {
        completion_id: cid,
        err_code: TdpErrCode::Nil,
        fso: FileSystemObject {
            last_modified: 0,
            size: 5,
            file_type: FileType::File,
            path: UnixPath::from_bytes(path.to_vec()),
        },
    });
    match &out[0] {
        RdpdrOutput::Pdu(ClientPdu::DeviceCreateResponse { file_id, .. }) => *file_id,
        other => panic!("expected a create reply, got {:?}", other),
    }
}

#[test]
fn write_round_trip_reports_bytes_written() {
    let mut client = drive_client();
    let file_id = open_file(&mut client, 3, b"/w.txt");
    let out = client.handle_device_write(
        DeviceIoRequest {
            device_id: 1,
            file_id,
            completion_id: 4,
        },
        7,
        b"data".to_vec(),
    );
    let cid = match &out[0] {
        RdpdrOutput::Tdp(TdpRequest::Write(r)) => {
            assert_eq!(r.offset, 7);
            assert_eq!(r.write_data.as_slice(), b"data");
            assert_eq!(r.path.as_bytes().as_slice(), b"/w.txt");
            r.completion_id
        }
        other => panic!("expected a write request, got {:?}", other),
    };
    let out = client.handle_tdp_sd_write_response(SharedDirectoryWriteResponse {
        completion_id: cid,
        err_code: TdpErrCode::Nil,
        bytes_written: 4,
    });
    match &out[0] {
        RdpdrOutput::Pdu(ClientPdu::DeviceWriteResponse {
            device_io_response,
            length,
        }) => {
            assert_eq!(device_io_response.io_status, STATUS_SUCCESS);
            assert_eq!(*length, 4);
        }
        other => panic!("expected a write reply, got {:?}", other),
    }
}

#[test]
fn rename_round_trip() {
    let mut client = drive_client();
    let file_id = open_file(&mut client, 3, b"/old.txt");
    let out = client.handle_rename(
        DeviceIoRequest {
            device_id: 1,
            file_id,
            completion_id: 5,
        },
        UnixPath::from_bytes(b"/new.txt".to_vec()),
    );
    let cid = match &out[0] {
        RdpdrOutput::Tdp(TdpRequest::Move(r)) => {
            assert_eq!(r.original_path.as_bytes().as_slice(), b"/old.txt");
            assert_eq!(r.new_path.as_bytes().as_slice(), b"/new.txt");
            r.completion_id
        }
        other => panic!("expected a move request, got {:?}", other),
    };
    let out = client.handle_tdp_sd_move_response(SharedDirectoryMoveResponse {
        completion_id: cid,
        err_code: TdpErrCode::Nil,
    });
    match &out[0] {
        RdpdrOutput::Pdu(ClientPdu::ClientDriveSetInformationResponse { device_io_response }) => {
            assert_eq!(device_io_response.io_status, STATUS_SUCCESS);
        }
        other => panic!("expected a set-information reply, got {:?}", other),
    }
}

#[test]
fn delete_round_trip() {
    let mut client = drive_client();
    let file_id = open_file(&mut client, 3, b"/gone.txt");
    let out = client.handle_delete_disposition(DeviceIoRequest {
        device_id: 1,
        file_id,
        completion_id: 6,
    });
    let cid = match &out[0] {
        RdpdrOutput::Tdp(TdpRequest::Delete(r)) => {
            assert_eq!(r.path.as_bytes().as_slice(), b"/gone.txt");
            r.completion_id
        }
        other => panic!("expected a delete request, got {:?}", other),
    };
    let out = client.handle_tdp_sd_delete_response(SharedDirectoryDeleteResponse {
        completion_id: cid,
        err_code: TdpErrCode::Failed,
    });
    match &out[0] {
        RdpdrOutput::Pdu(ClientPdu::ClientDriveSetInformationResponse { device_io_response }) => {
            assert_eq!(device_io_response.io_status, STATUS_UNSUCCESSFUL);
        }
        other => panic!("expected a set-information reply, got {:?}", other),
    }
}

#[test]
fn list_round_trip_carries_the_listing() {
    let mut client = drive_client();
    let file_id = open_file(&mut client, 3, b"/dir");
    let out = client.handle_query_directory(DeviceIoRequest {
        device_id: 1,
        file_id,
        completion_id: 6,
    });
    let cid = match &out[0] {
        RdpdrOutput::Tdp(TdpRequest::List(r)) => {
            assert_eq!(r.path.as_bytes().as_slice(), b"/dir");
            r.completion_id
        }
        other => panic!("expected a list request, got {:?}", other),
    };
    let out = client.handle_tdp_sd_list_response(SharedDirectoryListResponse {
        completion_id: cid,
        err_code: TdpErrCode::Nil,
        fso_list: vec![FileSystemObject {
            last_modified: 1,
            size: 2,
            file_type: FileType::File,
            path: UnixPath::from_bytes(b"/dir/a".to_vec()),
        }],
    });
    match &out[0] {
        RdpdrOutput::Pdu(ClientPdu::ClientDriveQueryDirectoryResponse {
            device_io_response,
            fso_list,
        }) => {
            assert_eq!(device_io_response.io_status, STATUS_SUCCESS);
            assert_eq!(fso_list.len(), 1);
            assert_eq!(fso_list[0].path.as_bytes().as_slice(), b"/dir/a");
        }
        other => panic!("expected a directory reply, got {:?}", other),
    }
}

#[test]
fn query_information_round_trip() {
    let mut client = drive_client();
    let file_id = open_file(&mut client, 3, b"/q.txt");
    let out = client.handle_query_information(DeviceIoRequest {
        device_id: 1,
        file_id,
        completion_id: 6,
    });
    let cid = match &out[0] {
        RdpdrOutput::Tdp(TdpRequest::Info(r)) => {
            assert_eq!(r.path.as_bytes().as_slice(), b"/q.txt");
            r.completion_id
        }
        other => panic!("expected an info request, got {:?}", other),
    };
    let out = client.handle_tdp_sd_info_response(SharedDirectoryInfoResponse {
        completion_id: cid,
        err_code: TdpErrCode::Nil,
        fso: FileSystemObject {
            last_modified: 9,
            size: 11,
            file_type: FileType::File,
            path: UnixPath::from_bytes(b"/q.txt".to_vec()),
        },
    });
    match &out[0] {
        RdpdrOutput::Pdu(ClientPdu::ClientDriveQueryInformationResponse {
            device_io_response,
            fso,
        }) => {
            assert_eq!(device_io_response.io_status, STATUS_SUCCESS);
            let fso = fso.as_ref().expect("metadata expected on success");
            assert_eq!(fso.size, 11);
            assert_eq!(fso.last_modified, 9);
        }
        other => panic!("expected a query-information reply, got {:?}", other),
    }
}

#[test]
fn close_releases_the_handle() {
    let mut client = drive_client();
    let file_id = open_file(&mut client, 3, b"/c.txt");
    let out = client.handle_device_close(DeviceIoRequest {
        device_id: 1,
        file_id,
        completion_id: 6,
    });
    match &out[0] {
        RdpdrOutput::Pdu(ClientPdu::DeviceCloseResponse { device_io_response }) => {
            assert_eq!(device_io_response.io_status, STATUS_SUCCESS);
        }
        other => panic!("expected a close reply, got {:?}", other),
    }
    // A read on the released handle now fails.
    let out = client.handle_device_read(
        DeviceIoRequest {
            device_id: 1,
            file_id,
            completion_id: 7,
        },
        0,
        1,
    );
    match &out[0] {
        RdpdrOutput::Pdu(ClientPdu::DeviceReadResponse {
            device_io_response, ..
        }) => {
            assert_eq!(device_io_response.io_status, STATUS_UNSUCCESSFUL);
        }
        other => panic!("expected a read reply, got {:?}", other),
    }
}

#[test]
fn drive_verdict_is_acknowledged_to_the_host() {
    let mut client = drive_client();
    client.write_client_device_list_announce(ClientDeviceListAnnounce::new_drive(
        2,
        b"share".to_vec(),
    ));
    let out = client.handle_device_reply(2, STATUS_SUCCESS);
    assert_eq!(out.len(), 1);
    match &out[0] {
        RdpdrOutput::Ack(ack) => {
            assert_eq!(ack.directory_id, 2);
            assert_eq!(ack.err_code, TdpErrCode::Nil);
        }
        other => panic!("expected an acknowledgement, got {:?}", other),
    }
    let out = client.handle_device_reply(2, STATUS_UNSUCCESSFUL);
    match &out[0] {
        RdpdrOutput::Ack(ack) => {
            assert_eq!(ack.err_code, TdpErrCode::Failed);
        }
        other => panic!("expected an acknowledgement, got {:?}", other),
    }
}

#[test]
fn smartcard_verdict_produces_nothing() {
    let mut client = drive_client();
    let out = client.handle_device_reply(SCARD_DEVICE_ID, STATUS_SUCCESS);
    assert!(out.is_empty());
}

#[test]
fn path_with_embedded_nul_fails_the_request() {
    let mut client = drive_client();
    let req = ServerCreateDriveRequest {
        device_io_request: DeviceIoRequest {
            device_id: 1,
            file_id: 0,
            completion_id: 9,
        },
        create_disposition: FILE_OPEN,
        create_options: 0,
        path: UnixPath::from_bytes(b"/bad\0name".to_vec()),
    };
    let out = client.handle_create_drive(req);
    match &out[0] {
        RdpdrOutput::Pdu(ClientPdu::DeviceCreateResponse {
            device_io_response, ..
        }) => {
            assert_eq!(device_io_response.io_status, STATUS_UNSUCCESSFUL);
        }
        other => panic!("expected a create reply, got {:?}", other),
    }
}

#[test]
fn failed_write_reply_carries_the_reported_count() {
    let mut client = drive_client();
    let file_id = open_file(&mut client, 3, b"/w.txt");
    let out = client.handle_device_write(
        DeviceIoRequest {
            device_id: 1,
            file_id,
            completion_id: 4,
        },
        0,
        b"data".to_vec(),
    );
    let cid = match &out[0] {
        RdpdrOutput::Tdp(TdpRequest::Write(r)) => r.completion_id,
        other => panic!("expected a write request, got {:?}", other),
    };
    // A failed write that still reports a partial count: the count goes
    // into the reply verbatim, the status maps the error.
    let out = client.handle_tdp_sd_write_response(SharedDirectoryWriteResponse {
        completion_id: cid,
        err_code: TdpErrCode::Failed,
        bytes_written: 7,
    });
    match &out[0] {
        RdpdrOutput::Pdu(ClientPdu::DeviceWriteResponse {
            device_io_response,
            length,
        }) => {
            assert_eq!(device_io_response.io_status, STATUS_UNSUCCESSFUL);
            assert_eq!(*length, 7);
        }
        other => panic!("expected a write reply, got {:?}", other),
    }
}

#[test]
fn failed_request_delivery_fails_the_pending_read() {
    let mut client = drive_client();
    let file_id = open_file(&mut client, 3, b"/r.txt");
    let out = client.handle_device_read(
        DeviceIoRequest {
            device_id: 1,
            file_id,
            completion_id: 8,
        },
        0,
        5,
    );
    let cid = match &out[0] {
        RdpdrOutput::Tdp(TdpRequest::Read(r)) => r.completion_id,
        other => panic!("expected a read request, got {:?}", other),
    };
    // The host refused the surfaced request: the entry is removed and the
    // RDP read fails.
    let out = client.fail_pending(cid);
    assert_eq!(out.len(), 1);
    match &out[0] {
        RdpdrOutput::Pdu(ClientPdu::DeviceReadResponse {
            device_io_response,
            read_data,
        }) => {
            assert_eq!(device_io_response.io_status, STATUS_UNSUCCESSFUL);
            assert_eq!(device_io_response.completion_id, 8);
            assert!(read_data.is_empty());
        }
        other => panic!("expected a read reply, got {:?}", other),
    }
    // A late response for the failed id is now dropped.
    let out = client.handle_tdp_sd_read_response(
        rdpclient::tdp::SharedDirectoryReadResponse {
            completion_id: cid,
            err_code: TdpErrCode::Nil,
            read_data: b"late".to_vec(),
        },
    );
    assert!(out.is_empty());
}

#[test]
fn failed_request_delivery_fails_the_pending_create() {
    let mut client = drive_client();
    let req = ServerCreateDriveRequest {
        device_io_request: DeviceIoRequest {
            device_id: 1,
            file_id: 0,
            completion_id: 9,
        },
        create_disposition: FILE_OPEN,
        create_options: 0,
        path: UnixPath::from_bytes(b"/x.txt".to_vec()),
    };
    let out = client.handle_create_drive(req);
    let cid = match &out[0] {
        RdpdrOutput::Tdp(TdpRequest::Info(r)) => r.completion_id,
        other => panic!("expected an info request, got {:?}", other),
    };
    let out = client.fail_pending(cid);
    assert_eq!(out.len(), 1);
    match &out[0] {
        RdpdrOutput::Pdu(ClientPdu::DeviceCreateResponse {
            device_io_response,
            file_id,
        }) => {
            assert_eq!(device_io_response.io_status, STATUS_UNSUCCESSFUL);
            assert_eq!(*file_id, 0);
        }
        other => panic!("expected a create reply, got {:?}", other),
    }
}

#[test]
fn fail_pending_without_an_entry_does_nothing() {
    let mut client = drive_client();
    let out = client.fail_pending(424242);
    assert!(out.is_empty());
}
