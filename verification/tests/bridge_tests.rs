use rdpclient::path::UnixPath;
use rdpclient::rdpdr::{
    io_status, Client, ClientDeviceListAnnounce, ClientPdu, Config, DeviceIoRequest, RdpdrOutput,
    ServerCreateDriveRequest, FILE_CREATE, FILE_OPEN, STATUS_ACCESS_DENIED, STATUS_NO_SUCH_FILE,
    STATUS_OBJECT_NAME_COLLISION, STATUS_SUCCESS, STATUS_UNSUCCESSFUL,
};
use rdpclient::tdp::{
    FileSystemObject, FileType, SharedDirectoryCreateResponse, SharedDirectoryInfoResponse,
    SharedDirectoryReadResponse, TdpErrCode, TdpRequest,
};

fn drive_client() -> Client {
    Client::new(Config {
        cert_der: vec![1, 2, 3],
        key_der: vec![4, 5, 6],
        pin: String::from("00000000"),
        allow_directory_sharing: true,
    })
}

fn fso(path: &[u8], file_type: FileType, size: u64) -> FileSystemObject {
    FileSystemObject {
        last_modified: 1000,
        size,
        file_type,
        path: UnixPath::from_bytes(path.to_vec()),
    }
}

/// Announce a drive, open `/file.txt`, answer the info request, and return
/// the granted file id.
fn open_file(client: &mut Client, completion_id: u32) -> u32 {
    let req = ServerCreateDriveRequest {
        device_io_request: DeviceIoRequest {
            device_id: 1,
            file_id: 0,
            completion_id,
        },
        create_disposition: FILE_OPEN,
        create_options: 0,
        path: UnixPath::from_bytes(b"/file.txt".to_vec()),
    };
    let out = client.handle_create_drive(req);
    assert_eq!(out.len(), 1);
    let cid = match &out[0] {
        RdpdrOutput::Tdp(TdpRequest::Info(r)) => {
            assert_eq!(r.directory_id, 1);
            assert_eq!(r.path.as_bytes().as_slice(), b"/file.txt");
            r.completion_id
        }
        other => panic!("expected an info request, got {:?}", other),
    };
    let out = client.handle_tdp_sd_info_response(SharedDirectoryInfoResponse {
        completion_id: cid,
        err_code: TdpErrCode::Nil,
        fso: fso(b"/file.txt", FileType::File, 5),
    });
    assert_eq!(out.len(), 1);
    match &out[0] {
        RdpdrOutput::Pdu(ClientPdu::DeviceCreateResponse {
            device_io_response,
            file_id,
        }) => {
            assert_eq!(device_io_response.io_status, STATUS_SUCCESS);
            assert_eq!(device_io_response.completion_id, completion_id);
            assert_eq!(device_io_response.device_id, 1);
            assert!(*file_id > 0);
            *file_id
        }
        other => panic!("expected a create reply, got {:?}", other),
    }
}

#[test]
fn directory_announce_and_info_round_trip() {
    let mut client = drive_client();
    let out =
        client.write_client_device_list_announce(ClientDeviceListAnnounce::new_drive(
            1,
            b"share".to_vec(),
        ));
    assert_eq!(out.len(), 1);
    assert!(matches!(
        out[0],
        RdpdrOutput::Pdu(ClientPdu::DeviceListAnnounce(_))
    ));
    let file_id = open_file(&mut client, 7);
    assert_eq!(file_id, 1);
}

#[test]
fn read_round_trip_carries_data_verbatim() {
    let mut client = drive_client();
    let file_id = open_file(&mut client, 7);
    let out = client.handle_device_read(
        DeviceIoRequest {
            device_id: 1,
            file_id,
            completion_id: 8,
        },
        0,
        5,
    );
    assert_eq!(out.len(), 1);
    let cid = match &out[0] {
        RdpdrOutput::Tdp(TdpRequest::Read(r)) => {
            assert_eq!(r.directory_id, 1);
            assert_eq!(r.path.as_bytes().as_slice(), b"/file.txt");
            assert_eq!(r.offset, 0);
            assert_eq!(r.length, 5);
            r.completion_id
        }
        other => panic!("expected a read request, got {:?}", other),
    };
    let out = client.handle_tdp_sd_read_response(SharedDirectoryReadResponse {
        completion_id: cid,
        err_code: TdpErrCode::Nil,
        read_data: b"hello".to_vec(),
    });
    assert_eq!(out.len(), 1);
    match &out[0] {
        RdpdrOutput::Pdu(ClientPdu::DeviceReadResponse {
            device_io_response,
            read_data,
        }) => {
            assert_eq!(device_io_response.io_status, STATUS_SUCCESS);
            assert_eq!(read_data.as_slice(), b"hello");
        }
        other => panic!("expected a read reply, got {:?}", other),
    }
}

#[test]
fn read_reply_truncates_to_requested_length() {
    let mut client = drive_client();
    let file_id = open_file(&mut client, 7);
    let out = client.handle_device_read(
        DeviceIoRequest {
            device_id: 1,
            file_id,
            completion_id: 9,
        },
        0,
        3,
    );
    let cid = match &out[0] {
        RdpdrOutput::Tdp(TdpRequest::Read(r)) => r.completion_id,
        other => panic!("expected a read request, got {:?}", other),
    };
    let out = client.handle_tdp_sd_read_response(SharedDirectoryReadResponse {
        completion_id: cid,
        err_code: TdpErrCode::Nil,
        read_data: b"hello".to_vec(),
    });
    match &out[0] {
        RdpdrOutput::Pdu(ClientPdu::DeviceReadResponse { read_data, .. }) => {
            assert_eq!(read_data.as_slice(), b"hel");
        }
        other => panic!("expected a read reply, got {:?}", other),
    }
}

#[test]
fn unknown_completion_id_is_dropped() {
    let mut client = drive_client();
    let out = client.handle_tdp_sd_read_response(SharedDirectoryReadResponse {
        completion_id: 999999,
        err_code: TdpErrCode::Nil,
        read_data: b"hello".to_vec(),
    });
    assert!(out.is_empty());
}

#[test]
fn create_of_missing_file_goes_through_create_request() {
    let mut client = drive_client();
    let req = ServerCreateDriveRequest {
        device_io_request: DeviceIoRequest {
            device_id: 1,
            file_id: 0,
            completion_id: 4,
        },
        create_disposition: FILE_CREATE,
        create_options: 0,
        path: UnixPath::from_bytes(b"/new.txt".to_vec()),
    };
    let out = client.handle_create_drive(req);
    let cid = match &out[0] {
        RdpdrOutput::Tdp(TdpRequest::Info(r)) => r.completion_id,
        other => panic!("expected an info request, got {:?}", other),
    };
    let out = client.handle_tdp_sd_info_response(SharedDirectoryInfoResponse {
        completion_id: cid,
        err_code: TdpErrCode::DoesNotExist,
        fso: fso(b"/new.txt", FileType::File, 0),
    });
    assert_eq!(out.len(), 1);
    let cid2 = match &out[0] {
        RdpdrOutput::Tdp(TdpRequest::Create(r)) => {
            assert_eq!(r.file_type, FileType::File);
            assert_eq!(r.path.as_bytes().as_slice(), b"/new.txt");
            r.completion_id
        }
        other => panic!("expected a create request, got {:?}", other),
    };
    assert_eq!(cid2, cid);
    let out = client.handle_tdp_sd_create_response(SharedDirectoryCreateResponse {
        completion_id: cid2,
        err_code: TdpErrCode::Nil,
        fso: fso(b"/new.txt", FileType::File, 0),
    });
    match &out[0] {
        RdpdrOutput::Pdu(ClientPdu::DeviceCreateResponse {
            device_io_response,
            file_id,
        }) => {
            assert_eq!(device_io_response.io_status, STATUS_SUCCESS);
            assert!(*file_id > 0);
        }
        other => panic!("expected a create reply, got {:?}", other),
    }
}

#[test]
fn open_of_missing_file_fails_with_no_such_file() {
    let mut client = drive_client();
    let req = ServerCreateDriveRequest {
        device_io_request: DeviceIoRequest {
            device_id: 1,
            file_id: 0,
            completion_id: 4,
        },
        create_disposition: FILE_OPEN,
        create_options: 0,
        path: UnixPath::from_bytes(b"/gone.txt".to_vec()),
    };
    let out = client.handle_create_drive(req);
    let cid = match &out[0] {
        RdpdrOutput::Tdp(TdpRequest::Info(r)) => r.completion_id,
        other => panic!("expected an info request, got {:?}", other),
    };
    let out = client.handle_tdp_sd_info_response(SharedDirectoryInfoResponse {
        completion_id: cid,
        err_code: TdpErrCode::DoesNotExist,
        fso: fso(b"/gone.txt", FileType::File, 0),
    });
    match &out[0] {
        RdpdrOutput::Pdu(ClientPdu::DeviceCreateResponse {
            device_io_response,
            ..
        }) => {
            assert_eq!(device_io_response.io_status, STATUS_NO_SUCH_FILE);
        }
        other => panic!("expected a create reply, got {:?}", other),
    }
}

#[test]
fn create_of_existing_file_collides() {
    let mut client = drive_client();
    let req = ServerCreateDriveRequest {
        device_io_request: DeviceIoRequest {
            device_id: 1,
            file_id: 0,
            completion_id: 4,
        },
        create_disposition: FILE_CREATE,
        create_options: 0,
        path: UnixPath::from_bytes(b"/file.txt".to_vec()),
    };
    let out = client.handle_create_drive(req);
    let cid = match &out[0] {
        RdpdrOutput::Tdp(TdpRequest::Info(r)) => r.completion_id,
        other => panic!("expected an info request, got {:?}", other),
    };
    let out = client.handle_tdp_sd_info_response(SharedDirectoryInfoResponse {
        completion_id: cid,
        err_code: TdpErrCode::Nil,
        fso: fso(b"/file.txt", FileType::File, 5),
    });
    match &out[0] {
        RdpdrOutput::Pdu(ClientPdu::DeviceCreateResponse {
            device_io_response,
            ..
        }) => {
            assert_eq!(device_io_response.io_status, STATUS_OBJECT_NAME_COLLISION);
        }
        other => panic!("expected a create reply, got {:?}", other),
    }
}

#[test]
fn wanting_a_directory_but_finding_a_file_is_denied() {
    let mut client = drive_client();
    let req = ServerCreateDriveRequest {
        device_io_request: DeviceIoRequest {
            device_id: 1,
            file_id: 0,
            completion_id: 4,
        },
        create_disposition: FILE_OPEN,
        create_options: rdpclient::rdpdr::FILE_DIRECTORY_FILE,
        path: UnixPath::from_bytes(b"/file.txt".to_vec()),
    };
    let out = client.handle_create_drive(req);
    let cid = match &out[0] {
        RdpdrOutput::Tdp(TdpRequest::Info(r)) => r.completion_id,
        other => panic!("expected an info request, got {:?}", other),
    };
    let out = client.handle_tdp_sd_info_response(SharedDirectoryInfoResponse {
        completion_id: cid,
        err_code: TdpErrCode::Nil,
        fso: fso(b"/file.txt", FileType::File, 5),
    });
    match &out[0] {
        RdpdrOutput::Pdu(ClientPdu::DeviceCreateResponse {
            device_io_response,
            ..
        }) => {
            assert_eq!(device_io_response.io_status, STATUS_ACCESS_DENIED);
        }
        other => panic!("expected a create reply, got {:?}", other),
    }
}

#[test]
fn duplicate_completion_id_gets_a_fresh_one() {
    let mut client = drive_client();
    let mk = |path: &[u8]| ServerCreateDriveRequest {
        device_io_request: DeviceIoRequest {
            device_id: 1,
            file_id: 0,
            completion_id: 7,
        },
        create_disposition: FILE_OPEN,
        create_options: 0,
        path: UnixPath::from_bytes(path.to_vec()),
    };
    let out1 = client.handle_create_drive(mk(b"/a.txt"));
    let cid1 = match &out1[0] {
        RdpdrOutput::Tdp(TdpRequest::Info(r)) => r.completion_id,
        other => panic!("expected an info request, got {:?}", other),
    };
    let out2 = client.handle_create_drive(mk(b"/b.txt"));
    let cid2 = match &out2[0] {
        RdpdrOutput::Tdp(TdpRequest::Info(r)) => r.completion_id,
        other => panic!("expected an info request, got {:?}", other),
    };
    assert_eq!(cid1, 7);
    assert_ne!(cid1, cid2);
}

#[test]
fn disabled_directory_sharing_fails_creates() {
    let mut client = Client::new(Config {
        cert_der: Vec::new(),
        key_der: Vec::new(),
        pin: String::from("00000000"),
        allow_directory_sharing: false,
    });
    let req = ServerCreateDriveRequest {
        device_io_request: DeviceIoRequest {
            device_id: 1,
            file_id: 0,
            completion_id: 4,
        },
        create_disposition: FILE_OPEN,
        create_options: 0,
        path: UnixPath::from_bytes(b"/file.txt".to_vec()),
    };
    let out = client.handle_create_drive(req);
    match &out[0] {
        RdpdrOutput::Pdu(ClientPdu::DeviceCreateResponse {
            device_io_response,
            ..
        }) => {
            assert_eq!(device_io_response.io_status, STATUS_UNSUCCESSFUL);
        }
        other => panic!("expected a create reply, got {:?}", other),
    }
}

#[test]
fn tdp_error_codes_map_to_ntstatus() {
    assert_eq!(io_status(TdpErrCode::Nil), STATUS_SUCCESS);
    assert_eq!(io_status(TdpErrCode::Failed), STATUS_UNSUCCESSFUL);
    assert_eq!(io_status(TdpErrCode::DoesNotExist), STATUS_NO_SUCH_FILE);
    assert_eq!(
        io_status(TdpErrCode::AlreadyExists),
        STATUS_OBJECT_NAME_COLLISION
    );
}
