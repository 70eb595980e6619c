//! The `rdpdr` channel client: smartcard announcement and the
//! drive-redirection bridge.
//!
//! The bridge translates RDP device I/O requests into outbound TDP requests,
//! keeps a pending-request table keyed by completion id, and resumes the
//! RDP-side reply when the matching TDP response arrives.  Every handler is
//! a pure state transition returning the ordered artifacts to emit: PDUs to
//! write back to the server, and TDP messages to surface to the host.

use vstd::prelude::*;
use crate::path::UnixPath;
use crate::table::IdTable;
use crate::tdp::{
    FileSystemObject, FileType, SharedDirectoryAcknowledge, SharedDirectoryCreateRequest,
    SharedDirectoryCreateResponse, SharedDirectoryDeleteRequest, SharedDirectoryDeleteResponse,
    SharedDirectoryInfoRequest, SharedDirectoryInfoResponse, SharedDirectoryListRequest,
    SharedDirectoryListResponse, SharedDirectoryMoveRequest, SharedDirectoryMoveResponse,
    SharedDirectoryReadRequest, SharedDirectoryReadResponse, SharedDirectoryWriteRequest,
    SharedDirectoryWriteResponse, TdpErrCode, TdpRequest,
};
use crate::util::truncate_bytes;

verus! {

/// NTSTATUS: the operation succeeded.
pub const STATUS_SUCCESS: u32 = 0;
/// NTSTATUS: generic failure.
pub const STATUS_UNSUCCESSFUL: u32 = 0xC0000001;
/// NTSTATUS: no such file.
pub const STATUS_NO_SUCH_FILE: u32 = 0xC000000F;
/// NTSTATUS: access denied.
pub const STATUS_ACCESS_DENIED: u32 = 0xC0000022;
/// NTSTATUS: an object by that name already exists.
pub const STATUS_OBJECT_NAME_COLLISION: u32 = 0xC0000035;

/// Create disposition: replace whatever is there.
pub const FILE_SUPERSEDE: u32 = 0;
/// Create disposition: open only if it exists.
pub const FILE_OPEN: u32 = 1;
/// Create disposition: create only if it does not exist.
pub const FILE_CREATE: u32 = 2;
/// Create disposition: open, creating if absent.
pub const FILE_OPEN_IF: u32 = 3;
/// Create disposition: truncate an existing file.
pub const FILE_OVERWRITE: u32 = 4;
/// Create disposition: truncate, creating if absent.
pub const FILE_OVERWRITE_IF: u32 = 5;

/// Create option flag: the caller wants a directory.
pub const FILE_DIRECTORY_FILE: u32 = 0x00000001;

/// The device id under which the emulated smartcard is announced.
pub const SCARD_DEVICE_ID: u32 = 1;

/// The common header of an RDP device I/O request.
#[derive(Clone, Copy, Debug, PartialEq, Eq, Structural)]
pub struct DeviceIoRequest {
    pub device_id: u32,
    pub file_id: u32,
    pub completion_id: u32,
}

/// The common header of an RDP device I/O reply.
#[derive(Clone, Copy, Debug, PartialEq, Eq, Structural)]
pub struct DeviceIoResponse {
    pub device_id: u32,
    pub completion_id: u32,
    pub io_status: u32,
}

impl DeviceIoResponse {
    /// The reply header answering `req` with `io_status`.
    pub open spec fn spec_answering(req: DeviceIoRequest, io_status: u32) -> DeviceIoResponse {
        DeviceIoResponse {
            device_id: req.device_id,
            completion_id: req.completion_id,
            io_status,
        }
    }

    pub fn answering(req: &DeviceIoRequest, io_status: u32) -> (r: DeviceIoResponse)
        ensures
            r == DeviceIoResponse::spec_answering(*req, io_status),
    {
        DeviceIoResponse {
            device_id: req.device_id,
            completion_id: req.completion_id,
            io_status,
        }
    }
}

/// An `IRP_MJ_CREATE` on a redirected drive, opening a path by name.
#[derive(Debug)]
pub struct ServerCreateDriveRequest {
    pub device_io_request: DeviceIoRequest,
    pub create_disposition: u32,
    pub create_options: u32,
    pub path: UnixPath,
}

impl ServerCreateDriveRequest {
    pub fn clone_req(&self) -> (r: ServerCreateDriveRequest)
        ensures
            r.device_io_request == self.device_io_request,
            r.create_disposition == self.create_disposition,
            r.create_options == self.create_options,
            r.path@ == self.path@,
            r.path.wf() == self.path.wf(),
    {
        ServerCreateDriveRequest {
            device_io_request: self.device_io_request,
            create_disposition: self.create_disposition,
            create_options: self.create_options,
            path: self.path.clone_path(),
        }
    }
}

/// One device announced to the server.
#[derive(Debug)]
pub struct DeviceAnnounce {
    pub device_id: u32,
    pub is_smartcard: bool,
    pub name: Vec<u8>,
}

/// The client's device-list announce PDU.
#[derive(Debug)]
pub struct ClientDeviceListAnnounce {
    pub device_list: Vec<DeviceAnnounce>,
}

impl ClientDeviceListAnnounce {
    /// Announces one redirected drive under the directory id chosen by the
    /// host.
    pub fn new_drive(device_id: u32, name: Vec<u8>) -> (r: ClientDeviceListAnnounce)
        ensures
            r.device_list@.len() == 1,
            r.device_list@[0].device_id == device_id,
            !r.device_list@[0].is_smartcard,
            r.device_list@[0].name@ == name@,
    {
        let mut device_list: Vec<DeviceAnnounce> = Vec::new();
        device_list.push(DeviceAnnounce { device_id, is_smartcard: false, name });
        ClientDeviceListAnnounce { device_list }
    }
}

/// A PDU arriving on the `rdpdr` channel, already decoded into its record.
#[derive(Debug)]
pub enum ServerPdu {
    /// Server announce: the start of the device-redirection handshake.
    AnnounceRequest { version_major: u16, version_minor: u16, client_id: u32 },
    /// The server asks for the client's capabilities.
    CoreCapabilityRequest,
    /// The server confirms the client id; devices may now be announced.
    ClientIdConfirm { client_id: u32 },
    /// The server's verdict on one announced device.
    DeviceReply { device_id: u32, result_code: u32 },
    /// `IRP_MJ_CREATE` on a drive.
    CreateDriveRequest(ServerCreateDriveRequest),
    /// `IRP_MJ_READ`.
    DeviceReadRequest { device_io_request: DeviceIoRequest, offset: u64, length: u32 },
    /// `IRP_MJ_WRITE`.
    DeviceWriteRequest { device_io_request: DeviceIoRequest, offset: u64, write_data: Vec<u8> },
    /// `IRP_MJ_CLOSE`.
    DeviceCloseRequest { device_io_request: DeviceIoRequest },
    /// `IRP_MJ_DIRECTORY_CONTROL`: list the opened directory.
    QueryDirectoryRequest { device_io_request: DeviceIoRequest },
    /// `IRP_MJ_QUERY_INFORMATION` on an opened object.
    QueryInformationRequest { device_io_request: DeviceIoRequest },
    /// `IRP_MJ_SET_INFORMATION` with `FileRenameInformation`.
    RenameRequest { device_io_request: DeviceIoRequest, new_path: UnixPath },
    /// `IRP_MJ_SET_INFORMATION` with a delete disposition.
    DeleteRequest { device_io_request: DeviceIoRequest },
}

/// A PDU the client writes back on the `rdpdr` channel.
#[derive(Debug)]
pub enum ClientPdu {
    AnnounceReply { version_major: u16, version_minor: u16, client_id: u32 },
    ClientNameRequest { name: Vec<u8> },
    CoreCapabilityResponse,
    DeviceListAnnounce(ClientDeviceListAnnounce),
    DeviceCreateResponse { device_io_response: DeviceIoResponse, file_id: u32 },
    DeviceReadResponse { device_io_response: DeviceIoResponse, read_data: Vec<u8> },
    DeviceWriteResponse { device_io_response: DeviceIoResponse, length: u32 },
    ClientDriveQueryDirectoryResponse {
        device_io_response: DeviceIoResponse,
        fso_list: Vec<FileSystemObject>,
    },
    ClientDriveQueryInformationResponse {
        device_io_response: DeviceIoResponse,
        fso: Option<FileSystemObject>,
    },
    ClientDriveSetInformationResponse { device_io_response: DeviceIoResponse },
    DeviceCloseResponse { device_io_response: DeviceIoResponse },
}

/// One artifact produced by handling a PDU or a TDP response, in emission
/// order.
#[derive(Debug)]
pub enum RdpdrOutput {
    /// Write this PDU to the `rdpdr` channel.
    Pdu(ClientPdu),
    /// Surface this TDP request to the host.
    Tdp(TdpRequest),
    /// Surface this TDP acknowledgement to the host.
    Ack(SharedDirectoryAcknowledge),
}

/// The continuation stored under a completion id: exactly the state needed
/// to build the RDP reply once the TDP response arrives.
#[derive(Debug)]
pub enum SharedDirectoryOp {
    /// A create awaiting the info response about the target path.
    CreateStage(ServerCreateDriveRequest),
    /// A create awaiting the host's create response.
    CreateFinish(ServerCreateDriveRequest),
    /// A query-information awaiting the info response.
    QueryInfo { device_io_request: DeviceIoRequest },
    /// A delete awaiting its response.
    AwaitDelete { device_io_request: DeviceIoRequest },
    /// A directory listing awaiting its response.
    AwaitList { device_io_request: DeviceIoRequest },
    /// A read awaiting its data; `length` is the requested byte count.
    AwaitRead { device_io_request: DeviceIoRequest, length: u32 },
    /// A write awaiting its byte count.
    AwaitWrite { device_io_request: DeviceIoRequest },
    /// A rename awaiting its response.
    AwaitMove { device_io_request: DeviceIoRequest },
}

/// The NTSTATUS that answers a TDP result code, used by every reply whose
/// operation has no special-case mapping.
pub open spec fn spec_io_status(e: TdpErrCode) -> u32 {
    match e {
        TdpErrCode::Nil => STATUS_SUCCESS,
        TdpErrCode::Failed => STATUS_UNSUCCESSFUL,
        TdpErrCode::DoesNotExist => STATUS_NO_SUCH_FILE,
        TdpErrCode::AlreadyExists => STATUS_OBJECT_NAME_COLLISION,
    }
}

/// Maps a TDP result code to the NTSTATUS carried on the RDP reply.
pub fn io_status(e: TdpErrCode) -> (s: u32)
    ensures
        s == spec_io_status(e),
{
    match e {
        TdpErrCode::Nil => STATUS_SUCCESS,
        TdpErrCode::Failed => STATUS_UNSUCCESSFUL,
        TdpErrCode::DoesNotExist => STATUS_NO_SUCH_FILE,
        TdpErrCode::AlreadyExists => STATUS_OBJECT_NAME_COLLISION,
    }
}

/// What a create does once the target path's existence and type are known.
#[derive(Clone, Copy, Debug, PartialEq, Eq, Structural)]
pub enum CreateDecision {
    /// Reply at once with this (failure) status.
    ReplyStatus(u32),
    /// Reply success with a fresh file id: the object is simply opened.
    ReplyOpen,
    /// Ask the host to create the object of the given type, then reply.
    SendCreate(FileType),
}

/// The disposition table of the create operation, §[MS-RDPEFS]-shaped:
/// what to do given the requested disposition and options and the info
/// response for the target path.
pub open spec fn spec_create_decision(
    disposition: u32,
    options: u32,
    err_code: TdpErrCode,
    fso_type: FileType,
) -> CreateDecision {
    if err_code == TdpErrCode::Nil {
        // The target exists.
        if fso_type == FileType::File && options & FILE_DIRECTORY_FILE != 0 {
            // A directory was demanded but a plain file is there.
            CreateDecision::ReplyStatus(STATUS_ACCESS_DENIED)
        } else if disposition == FILE_CREATE {
            CreateDecision::ReplyStatus(STATUS_OBJECT_NAME_COLLISION)
        } else if disposition == FILE_OPEN || disposition == FILE_OPEN_IF {
            CreateDecision::ReplyOpen
        } else if disposition == FILE_SUPERSEDE || disposition == FILE_OVERWRITE
            || disposition == FILE_OVERWRITE_IF {
            CreateDecision::SendCreate(fso_type)
        } else {
            CreateDecision::ReplyStatus(STATUS_UNSUCCESSFUL)
        }
    } else if err_code == TdpErrCode::DoesNotExist {
        if disposition == FILE_OPEN || disposition == FILE_OVERWRITE {
            CreateDecision::ReplyStatus(STATUS_NO_SUCH_FILE)
        } else if disposition == FILE_SUPERSEDE || disposition == FILE_CREATE
            || disposition == FILE_OPEN_IF || disposition == FILE_OVERWRITE_IF {
            CreateDecision::SendCreate(
                if options & FILE_DIRECTORY_FILE != 0 {
                    FileType::Directory
                } else {
                    FileType::File
                },
            )
        } else {
            CreateDecision::ReplyStatus(STATUS_UNSUCCESSFUL)
        }
    } else {
        // Failed or AlreadyExists from an info request: give up.
        CreateDecision::ReplyStatus(STATUS_UNSUCCESSFUL)
    }
}

/// Executable twin of `spec_create_decision`.
pub fn create_decision(
    disposition: u32,
    options: u32,
    err_code: TdpErrCode,
    fso_type: FileType,
) -> (d: CreateDecision)
    ensures
        d == spec_create_decision(disposition, options, err_code, fso_type),
{
    if err_code == TdpErrCode::Nil {
        if fso_type == FileType::File && options & FILE_DIRECTORY_FILE != 0 {
            CreateDecision::ReplyStatus(STATUS_ACCESS_DENIED)
        } else if disposition == FILE_CREATE {
            CreateDecision::ReplyStatus(STATUS_OBJECT_NAME_COLLISION)
        } else if disposition == FILE_OPEN || disposition == FILE_OPEN_IF {
            CreateDecision::ReplyOpen
        } else if disposition == FILE_SUPERSEDE || disposition == FILE_OVERWRITE
            || disposition == FILE_OVERWRITE_IF {
            CreateDecision::SendCreate(fso_type)
        } else {
            CreateDecision::ReplyStatus(STATUS_UNSUCCESSFUL)
        }
    } else if err_code == TdpErrCode::DoesNotExist {
        if disposition == FILE_OPEN || disposition == FILE_OVERWRITE {
            CreateDecision::ReplyStatus(STATUS_NO_SUCH_FILE)
        } else if disposition == FILE_SUPERSEDE || disposition == FILE_CREATE
            || disposition == FILE_OPEN_IF || disposition == FILE_OVERWRITE_IF {
            CreateDecision::SendCreate(
                if options & FILE_DIRECTORY_FILE != 0 {
                    FileType::Directory
                } else {
                    FileType::File
                },
            )
        } else {
            CreateDecision::ReplyStatus(STATUS_UNSUCCESSFUL)
        }
    } else {
        CreateDecision::ReplyStatus(STATUS_UNSUCCESSFUL)
    }
}

} // verus!

verus! {

/// The `rdpdr` channel client: smartcard emulation parameters and the
/// drive-redirection bridge state.
pub struct Client {
    /// Certificate for the emulated smartcard, DER.
    pub cert_der: Vec<u8>,
    /// Private key for the emulated smartcard, DER.
    pub key_der: Vec<u8>,
    /// The 8-digit smartcard PIN generated at connect time.
    pub pin: String,
    /// Whether drive redirection is enabled for this session.
    pub allow_directory_sharing: bool,
    /// Completion id to the continuation resuming the RDP reply.
    pub pending: IdTable<SharedDirectoryOp>,
    /// Open file id to the path it was opened under.
    pub handles: IdTable<UnixPath>,
    /// The next file id to hand out; all open ids are below it.
    pub next_file_id: u32,
    /// Directory ids of the drives announced to the server.
    pub active_drives: Vec<u32>,
}

/// Configuration handed to the client at connect time.
pub struct Config {
    pub cert_der: Vec<u8>,
    pub key_der: Vec<u8>,
    pub pin: String,
    pub allow_directory_sharing: bool,
}

impl Client {
    /// Both tables well-formed, and every open file id below the allocator
    /// cursor.
    pub open spec fn wf(&self) -> bool {
        &&& self.pending.wf()
        &&& self.handles.wf()
        &&& forall|id: u32| self.handles@.dom().contains(id) ==> id < self.next_file_id
        &&& self.next_file_id >= 1
    }

    /// The connect-time configuration is never altered by PDU handling.
    pub open spec fn config_unchanged(self, pre: Client) -> bool {
        &&& self.cert_der@ == pre.cert_der@
        &&& self.key_der@ == pre.key_der@
        &&& self.pin@ == pre.pin@
        &&& self.allow_directory_sharing == pre.allow_directory_sharing
    }

    pub fn new(config: Config) -> (c: Client)
        ensures
            c.wf(),
            c.cert_der@ == config.cert_der@,
            c.key_der@ == config.key_der@,
            c.pin@ == config.pin@,
            c.allow_directory_sharing == config.allow_directory_sharing,
            c.pending@ =~= Map::<u32, SharedDirectoryOp>::empty(),
            c.handles@ =~= Map::<u32, UnixPath>::empty(),
            c.active_drives@.len() == 0,
    {
        Client {
            cert_der: config.cert_der,
            key_der: config.key_der,
            pin: config.pin,
            allow_directory_sharing: config.allow_directory_sharing,
            pending: IdTable::new(),
            handles: IdTable::new(),
            next_file_id: 1,
            active_drives: Vec::new(),
        }
    }

    /// A completion id not currently pending, preferring `want` (the RDP
    /// completion id).  `None` only in the impossible state where every id
    /// is pending.
    fn alloc_completion_id(&self, want: u32) -> (r: Option<u32>)
        requires
            self.pending.wf(),
        ensures
            !self.pending@.dom().contains(want) ==> r == Some(want),
            r is Some ==> !self.pending@.dom().contains(r->Some_0),
            r is None ==> forall|id: u32| self.pending@.dom().contains(id),
    {
        if !self.pending.contains_id(want) {
            return Some(want);
        }
        let mut cand: u32 = 0;
        while self.pending.contains_id(cand)
            invariant
                self.pending.wf(),
                forall|id: u32| id < cand ==> self.pending@.dom().contains(id),
            decreases u32::MAX - cand,
        {
            if cand == u32::MAX {
                proof {
                    assert forall|id: u32| self.pending@.dom().contains(id) by {
                        assert(id <= u32::MAX);
                        if id < u32::MAX {
                            assert(self.pending@.dom().contains(id));
                        }
                    }
                }
                return None;
            }
            cand = cand + 1;
        }
        Some(cand)
    }

    /// Whether `device_id` names one of the announced drives.
    pub fn drive_announced(&self, device_id: u32) -> (r: bool)
        ensures
            r == self.active_drives@.contains(device_id),
    {
        let mut i: usize = 0;
        while i < self.active_drives.len()
            invariant
                i <= self.active_drives@.len(),
                forall|j: int| 0 <= j < i ==> self.active_drives@[j] != device_id,
            decreases self.active_drives@.len() - i,
        {
            if self.active_drives[i] == device_id {
                return true;
            }
            i = i + 1;
        }
        false
    }

    /// Answers the server announce with the same version and client id,
    /// followed by the client's name.
    pub fn handle_announce_request(
        &mut self,
        version_major: u16,
        version_minor: u16,
        client_id: u32,
    ) -> (out: Vec<RdpdrOutput>)
        requires
            old(self).wf(),
        ensures
            final(self).wf(),
            announce_request_post(*old(self), *final(self), version_major, version_minor, client_id, out@),
    {
        let mut out: Vec<RdpdrOutput> = Vec::new();
        out.push(RdpdrOutput::Pdu(ClientPdu::AnnounceReply {
            version_major,
            version_minor,
            client_id,
        }));
        let name = client_name_bytes();
        out.push(RdpdrOutput::Pdu(ClientPdu::ClientNameRequest { name }));
        out
    }

    /// Answers a capability request with the client's capabilities.
    pub fn handle_core_capability_request(&mut self) -> (out: Vec<RdpdrOutput>)
        requires
            old(self).wf(),
        ensures
            final(self).wf(),
            core_capability_post(*old(self), *final(self), out@),
    {
        let mut out: Vec<RdpdrOutput> = Vec::new();
        out.push(RdpdrOutput::Pdu(ClientPdu::CoreCapabilityResponse));
        out
    }

    /// On client-id confirmation, announces the emulated smartcard.
    pub fn handle_client_id_confirm(&mut self) -> (out: Vec<RdpdrOutput>)
        requires
            old(self).wf(),
        ensures
            final(self).wf(),
            client_id_confirm_post(*old(self), *final(self), out@),
    {
        let mut devices: Vec<DeviceAnnounce> = Vec::new();
        let mut name: Vec<u8> = Vec::new();
        name.push(83);
        name.push(67);
        name.push(65);
        name.push(82);
        name.push(68);
        devices.push(DeviceAnnounce {
            device_id: SCARD_DEVICE_ID,
            is_smartcard: true,
            name,
        });
        let mut out: Vec<RdpdrOutput> = Vec::new();
        out.push(RdpdrOutput::Pdu(ClientPdu::DeviceListAnnounce(ClientDeviceListAnnounce {
            device_list: devices,
        })));
        out
    }

    /// The server's verdict on one announced device.  For a drive, the
    /// verdict is surfaced to the host as a TDP acknowledgement; the
    /// smartcard's verdict produces nothing.
    pub fn handle_device_reply(&mut self, device_id: u32, result_code: u32) -> (out: Vec<
        RdpdrOutput,
    >)
        requires
            old(self).wf(),
        ensures
            final(self).wf(),
            device_reply_post(*old(self), *final(self), device_id, result_code, out@),
    {
        let mut out: Vec<RdpdrOutput> = Vec::new();
        if self.drive_announced(device_id) {
            out.push(RdpdrOutput::Ack(SharedDirectoryAcknowledge {
                err_code: if result_code == STATUS_SUCCESS {
                    TdpErrCode::Nil
                } else {
                    TdpErrCode::Failed
                },
                directory_id: device_id,
            }));
        }
        out
    }

    /// Announces a new drive chosen by the host and records its directory
    /// id so later device replies can be attributed to it.
    pub fn write_client_device_list_announce(
        &mut self,
        req: ClientDeviceListAnnounce,
    ) -> (out: Vec<RdpdrOutput>)
        requires
            old(self).wf(),
        ensures
            final(self).wf(),
            device_list_announce_post(*old(self), *final(self), req, out@),
    {
        let mut i: usize = 0;
        let ghost ids = req.device_list@.map_values(|d: DeviceAnnounce| d.device_id);
        while i < req.device_list.len()
            invariant
                i <= req.device_list@.len(),
                ids == req.device_list@.map_values(|d: DeviceAnnounce| d.device_id),
                self.active_drives@ == old(self).active_drives@ + ids.subrange(0, i as int),
                self.pending == old(self).pending,
                self.handles == old(self).handles,
                self.next_file_id == old(self).next_file_id,
                self.cert_der == old(self).cert_der,
                self.key_der == old(self).key_der,
                self.pin == old(self).pin,
                self.allow_directory_sharing == old(self).allow_directory_sharing,
            decreases req.device_list@.len() - i,
        {
            self.active_drives.push(req.device_list[i].device_id);
            proof {
                assert(self.active_drives@ =~= old(self).active_drives@
                    + ids.subrange(0, i + 1));
            }
            i = i + 1;
        }
        proof {
            assert(ids.subrange(0, ids.len() as int) =~= ids);
        }
        let mut out: Vec<RdpdrOutput> = Vec::new();
        out.push(RdpdrOutput::Pdu(ClientPdu::DeviceListAnnounce(req)));
        out
    }
}

/// The client name announced during the device-redirection handshake:
/// the bytes of "teleport".
pub open spec fn client_name() -> Seq<u8> {
    seq![116u8, 101u8, 108u8, 101u8, 112u8, 111u8, 114u8, 116u8]
}

/// Builds the announced client name.
pub fn client_name_bytes() -> (name: Vec<u8>)
    ensures
        name@ == client_name(),
{
    let mut name: Vec<u8> = Vec::new();
    name.push(116);
    name.push(101);
    name.push(108);
    name.push(101);
    name.push(112);
    name.push(111);
    name.push(114);
    name.push(116);
    proof {
        assert(name@ =~= client_name());
    }
    name
}

} // verus!

verus! {

/// A create reply carrying `status` and `file_id`.
pub open spec fn spec_create_reply(req: DeviceIoRequest, status: u32, file_id: u32) -> RdpdrOutput {
    RdpdrOutput::Pdu(ClientPdu::DeviceCreateResponse {
        device_io_response: DeviceIoResponse::spec_answering(req, status),
        file_id,
    })
}

/// A set-information reply carrying `status`.
pub open spec fn spec_set_info_reply(req: DeviceIoRequest, status: u32) -> RdpdrOutput {
    RdpdrOutput::Pdu(ClientPdu::ClientDriveSetInformationResponse {
        device_io_response: DeviceIoResponse::spec_answering(req, status),
    })
}

/// A write reply carrying `status` and the byte count.
pub open spec fn spec_write_reply(req: DeviceIoRequest, status: u32, length: u32) -> RdpdrOutput {
    RdpdrOutput::Pdu(ClientPdu::DeviceWriteResponse {
        device_io_response: DeviceIoResponse::spec_answering(req, status),
        length,
    })
}

/// A close reply carrying `status`.
pub open spec fn spec_close_reply(req: DeviceIoRequest, status: u32) -> RdpdrOutput {
    RdpdrOutput::Pdu(ClientPdu::DeviceCloseResponse {
        device_io_response: DeviceIoResponse::spec_answering(req, status),
    })
}

impl Client {
    /// Everything but the pending table is left alone: the frame shared by
    /// the handlers that only install a continuation.
    pub open spec fn only_pending_changed(self, pre: Client) -> bool {
        &&& self.config_unchanged(pre)
        &&& self.handles@ == pre.handles@
        &&& self.active_drives@ == pre.active_drives@
        &&& self.next_file_id == pre.next_file_id
    }

    /// `IRP_MJ_CREATE` on a drive: ask the host about the target path and
    /// remember the request under a fresh completion id.  With directory
    /// sharing disabled, or a path that cannot cross the host boundary, the
    /// request fails at once and the session goes on.
    pub fn handle_create_drive(&mut self, req: ServerCreateDriveRequest) -> (out: Vec<RdpdrOutput>)
        requires
            old(self).wf(),
        ensures
            final(self).wf(),
            create_drive_post(*old(self), *final(self), req, out@),
    {
        let io = req.device_io_request;
        if !self.allow_directory_sharing || req.path.contains_nul() {
            let mut out: Vec<RdpdrOutput> = Vec::new();
            out.push(RdpdrOutput::Pdu(ClientPdu::DeviceCreateResponse {
                device_io_response: DeviceIoResponse::answering(&io, STATUS_UNSUCCESSFUL),
                file_id: 0,
            }));
            return out;
        }
        match self.alloc_completion_id(io.completion_id) {
            None => {
                let mut out: Vec<RdpdrOutput> = Vec::new();
                out.push(RdpdrOutput::Pdu(ClientPdu::DeviceCreateResponse {
                    device_io_response: DeviceIoResponse::answering(&io, STATUS_UNSUCCESSFUL),
                    file_id: 0,
                }));
                out
            },
            Some(cid) => {
                let path = req.path.clone_path();
                self.pending.insert(cid, SharedDirectoryOp::CreateStage(req));
                let mut out: Vec<RdpdrOutput> = Vec::new();
                out.push(RdpdrOutput::Tdp(TdpRequest::Info(SharedDirectoryInfoRequest {
                    completion_id: cid,
                    directory_id: io.device_id,
                    path,
                })));
                out
            },
        }
    }

    /// `IRP_MJ_READ`: ask the host for the bytes of the opened file.
    pub fn handle_device_read(
        &mut self,
        device_io_request: DeviceIoRequest,
        offset: u64,
        length: u32,
    ) -> (out: Vec<RdpdrOutput>)
        requires
            old(self).wf(),
        ensures
            final(self).wf(),
            device_read_post(*old(self), *final(self), device_io_request, offset, length, out@),
    {
        let io = device_io_request;
        if self.allow_directory_sharing {
            let found = match self.handles.get(io.file_id) {
                Some(p) => Some(p.clone_path()),
                None => None,
            };
            if let Some(path) = found {
                match self.alloc_completion_id(io.completion_id) {
                    Some(cid) => {
                        self.pending.insert(
                            cid,
                            SharedDirectoryOp::AwaitRead { device_io_request: io, length },
                        );
                        let mut out: Vec<RdpdrOutput> = Vec::new();
                        out.push(RdpdrOutput::Tdp(TdpRequest::Read(SharedDirectoryReadRequest {
                            completion_id: cid,
                            directory_id: io.device_id,
                            path,
                            offset,
                            length,
                        })));
                        return out;
                    },
                    None => {},
                }
            }
        }
        let mut out: Vec<RdpdrOutput> = Vec::new();
        out.push(RdpdrOutput::Pdu(ClientPdu::DeviceReadResponse {
            device_io_response: DeviceIoResponse::answering(&io, STATUS_UNSUCCESSFUL),
            read_data: Vec::new(),
        }));
        out
    }

    /// `IRP_MJ_WRITE`: hand the bytes to the host.
    pub fn handle_device_write(
        &mut self,
        device_io_request: DeviceIoRequest,
        offset: u64,
        write_data: Vec<u8>,
    ) -> (out: Vec<RdpdrOutput>)
        requires
            old(self).wf(),
        ensures
            final(self).wf(),
            device_write_post(*old(self), *final(self), device_io_request, offset, write_data, out@),
    {
        let io = device_io_request;
        if self.allow_directory_sharing {
            let found = match self.handles.get(io.file_id) {
                Some(p) => Some(p.clone_path()),
                None => None,
            };
            if let Some(path) = found {
                match self.alloc_completion_id(io.completion_id) {
                    Some(cid) => {
                        self.pending.insert(
                            cid,
                            SharedDirectoryOp::AwaitWrite { device_io_request: io },
                        );
                        let mut out: Vec<RdpdrOutput> = Vec::new();
                        out.push(RdpdrOutput::Tdp(TdpRequest::Write(SharedDirectoryWriteRequest {
                            completion_id: cid,
                            directory_id: io.device_id,
                            offset,
                            path,
                            write_data,
                        })));
                        return out;
                    },
                    None => {},
                }
            }
        }
        let mut out: Vec<RdpdrOutput> = Vec::new();
        out.push(RdpdrOutput::Pdu(ClientPdu::DeviceWriteResponse {
            device_io_response: DeviceIoResponse::answering(&io, STATUS_UNSUCCESSFUL),
            length: 0,
        }));
        out
    }

    /// `IRP_MJ_CLOSE`: release the handle; no TDP round trip.
    pub fn handle_device_close(&mut self, device_io_request: DeviceIoRequest) -> (out: Vec<
        RdpdrOutput,
    >)
        requires
            old(self).wf(),
        ensures
            final(self).wf(),
            device_close_post(*old(self), *final(self), device_io_request, out@),
    {
        let io = device_io_request;
        let _ = self.handles.remove(io.file_id);
        proof {
            if !old(self).handles@.dom().contains(io.file_id) {
                assert(old(self).handles@.remove(io.file_id) =~= old(self).handles@);
            }
        }
        let mut out: Vec<RdpdrOutput> = Vec::new();
        out.push(RdpdrOutput::Pdu(ClientPdu::DeviceCloseResponse {
            device_io_response: DeviceIoResponse::answering(&io, STATUS_SUCCESS),
        }));
        out
    }
}

} // verus!

verus! {

impl Client {
    /// `IRP_MJ_DIRECTORY_CONTROL`: ask the host to list the opened
    /// directory.
    pub fn handle_query_directory(&mut self, device_io_request: DeviceIoRequest) -> (out: Vec<
        RdpdrOutput,
    >)
        requires
            old(self).wf(),
        ensures
            final(self).wf(),
            query_directory_post(*old(self), *final(self), device_io_request, out@),
    {
        let io = device_io_request;
        if self.allow_directory_sharing {
            let found = match self.handles.get(io.file_id) {
                Some(p) => Some(p.clone_path()),
                None => None,
            };
            if let Some(path) = found {
                match self.alloc_completion_id(io.completion_id) {
                    Some(cid) => {
                        self.pending.insert(
                            cid,
                            SharedDirectoryOp::AwaitList { device_io_request: io },
                        );
                        let mut out: Vec<RdpdrOutput> = Vec::new();
                        out.push(RdpdrOutput::Tdp(TdpRequest::List(SharedDirectoryListRequest {
                            completion_id: cid,
                            directory_id: io.device_id,
                            path,
                        })));
                        return out;
                    },
                    None => {},
                }
            }
        }
        let mut out: Vec<RdpdrOutput> = Vec::new();
        out.push(RdpdrOutput::Pdu(ClientPdu::ClientDriveQueryDirectoryResponse {
            device_io_response: DeviceIoResponse::answering(&io, STATUS_UNSUCCESSFUL),
            fso_list: Vec::new(),
        }));
        out
    }

    /// `IRP_MJ_QUERY_INFORMATION`: ask the host about the opened object.
    pub fn handle_query_information(&mut self, device_io_request: DeviceIoRequest) -> (out: Vec<
        RdpdrOutput,
    >)
        requires
            old(self).wf(),
        ensures
            final(self).wf(),
            query_information_post(*old(self), *final(self), device_io_request, out@),
    {
        let io = device_io_request;
        if self.allow_directory_sharing {
            let found = match self.handles.get(io.file_id) {
                Some(p) => Some(p.clone_path()),
                None => None,
            };
            if let Some(path) = found {
                match self.alloc_completion_id(io.completion_id) {
                    Some(cid) => {
                        self.pending.insert(
                            cid,
                            SharedDirectoryOp::QueryInfo { device_io_request: io },
                        );
                        let mut out: Vec<RdpdrOutput> = Vec::new();
                        out.push(RdpdrOutput::Tdp(TdpRequest::Info(SharedDirectoryInfoRequest {
                            completion_id: cid,
                            directory_id: io.device_id,
                            path,
                        })));
                        return out;
                    },
                    None => {},
                }
            }
        }
        let mut out: Vec<RdpdrOutput> = Vec::new();
        out.push(RdpdrOutput::Pdu(ClientPdu::ClientDriveQueryInformationResponse {
            device_io_response: DeviceIoResponse::answering(&io, STATUS_UNSUCCESSFUL),
            fso: None,
        }));
        out
    }

    /// `IRP_MJ_SET_INFORMATION` with `FileRenameInformation`: ask the host
    /// to move the opened object.
    pub fn handle_rename(
        &mut self,
        device_io_request: DeviceIoRequest,
        new_path: UnixPath,
    ) -> (out: Vec<RdpdrOutput>)
        requires
            old(self).wf(),
        ensures
            final(self).wf(),
            rename_post(*old(self), *final(self), device_io_request, new_path, out@),
    {
        let io = device_io_request;
        if self.allow_directory_sharing && !new_path.contains_nul() {
            let found = match self.handles.get(io.file_id) {
                Some(p) => Some(p.clone_path()),
                None => None,
            };
            if let Some(original_path) = found {
                match self.alloc_completion_id(io.completion_id) {
                    Some(cid) => {
                        self.pending.insert(
                            cid,
                            SharedDirectoryOp::AwaitMove { device_io_request: io },
                        );
                        let mut out: Vec<RdpdrOutput> = Vec::new();
                        out.push(RdpdrOutput::Tdp(TdpRequest::Move(SharedDirectoryMoveRequest {
                            completion_id: cid,
                            directory_id: io.device_id,
                            original_path,
                            new_path,
                        })));
                        return out;
                    },
                    None => {},
                }
            }
        }
        let mut out: Vec<RdpdrOutput> = Vec::new();
        out.push(RdpdrOutput::Pdu(ClientPdu::ClientDriveSetInformationResponse {
            device_io_response: DeviceIoResponse::answering(&io, STATUS_UNSUCCESSFUL),
        }));
        out
    }

    /// `IRP_MJ_SET_INFORMATION` with a delete disposition: ask the host to
    /// delete the opened object.
    pub fn handle_delete_disposition(&mut self, device_io_request: DeviceIoRequest) -> (out: Vec<
        RdpdrOutput,
    >)
        requires
            old(self).wf(),
        ensures
            final(self).wf(),
            delete_disposition_post(*old(self), *final(self), device_io_request, out@),
    {
        let io = device_io_request;
        if self.allow_directory_sharing {
            let found = match self.handles.get(io.file_id) {
                Some(p) => Some(p.clone_path()),
                None => None,
            };
            if let Some(path) = found {
                match self.alloc_completion_id(io.completion_id) {
                    Some(cid) => {
                        self.pending.insert(
                            cid,
                            SharedDirectoryOp::AwaitDelete { device_io_request: io },
                        );
                        let mut out: Vec<RdpdrOutput> = Vec::new();
                        out.push(RdpdrOutput::Tdp(TdpRequest::Delete(SharedDirectoryDeleteRequest {
                            completion_id: cid,
                            directory_id: io.device_id,
                            path,
                        })));
                        return out;
                    },
                    None => {},
                }
            }
        }
        let mut out: Vec<RdpdrOutput> = Vec::new();
        out.push(RdpdrOutput::Pdu(ClientPdu::ClientDriveSetInformationResponse {
            device_io_response: DeviceIoResponse::answering(&io, STATUS_UNSUCCESSFUL),
        }));
        out
    }
}

} // verus!

verus! {

impl Client {
    /// A TDP info response from the host.  If it answers a pending create,
    /// the disposition table decides whether to open, to ask the host to
    /// create, or to fail; if it answers a pending query-information, the
    /// metadata is relayed to the server.  A response whose completion id
    /// matches nothing — or an entry of another kind — is dropped.
    pub fn handle_tdp_sd_info_response(&mut self, res: SharedDirectoryInfoResponse) -> (out: Vec<
        RdpdrOutput,
    >)
        requires
            old(self).wf(),
        ensures
            final(self).wf(),
            info_response_post(*old(self), *final(self), res, out@),
    {
        let cid = res.completion_id;
        match self.pending.remove(cid) {
            None => Vec::new(),
            Some(op) => match op {
                SharedDirectoryOp::QueryInfo { device_io_request } => {
                    let status = io_status(res.err_code);
                    let fso = if matches!(res.err_code, TdpErrCode::Nil) {
                        Some(res.fso)
                    } else {
                        None
                    };
                    let mut out: Vec<RdpdrOutput> = Vec::new();
                    out.push(RdpdrOutput::Pdu(ClientPdu::ClientDriveQueryInformationResponse {
                        device_io_response: DeviceIoResponse::answering(&device_io_request, status),
                        fso,
                    }));
                    out
                },
                SharedDirectoryOp::CreateStage(create) => {
                    self.finish_create_stage(cid, create, res.err_code, res.fso.file_type)
                },
                other => {
                    self.pending.insert(cid, other);
                    proof {
                        assert(self.pending@ =~= old(self).pending@);
                    }
                    Vec::new()
                },
            },
        }
    }

    /// Carries out the decision of the disposition table for a create whose
    /// info response has arrived; `cid` has already been removed from the
    /// pending table.
    fn finish_create_stage(
        &mut self,
        cid: u32,
        create: ServerCreateDriveRequest,
        err_code: TdpErrCode,
        fso_type: FileType,
    ) -> (out: Vec<RdpdrOutput>)
        requires
            old(self).wf(),
            !old(self).pending@.dom().contains(cid),
        ensures
            final(self).wf(),
            final(self).config_unchanged(*old(self)),
            final(self).active_drives@ == old(self).active_drives@,
            create_stage_post_inner(
                old(self).pending@,
                old(self).handles@,
                old(self).next_file_id,
                *final(self),
                cid,
                spec_create_decision(
                    create.create_disposition,
                    create.create_options,
                    err_code,
                    fso_type,
                ),
                create,
                out@,
            ),
    {
        let d = create_decision(create.create_disposition, create.create_options, err_code,
            fso_type);
        let io = create.device_io_request;
        match d {
            CreateDecision::ReplyStatus(s) => {
                let mut out: Vec<RdpdrOutput> = Vec::new();
                out.push(RdpdrOutput::Pdu(ClientPdu::DeviceCreateResponse {
                    device_io_response: DeviceIoResponse::answering(&io, s),
                    file_id: 0,
                }));
                out
            },
            CreateDecision::ReplyOpen => {
                if self.next_file_id < u32::MAX {
                    let fid = self.next_file_id;
                    self.next_file_id = fid + 1;
                    self.handles.insert(fid, create.path);
                    let mut out: Vec<RdpdrOutput> = Vec::new();
                    out.push(RdpdrOutput::Pdu(ClientPdu::DeviceCreateResponse {
                        device_io_response: DeviceIoResponse::answering(&io, STATUS_SUCCESS),
                        file_id: fid,
                    }));
                    out
                } else {
                    let mut out: Vec<RdpdrOutput> = Vec::new();
                    out.push(RdpdrOutput::Pdu(ClientPdu::DeviceCreateResponse {
                        device_io_response: DeviceIoResponse::answering(&io, STATUS_UNSUCCESSFUL),
                        file_id: 0,
                    }));
                    out
                }
            },
            CreateDecision::SendCreate(file_type) => {
                let path = create.path.clone_path();
                let directory_id = io.device_id;
                self.pending.insert(cid, SharedDirectoryOp::CreateFinish(create));
                let mut out: Vec<RdpdrOutput> = Vec::new();
                out.push(RdpdrOutput::Tdp(TdpRequest::Create(SharedDirectoryCreateRequest {
                    completion_id: cid,
                    directory_id,
                    file_type,
                    path,
                })));
                out
            },
        }
    }

    /// A TDP create response from the host: on success the object is opened
    /// under a fresh file id; either way the create reply goes to the
    /// server.  Unknown completion ids and entries of another kind are
    /// dropped.
    pub fn handle_tdp_sd_create_response(
        &mut self,
        res: SharedDirectoryCreateResponse,
    ) -> (out: Vec<RdpdrOutput>)
        requires
            old(self).wf(),
        ensures
            final(self).wf(),
            create_response_post(*old(self), *final(self), res, out@),
    {
        let cid = res.completion_id;
        match self.pending.remove(cid) {
            None => Vec::new(),
            Some(op) => match op {
                SharedDirectoryOp::CreateFinish(create) => {
                    let io = create.device_io_request;
                    if matches!(res.err_code, TdpErrCode::Nil) {
                        if self.next_file_id < u32::MAX {
                            let fid = self.next_file_id;
                            self.next_file_id = fid + 1;
                            self.handles.insert(fid, create.path);
                            let mut out: Vec<RdpdrOutput> = Vec::new();
                            out.push(RdpdrOutput::Pdu(ClientPdu::DeviceCreateResponse {
                                device_io_response: DeviceIoResponse::answering(
                                    &io,
                                    STATUS_SUCCESS,
                                ),
                                file_id: fid,
                            }));
                            out
                        } else {
                            let mut out: Vec<RdpdrOutput> = Vec::new();
                            out.push(RdpdrOutput::Pdu(ClientPdu::DeviceCreateResponse {
                                device_io_response: DeviceIoResponse::answering(
                                    &io,
                                    STATUS_UNSUCCESSFUL,
                                ),
                                file_id: 0,
                            }));
                            out
                        }
                    } else {
                        let status = io_status(res.err_code);
                        let mut out: Vec<RdpdrOutput> = Vec::new();
                        out.push(RdpdrOutput::Pdu(ClientPdu::DeviceCreateResponse {
                            device_io_response: DeviceIoResponse::answering(&io, status),
                            file_id: 0,
                        }));
                        out
                    }
                },
                other => {
                    self.pending.insert(cid, other);
                    proof {
                        assert(self.pending@ =~= old(self).pending@);
                    }
                    Vec::new()
                },
            },
        }
    }
}

/// What handling the info response of a pending create leaves behind,
/// given the decision of the disposition table.  `pre` still holds the
/// pending entry; `cid` is its completion id.
pub open spec fn create_stage_post(
    pre: Client,
    post: Client,
    cid: u32,
    d: CreateDecision,
    create: ServerCreateDriveRequest,
    out: Seq<RdpdrOutput>,
) -> bool {
    create_stage_post_inner(
        pre.pending@.remove(cid),
        pre.handles@,
        pre.next_file_id,
        post,
        cid,
        d,
        create,
        out,
    )
}

/// The core of `create_stage_post`, phrased against the tables after the
/// entry's removal.
pub open spec fn create_stage_post_inner(
    pre_pending: Map<u32, SharedDirectoryOp>,
    pre_handles: Map<u32, UnixPath>,
    pre_next_file_id: u32,
    post: Client,
    cid: u32,
    d: CreateDecision,
    create: ServerCreateDriveRequest,
    out: Seq<RdpdrOutput>,
) -> bool {
    &&& (d matches CreateDecision::ReplyStatus(s) ==> (
        post.pending@ =~= pre_pending
        && post.handles@ == pre_handles
        && post.next_file_id == pre_next_file_id
        && out =~= seq![spec_create_reply(create.device_io_request, s, 0u32)]
    ))
    &&& ((d == CreateDecision::ReplyOpen && pre_next_file_id < u32::MAX) ==> (
        post.pending@ =~= pre_pending
        && post.next_file_id == pre_next_file_id + 1
        && post.handles@ =~= pre_handles.insert(pre_next_file_id, create.path)
        && out =~= seq![
            spec_create_reply(create.device_io_request, STATUS_SUCCESS, pre_next_file_id),
        ]
    ))
    &&& ((d == CreateDecision::ReplyOpen && pre_next_file_id == u32::MAX) ==> (
        post.pending@ =~= pre_pending
        && post.handles@ == pre_handles
        && post.next_file_id == pre_next_file_id
        && out =~= seq![spec_create_reply(create.device_io_request, STATUS_UNSUCCESSFUL, 0u32)]
    ))
    &&& (d matches CreateDecision::SendCreate(t) ==> (
        post.pending@ =~= pre_pending.insert(cid, SharedDirectoryOp::CreateFinish(create))
        && post.handles@ == pre_handles
        && post.next_file_id == pre_next_file_id
        && out.len() == 1
        && (out[0] matches RdpdrOutput::Tdp(TdpRequest::Create(r))
            && r.completion_id == cid
            && r.directory_id == create.device_io_request.device_id
            && r.file_type == t
            && r.path@ == create.path@)
    ))
}

} // verus!

verus! {

impl Client {
    /// A TDP delete response: relay the status as a set-information reply.
    pub fn handle_tdp_sd_delete_response(
        &mut self,
        res: SharedDirectoryDeleteResponse,
    ) -> (out: Vec<RdpdrOutput>)
        requires
            old(self).wf(),
        ensures
            final(self).wf(),
            delete_response_post(*old(self), *final(self), res, out@),
    {
        let cid = res.completion_id;
        match self.pending.remove(cid) {
            None => Vec::new(),
            Some(op) => match op {
                SharedDirectoryOp::AwaitDelete { device_io_request } => {
                    let status = io_status(res.err_code);
                    let mut out: Vec<RdpdrOutput> = Vec::new();
                    out.push(RdpdrOutput::Pdu(ClientPdu::ClientDriveSetInformationResponse {
                        device_io_response: DeviceIoResponse::answering(&device_io_request, status),
                    }));
                    out
                },
                other => {
                    self.pending.insert(cid, other);
                    proof {
                        assert(self.pending@ =~= old(self).pending@);
                    }
                    Vec::new()
                },
            },
        }
    }

    /// A TDP move response: relay the status as a set-information reply.
    pub fn handle_tdp_sd_move_response(&mut self, res: SharedDirectoryMoveResponse) -> (out: Vec<
        RdpdrOutput,
    >)
        requires
            old(self).wf(),
        ensures
            final(self).wf(),
            move_response_post(*old(self), *final(self), res, out@),
    {
        let cid = res.completion_id;
        match self.pending.remove(cid) {
            None => Vec::new(),
            Some(op) => match op {
                SharedDirectoryOp::AwaitMove { device_io_request } => {
                    let status = io_status(res.err_code);
                    let mut out: Vec<RdpdrOutput> = Vec::new();
                    out.push(RdpdrOutput::Pdu(ClientPdu::ClientDriveSetInformationResponse {
                        device_io_response: DeviceIoResponse::answering(&device_io_request, status),
                    }));
                    out
                },
                other => {
                    self.pending.insert(cid, other);
                    proof {
                        assert(self.pending@ =~= old(self).pending@);
                    }
                    Vec::new()
                },
            },
        }
    }

    /// A TDP write response: the response's byte count becomes the RDP
    /// reply count, with the status mapped from the result code.
    pub fn handle_tdp_sd_write_response(&mut self, res: SharedDirectoryWriteResponse) -> (out: Vec<
        RdpdrOutput,
    >)
        requires
            old(self).wf(),
        ensures
            final(self).wf(),
            write_response_post(*old(self), *final(self), res, out@),
    {
        let cid = res.completion_id;
        match self.pending.remove(cid) {
            None => Vec::new(),
            Some(op) => match op {
                SharedDirectoryOp::AwaitWrite { device_io_request } => {
                    let status = io_status(res.err_code);
                    let mut out: Vec<RdpdrOutput> = Vec::new();
                    out.push(RdpdrOutput::Pdu(ClientPdu::DeviceWriteResponse {
                        device_io_response: DeviceIoResponse::answering(&device_io_request, status),
                        length: res.bytes_written,
                    }));
                    out
                },
                other => {
                    self.pending.insert(cid, other);
                    proof {
                        assert(self.pending@ =~= old(self).pending@);
                    }
                    Vec::new()
                },
            },
        }
    }

    /// A TDP read response: the data goes into the RDP reply verbatim,
    /// truncated to the requested length.
    pub fn handle_tdp_sd_read_response(&mut self, res: SharedDirectoryReadResponse) -> (out: Vec<
        RdpdrOutput,
    >)
        requires
            old(self).wf(),
        ensures
            final(self).wf(),
            read_response_post(*old(self), *final(self), res, out@),
    {
        let cid = res.completion_id;
        match self.pending.remove(cid) {
            None => Vec::new(),
            Some(op) => match op {
                SharedDirectoryOp::AwaitRead { device_io_request, length } => {
                    let mut out: Vec<RdpdrOutput> = Vec::new();
                    if matches!(res.err_code, TdpErrCode::Nil) {
                        let read_data = truncate_bytes(res.read_data, length as usize);
                        out.push(RdpdrOutput::Pdu(ClientPdu::DeviceReadResponse {
                            device_io_response: DeviceIoResponse::answering(
                                &device_io_request,
                                STATUS_SUCCESS,
                            ),
                            read_data,
                        }));
                    } else {
                        let status = io_status(res.err_code);
                        out.push(RdpdrOutput::Pdu(ClientPdu::DeviceReadResponse {
                            device_io_response: DeviceIoResponse::answering(
                                &device_io_request,
                                status,
                            ),
                            read_data: Vec::new(),
                        }));
                    }
                    out
                },
                other => {
                    self.pending.insert(cid, other);
                    proof {
                        assert(self.pending@ =~= old(self).pending@);
                    }
                    Vec::new()
                },
            },
        }
    }

    /// A TDP list response: the listing goes into the directory reply.
    pub fn handle_tdp_sd_list_response(&mut self, res: SharedDirectoryListResponse) -> (out: Vec<
        RdpdrOutput,
    >)
        requires
            old(self).wf(),
        ensures
            final(self).wf(),
            list_response_post(*old(self), *final(self), res, out@),
    {
        let cid = res.completion_id;
        match self.pending.remove(cid) {
            None => Vec::new(),
            Some(op) => match op {
                SharedDirectoryOp::AwaitList { device_io_request } => {
                    let mut out: Vec<RdpdrOutput> = Vec::new();
                    if matches!(res.err_code, TdpErrCode::Nil) {
                        out.push(RdpdrOutput::Pdu(ClientPdu::ClientDriveQueryDirectoryResponse {
                            device_io_response: DeviceIoResponse::answering(
                                &device_io_request,
                                STATUS_SUCCESS,
                            ),
                            fso_list: res.fso_list,
                        }));
                    } else {
                        let status = io_status(res.err_code);
                        out.push(RdpdrOutput::Pdu(ClientPdu::ClientDriveQueryDirectoryResponse {
                            device_io_response: DeviceIoResponse::answering(
                                &device_io_request,
                                status,
                            ),
                            fso_list: Vec::new(),
                        }));
                    }
                    out
                },
                other => {
                    self.pending.insert(cid, other);
                    proof {
                        assert(self.pending@ =~= old(self).pending@);
                    }
                    Vec::new()
                },
            },
        }
    }
}

} // verus!

verus! {

/// What `handle_tdp_sd_info_response` guarantees, stated once and
/// reused by the session facade.
pub open spec fn info_response_post(
    pre: Client,
    post: Client,
    res: SharedDirectoryInfoResponse,
    out: Seq<RdpdrOutput>,
) -> bool {
    &&& (post.config_unchanged(pre))
    &&& (post.active_drives@ == pre.active_drives@)
    &&& (// Unknown completion id: dropped, nothing written.
            !pre.pending@.dom().contains(res.completion_id) ==> (
                post.pending@ =~= pre.pending@
                && post.handles@ == pre.handles@
                && post.next_file_id == pre.next_file_id
                && out.len() == 0
            ))
    &&& (// An entry of another kind: equally dropped.
            (pre.pending@.dom().contains(res.completion_id)
                && !(pre.pending@[res.completion_id] matches SharedDirectoryOp::CreateStage(_))
                && !(pre.pending@[res.completion_id] matches SharedDirectoryOp::QueryInfo { .. }))
                ==> (
                post.pending@ =~= pre.pending@
                && post.handles@ == pre.handles@
                && post.next_file_id == pre.next_file_id
                && out.len() == 0
            ))
    &&& (// Query-information: relay status and metadata.
            pre.pending@.dom().contains(res.completion_id) ==> (
                pre.pending@[res.completion_id] matches SharedDirectoryOp::QueryInfo {
                    device_io_request,
                } ==>
                post.pending@ =~= pre.pending@.remove(res.completion_id)
                && post.handles@ == pre.handles@
                && post.next_file_id == pre.next_file_id
                && out.len() == 1
                && (out[0] matches
                    RdpdrOutput::Pdu(ClientPdu::ClientDriveQueryInformationResponse {
                        device_io_response,
                        fso,
                    })
                    && device_io_response == DeviceIoResponse::spec_answering(
                        device_io_request,
                        spec_io_status(res.err_code),
                    )
                    && (res.err_code == TdpErrCode::Nil ==> fso is Some
                        && fso->Some_0.last_modified == res.fso.last_modified
                        && fso->Some_0.size == res.fso.size
                        && fso->Some_0.file_type == res.fso.file_type
                        && fso->Some_0.path@ == res.fso.path@)
                    && (res.err_code != TdpErrCode::Nil ==> fso is None))
            ))
    &&& (// A pending create: the disposition table decides.
            pre.pending@.dom().contains(res.completion_id) ==> (
                pre.pending@[res.completion_id] matches SharedDirectoryOp::CreateStage(c)
                    ==> create_stage_post(
                    pre,
                    post,
                    res.completion_id,
                    spec_create_decision(
                        c.create_disposition,
                        c.create_options,
                        res.err_code,
                        res.fso.file_type,
                    ),
                    c,
                    out,
                )
            ))
}

/// What `handle_tdp_sd_create_response` guarantees, stated once and
/// reused by the session facade.
pub open spec fn create_response_post(
    pre: Client,
    post: Client,
    res: SharedDirectoryCreateResponse,
    out: Seq<RdpdrOutput>,
) -> bool {
    &&& (post.config_unchanged(pre))
    &&& (post.active_drives@ == pre.active_drives@)
    &&& (!pre.pending@.dom().contains(res.completion_id) ==> (
                post.pending@ =~= pre.pending@
                && post.handles@ == pre.handles@
                && post.next_file_id == pre.next_file_id
                && out.len() == 0
            ))
    &&& ((pre.pending@.dom().contains(res.completion_id)
                && !(pre.pending@[res.completion_id] matches
                    SharedDirectoryOp::CreateFinish(_))) ==> (
                post.pending@ =~= pre.pending@
                && post.handles@ == pre.handles@
                && post.next_file_id == pre.next_file_id
                && out.len() == 0
            ))
    &&& (pre.pending@.dom().contains(res.completion_id) ==> (
                pre.pending@[res.completion_id] matches SharedDirectoryOp::CreateFinish(c)
                ==> (
                post.pending@ =~= pre.pending@.remove(res.completion_id)
                && (res.err_code != TdpErrCode::Nil ==> (
                    post.handles@ == pre.handles@
                    && post.next_file_id == pre.next_file_id
                    && out =~= seq![
                        spec_create_reply(
                            c.device_io_request,
                            spec_io_status(res.err_code),
                            0u32,
                        ),
                    ]
                ))
                && ((res.err_code == TdpErrCode::Nil && pre.next_file_id < u32::MAX) ==> (
                    post.next_file_id == pre.next_file_id + 1
                    && post.handles@ =~= pre.handles@.insert(
                        pre.next_file_id,
                        c.path,
                    )
                    && out =~= seq![
                        spec_create_reply(
                            c.device_io_request,
                            STATUS_SUCCESS,
                            pre.next_file_id,
                        ),
                    ]
                ))
                && ((res.err_code == TdpErrCode::Nil && pre.next_file_id == u32::MAX) ==> (
                    post.handles@ == pre.handles@
                    && post.next_file_id == pre.next_file_id
                    && out =~= seq![
                        spec_create_reply(c.device_io_request, STATUS_UNSUCCESSFUL, 0u32),
                    ]
                ))
            )))
}

/// What `handle_tdp_sd_delete_response` guarantees, stated once and
/// reused by the session facade.
pub open spec fn delete_response_post(
    pre: Client,
    post: Client,
    res: SharedDirectoryDeleteResponse,
    out: Seq<RdpdrOutput>,
) -> bool {
    &&& (post.config_unchanged(pre))
    &&& (post.active_drives@ == pre.active_drives@)
    &&& (post.handles@ == pre.handles@)
    &&& (post.next_file_id == pre.next_file_id)
    &&& (!pre.pending@.dom().contains(res.completion_id) ==> (
                post.pending@ =~= pre.pending@ && out.len() == 0
            ))
    &&& (pre.pending@.dom().contains(res.completion_id) ==> (
                (pre.pending@[res.completion_id] matches SharedDirectoryOp::AwaitDelete {
                    device_io_request,
                } ==>
                    post.pending@ =~= pre.pending@.remove(res.completion_id)
                    && out =~= seq![
                        spec_set_info_reply(device_io_request, spec_io_status(res.err_code)),
                    ])
                && (!(pre.pending@[res.completion_id] matches
                    SharedDirectoryOp::AwaitDelete { .. }) ==>
                    post.pending@ =~= pre.pending@ && out.len() == 0)
            ))
}

/// What `handle_tdp_sd_move_response` guarantees, stated once and
/// reused by the session facade.
pub open spec fn move_response_post(
    pre: Client,
    post: Client,
    res: SharedDirectoryMoveResponse,
    out: Seq<RdpdrOutput>,
) -> bool {
    &&& (post.config_unchanged(pre))
    &&& (post.active_drives@ == pre.active_drives@)
    &&& (post.handles@ == pre.handles@)
    &&& (post.next_file_id == pre.next_file_id)
    &&& (!pre.pending@.dom().contains(res.completion_id) ==> (
                post.pending@ =~= pre.pending@ && out.len() == 0
            ))
    &&& (pre.pending@.dom().contains(res.completion_id) ==> (
                (pre.pending@[res.completion_id] matches SharedDirectoryOp::AwaitMove {
                    device_io_request,
                } ==>
                    post.pending@ =~= pre.pending@.remove(res.completion_id)
                    && out =~= seq![
                        spec_set_info_reply(device_io_request, spec_io_status(res.err_code)),
                    ])
                && (!(pre.pending@[res.completion_id] matches
                    SharedDirectoryOp::AwaitMove { .. }) ==>
                    post.pending@ =~= pre.pending@ && out.len() == 0)
            ))
}

/// What `handle_tdp_sd_write_response` guarantees, stated once and
/// reused by the session facade.
pub open spec fn write_response_post(
    pre: Client,
    post: Client,
    res: SharedDirectoryWriteResponse,
    out: Seq<RdpdrOutput>,
) -> bool {
    &&& (post.config_unchanged(pre))
    &&& (post.active_drives@ == pre.active_drives@)
    &&& (post.handles@ == pre.handles@)
    &&& (post.next_file_id == pre.next_file_id)
    &&& (!pre.pending@.dom().contains(res.completion_id) ==> (
                post.pending@ =~= pre.pending@ && out.len() == 0
            ))
    &&& (pre.pending@.dom().contains(res.completion_id) ==> (
                (pre.pending@[res.completion_id] matches SharedDirectoryOp::AwaitWrite {
                    device_io_request,
                } ==>
                    post.pending@ =~= pre.pending@.remove(res.completion_id)
                    && out =~= seq![
                        spec_write_reply(
                            device_io_request,
                            spec_io_status(res.err_code),
                            res.bytes_written,
                        ),
                    ])
                && (!(pre.pending@[res.completion_id] matches
                    SharedDirectoryOp::AwaitWrite { .. }) ==>
                    post.pending@ =~= pre.pending@ && out.len() == 0)
            ))
}

/// What `handle_tdp_sd_read_response` guarantees, stated once and
/// reused by the session facade.
pub open spec fn read_response_post(
    pre: Client,
    post: Client,
    res: SharedDirectoryReadResponse,
    out: Seq<RdpdrOutput>,
) -> bool {
    &&& (post.config_unchanged(pre))
    &&& (post.active_drives@ == pre.active_drives@)
    &&& (post.handles@ == pre.handles@)
    &&& (post.next_file_id == pre.next_file_id)
    &&& (!pre.pending@.dom().contains(res.completion_id) ==> (
                post.pending@ =~= pre.pending@ && out.len() == 0
            ))
    &&& (pre.pending@.dom().contains(res.completion_id) ==> (
                (pre.pending@[res.completion_id] matches SharedDirectoryOp::AwaitRead {
                    device_io_request,
                    length,
                } ==>
                    post.pending@ =~= pre.pending@.remove(res.completion_id)
                    && out.len() == 1
                    && (res.err_code == TdpErrCode::Nil ==> (
                        out[0] matches RdpdrOutput::Pdu(ClientPdu::DeviceReadResponse {
                            device_io_response,
                            read_data,
                        })
                        && device_io_response == DeviceIoResponse::spec_answering(
                            device_io_request,
                            STATUS_SUCCESS,
                        )
                        && (res.read_data@.len() <= length ==> read_data@ == res.read_data@)
                        && (res.read_data@.len() > length ==> read_data@ == res.read_data@
                            .subrange(0, length as int))
                    ))
                    && (res.err_code != TdpErrCode::Nil ==> (
                        out[0] matches RdpdrOutput::Pdu(ClientPdu::DeviceReadResponse {
                            device_io_response,
                            read_data,
                        })
                        && device_io_response == DeviceIoResponse::spec_answering(
                            device_io_request,
                            spec_io_status(res.err_code),
                        )
                        && read_data@ == Seq::<u8>::empty()
                    )))
                && (!(pre.pending@[res.completion_id] matches
                    SharedDirectoryOp::AwaitRead { .. }) ==>
                    post.pending@ =~= pre.pending@ && out.len() == 0)
            ))
}

/// What `handle_tdp_sd_list_response` guarantees, stated once and
/// reused by the session facade.
pub open spec fn list_response_post(
    pre: Client,
    post: Client,
    res: SharedDirectoryListResponse,
    out: Seq<RdpdrOutput>,
) -> bool {
    &&& (post.config_unchanged(pre))
    &&& (post.active_drives@ == pre.active_drives@)
    &&& (post.handles@ == pre.handles@)
    &&& (post.next_file_id == pre.next_file_id)
    &&& (!pre.pending@.dom().contains(res.completion_id) ==> (
                post.pending@ =~= pre.pending@ && out.len() == 0
            ))
    &&& (pre.pending@.dom().contains(res.completion_id) ==> (
                (pre.pending@[res.completion_id] matches SharedDirectoryOp::AwaitList {
                    device_io_request,
                } ==>
                    post.pending@ =~= pre.pending@.remove(res.completion_id)
                    && out.len() == 1
                    && (res.err_code == TdpErrCode::Nil ==> (
                        out[0] matches
                        RdpdrOutput::Pdu(ClientPdu::ClientDriveQueryDirectoryResponse {
                            device_io_response,
                            fso_list,
                        })
                        && device_io_response == DeviceIoResponse::spec_answering(
                            device_io_request,
                            STATUS_SUCCESS,
                        )
                        && fso_list == res.fso_list
                    ))
                    && (res.err_code != TdpErrCode::Nil ==> (
                        out[0] matches
                        RdpdrOutput::Pdu(ClientPdu::ClientDriveQueryDirectoryResponse {
                            device_io_response,
                            fso_list,
                        })
                        && device_io_response == DeviceIoResponse::spec_answering(
                            device_io_request,
                            spec_io_status(res.err_code),
                        )
                        && fso_list@.len() == 0
                    )))
                && (!(pre.pending@[res.completion_id] matches
                    SharedDirectoryOp::AwaitList { .. }) ==>
                    post.pending@ =~= pre.pending@ && out.len() == 0)
            ))
}

} // verus!

verus! {

/// Completion-id uniqueness: in a well-formed bridge the pending-request
/// table holds at most one entry per completion id.
pub proof fn lemma_pending_completion_ids_unique(c: &Client)
    requires
        c.wf(),
    ensures
        forall|i: int, j: int|
            0 <= i < c.pending.entries_seq().len() && 0 <= j < c.pending.entries_seq().len()
                && i != j ==> c.pending.entries_seq()[i].0 != c.pending.entries_seq()[j].0,
{
    crate::table::lemma_id_unique(&c.pending);
}

} // verus!

verus! {

/// What `handle_announce_request` guarantees, stated once and reused by the session
/// multiplexer.
pub open spec fn announce_request_post(
    pre: Client,
    post: Client,
    version_major: u16,
    version_minor: u16,
    client_id: u32,
    out: Seq<RdpdrOutput>,
) -> bool {
    &&& (post.config_unchanged(pre))
    &&& (post.pending@ == pre.pending@)
    &&& (post.handles@ == pre.handles@)
    &&& (post.active_drives@ == pre.active_drives@)
    &&& (out.len() == 2)
    &&& (out[0] == RdpdrOutput::Pdu(ClientPdu::AnnounceReply {
                version_major,
                version_minor,
                client_id,
            }))
    &&& ((out[1] matches RdpdrOutput::Pdu(ClientPdu::ClientNameRequest { name })
                && name@ == client_name()))
}

/// What `handle_core_capability_request` guarantees, stated once and reused by the session
/// multiplexer.
pub open spec fn core_capability_post(
    pre: Client,
    post: Client,

    out: Seq<RdpdrOutput>,
) -> bool {
    &&& (post.config_unchanged(pre))
    &&& (post.pending@ == pre.pending@)
    &&& (post.handles@ == pre.handles@)
    &&& (post.active_drives@ == pre.active_drives@)
    &&& (out =~= seq![RdpdrOutput::Pdu(ClientPdu::CoreCapabilityResponse)])
}

/// What `handle_client_id_confirm` guarantees, stated once and reused by the session
/// multiplexer.
pub open spec fn client_id_confirm_post(
    pre: Client,
    post: Client,

    out: Seq<RdpdrOutput>,
) -> bool {
    &&& (post.config_unchanged(pre))
    &&& (post.pending@ == pre.pending@)
    &&& (post.handles@ == pre.handles@)
    &&& (post.active_drives@ == pre.active_drives@)
    &&& (out.len() == 1)
    &&& ((out[0] matches RdpdrOutput::Pdu(ClientPdu::DeviceListAnnounce(a))
                && a.device_list@.len() == 1
                && a.device_list@[0].device_id == SCARD_DEVICE_ID
                && a.device_list@[0].is_smartcard))
}

/// What `handle_device_reply` guarantees, stated once and reused by the session
/// multiplexer.
pub open spec fn device_reply_post(
    pre: Client,
    post: Client,
    device_id: u32,
    result_code: u32,
    out: Seq<RdpdrOutput>,
) -> bool {
    &&& (post.config_unchanged(pre))
    &&& (post.pending@ == pre.pending@)
    &&& (post.handles@ == pre.handles@)
    &&& (post.active_drives@ == pre.active_drives@)
    &&& (pre.active_drives@.contains(device_id) ==> out =~= seq![
                RdpdrOutput::Ack(SharedDirectoryAcknowledge {
                    err_code: if result_code == STATUS_SUCCESS {
                        TdpErrCode::Nil
                    } else {
                        TdpErrCode::Failed
                    },
                    directory_id: device_id,
                }),
            ])
    &&& (!pre.active_drives@.contains(device_id) ==> out.len() == 0)
}

/// What `write_client_device_list_announce` guarantees, stated once and reused by the session
/// multiplexer.
pub open spec fn device_list_announce_post(
    pre: Client,
    post: Client,
    req: ClientDeviceListAnnounce,
    out: Seq<RdpdrOutput>,
) -> bool {
    &&& (post.config_unchanged(pre))
    &&& (post.pending@ == pre.pending@)
    &&& (post.handles@ == pre.handles@)
    &&& (post.active_drives@ =~= pre.active_drives@
                + req.device_list@.map_values(|d: DeviceAnnounce| d.device_id))
    &&& (out.len() == 1)
    &&& (out[0] == RdpdrOutput::Pdu(ClientPdu::DeviceListAnnounce(req)))
}

/// What `handle_create_drive` guarantees, stated once and reused by the session
/// multiplexer.
pub open spec fn create_drive_post(
    pre: Client,
    post: Client,
    req: ServerCreateDriveRequest,
    out: Seq<RdpdrOutput>,
) -> bool {
    &&& (post.only_pending_changed(pre))
    &&& ((!pre.allow_directory_sharing || req.path@.contains(0u8)) ==> (
                post.pending@ == pre.pending@
                && out =~= seq![
                    spec_create_reply(req.device_io_request, STATUS_UNSUCCESSFUL, 0u32),
                ]
            ))
    &&& ((pre.allow_directory_sharing && !req.path@.contains(0u8)) ==> (
                (exists|cid: u32|
                    {
                        &&& !pre.pending@.dom().contains(cid)
                        &&& (!pre.pending@.dom().contains(req.device_io_request.completion_id)
                            ==> cid == req.device_io_request.completion_id)
                        &&& post.pending@ =~= pre.pending@.insert(
                            cid,
                            SharedDirectoryOp::CreateStage(req),
                        )
                        &&& out.len() == 1
                        &&& (out[0] matches RdpdrOutput::Tdp(TdpRequest::Info(r))
                            && r.completion_id == cid
                            && r.directory_id == req.device_io_request.device_id
                            && r.path@ == req.path@)
                    })
                || ((forall|id: u32| pre.pending@.dom().contains(id))
                    && post.pending@ == pre.pending@
                    && out =~= seq![
                        spec_create_reply(req.device_io_request, STATUS_UNSUCCESSFUL, 0u32),
                    ])
            ))
}

/// What `handle_device_read` guarantees, stated once and reused by the session
/// multiplexer.
pub open spec fn device_read_post(
    pre: Client,
    post: Client,
    device_io_request: DeviceIoRequest,
    offset: u64,
    length: u32,
    out: Seq<RdpdrOutput>,
) -> bool {
    &&& (post.only_pending_changed(pre))
    &&& ((!pre.allow_directory_sharing
                || !pre.handles@.dom().contains(device_io_request.file_id)) ==> (
                post.pending@ == pre.pending@
                && out.len() == 1
                && (out[0] matches RdpdrOutput::Pdu(ClientPdu::DeviceReadResponse {
                        device_io_response,
                        read_data,
                    })
                    && device_io_response == DeviceIoResponse::spec_answering(
                        device_io_request,
                        STATUS_UNSUCCESSFUL,
                    )
                    && read_data@ == Seq::<u8>::empty())
            ))
    &&& ((pre.allow_directory_sharing
                && pre.handles@.dom().contains(device_io_request.file_id)) ==> (
                (exists|cid: u32|
                    {
                        &&& !pre.pending@.dom().contains(cid)
                        &&& (!pre.pending@.dom().contains(device_io_request.completion_id)
                            ==> cid == device_io_request.completion_id)
                        &&& post.pending@ =~= pre.pending@.insert(
                            cid,
                            SharedDirectoryOp::AwaitRead { device_io_request, length },
                        )
                        &&& out.len() == 1
                        &&& (out[0] matches RdpdrOutput::Tdp(TdpRequest::Read(r))
                            && r.completion_id == cid
                            && r.directory_id == device_io_request.device_id
                            && r.path@ == pre.handles@[device_io_request.file_id]@
                            && r.offset == offset
                            && r.length == length)
                    })
                || ((forall|id: u32| pre.pending@.dom().contains(id))
                    && post.pending@ == pre.pending@
                    && out.len() == 1
                    && (out[0] matches RdpdrOutput::Pdu(ClientPdu::DeviceReadResponse {
                            device_io_response,
                            read_data,
                        })
                        && device_io_response == DeviceIoResponse::spec_answering(
                            device_io_request,
                            STATUS_UNSUCCESSFUL,
                        )
                        && read_data@ == Seq::<u8>::empty()))
            ))
}

/// What `handle_device_write` guarantees, stated once and reused by the session
/// multiplexer.
pub open spec fn device_write_post(
    pre: Client,
    post: Client,
    device_io_request: DeviceIoRequest,
    offset: u64,
    write_data: Vec<u8>,
    out: Seq<RdpdrOutput>,
) -> bool {
    &&& (post.only_pending_changed(pre))
    &&& ((!pre.allow_directory_sharing
                || !pre.handles@.dom().contains(device_io_request.file_id)) ==> (
                post.pending@ == pre.pending@
                && out =~= seq![
                    spec_write_reply(device_io_request, STATUS_UNSUCCESSFUL, 0u32),
                ]
            ))
    &&& ((pre.allow_directory_sharing
                && pre.handles@.dom().contains(device_io_request.file_id)) ==> (
                (exists|cid: u32|
                    {
                        &&& !pre.pending@.dom().contains(cid)
                        &&& (!pre.pending@.dom().contains(device_io_request.completion_id)
                            ==> cid == device_io_request.completion_id)
                        &&& post.pending@ =~= pre.pending@.insert(
                            cid,
                            SharedDirectoryOp::AwaitWrite { device_io_request },
                        )
                        &&& out.len() == 1
                        &&& (out[0] matches RdpdrOutput::Tdp(TdpRequest::Write(r))
                            && r.completion_id == cid
                            && r.directory_id == device_io_request.device_id
                            && r.path@ == pre.handles@[device_io_request.file_id]@
                            && r.offset == offset
                            && r.write_data@ == write_data@)
                    })
                || ((forall|id: u32| pre.pending@.dom().contains(id))
                    && post.pending@ == pre.pending@
                    && out =~= seq![
                        spec_write_reply(device_io_request, STATUS_UNSUCCESSFUL, 0u32),
                    ])
            ))
}

/// What `handle_device_close` guarantees, stated once and reused by the session
/// multiplexer.
pub open spec fn device_close_post(
    pre: Client,
    post: Client,
    device_io_request: DeviceIoRequest,
    out: Seq<RdpdrOutput>,
) -> bool {
    &&& (post.config_unchanged(pre))
    &&& (post.pending@ == pre.pending@)
    &&& (post.active_drives@ == pre.active_drives@)
    &&& (post.next_file_id == pre.next_file_id)
    &&& (post.handles@ =~= pre.handles@.remove(device_io_request.file_id))
    &&& (out =~= seq![spec_close_reply(device_io_request, STATUS_SUCCESS)])
}

/// What `handle_query_directory` guarantees, stated once and reused by the session
/// multiplexer.
pub open spec fn query_directory_post(
    pre: Client,
    post: Client,
    device_io_request: DeviceIoRequest,
    out: Seq<RdpdrOutput>,
) -> bool {
    &&& (post.only_pending_changed(pre))
    &&& ((!pre.allow_directory_sharing
                || !pre.handles@.dom().contains(device_io_request.file_id)) ==> (
                post.pending@ == pre.pending@
                && out.len() == 1
                && (out[0] matches RdpdrOutput::Pdu(ClientPdu::ClientDriveQueryDirectoryResponse {
                        device_io_response,
                        fso_list,
                    })
                    && device_io_response == DeviceIoResponse::spec_answering(
                        device_io_request,
                        STATUS_UNSUCCESSFUL,
                    )
                    && fso_list@.len() == 0)
            ))
    &&& ((pre.allow_directory_sharing
                && pre.handles@.dom().contains(device_io_request.file_id)) ==> (
                (exists|cid: u32|
                    {
                        &&& !pre.pending@.dom().contains(cid)
                        &&& (!pre.pending@.dom().contains(device_io_request.completion_id)
                            ==> cid == device_io_request.completion_id)
                        &&& post.pending@ =~= pre.pending@.insert(
                            cid,
                            SharedDirectoryOp::AwaitList { device_io_request },
                        )
                        &&& out.len() == 1
                        &&& (out[0] matches RdpdrOutput::Tdp(TdpRequest::List(r))
                            && r.completion_id == cid
                            && r.directory_id == device_io_request.device_id
                            && r.path@ == pre.handles@[device_io_request.file_id]@)
                    })
                || ((forall|id: u32| pre.pending@.dom().contains(id))
                    && post.pending@ == pre.pending@
                    && out.len() == 1
                    && (out[0] matches
                        RdpdrOutput::Pdu(ClientPdu::ClientDriveQueryDirectoryResponse {
                            device_io_response,
                            fso_list,
                        })
                        && device_io_response == DeviceIoResponse::spec_answering(
                            device_io_request,
                            STATUS_UNSUCCESSFUL,
                        )
                        && fso_list@.len() == 0))
            ))
}

/// What `handle_query_information` guarantees, stated once and reused by the session
/// multiplexer.
pub open spec fn query_information_post(
    pre: Client,
    post: Client,
    device_io_request: DeviceIoRequest,
    out: Seq<RdpdrOutput>,
) -> bool {
    &&& (post.only_pending_changed(pre))
    &&& ((!pre.allow_directory_sharing
                || !pre.handles@.dom().contains(device_io_request.file_id)) ==> (
                post.pending@ == pre.pending@
                && out.len() == 1
                && (out[0] matches
                    RdpdrOutput::Pdu(ClientPdu::ClientDriveQueryInformationResponse {
                        device_io_response,
                        fso,
                    })
                    && device_io_response == DeviceIoResponse::spec_answering(
                        device_io_request,
                        STATUS_UNSUCCESSFUL,
                    )
                    && fso is None)
            ))
    &&& ((pre.allow_directory_sharing
                && pre.handles@.dom().contains(device_io_request.file_id)) ==> (
                (exists|cid: u32|
                    {
                        &&& !pre.pending@.dom().contains(cid)
                        &&& (!pre.pending@.dom().contains(device_io_request.completion_id)
                            ==> cid == device_io_request.completion_id)
                        &&& post.pending@ =~= pre.pending@.insert(
                            cid,
                            SharedDirectoryOp::QueryInfo { device_io_request },
                        )
                        &&& out.len() == 1
                        &&& (out[0] matches RdpdrOutput::Tdp(TdpRequest::Info(r))
                            && r.completion_id == cid
                            && r.directory_id == device_io_request.device_id
                            && r.path@ == pre.handles@[device_io_request.file_id]@)
                    })
                || ((forall|id: u32| pre.pending@.dom().contains(id))
                    && post.pending@ == pre.pending@
                    && out.len() == 1
                    && (out[0] matches
                        RdpdrOutput::Pdu(ClientPdu::ClientDriveQueryInformationResponse {
                            device_io_response,
                            fso,
                        })
                        && device_io_response == DeviceIoResponse::spec_answering(
                            device_io_request,
                            STATUS_UNSUCCESSFUL,
                        )
                        && fso is None))
            ))
}

/// What `handle_rename` guarantees, stated once and reused by the session
/// multiplexer.
pub open spec fn rename_post(
    pre: Client,
    post: Client,
    device_io_request: DeviceIoRequest,
    new_path: UnixPath,
    out: Seq<RdpdrOutput>,
) -> bool {
    &&& (post.only_pending_changed(pre))
    &&& ((!pre.allow_directory_sharing
                || !pre.handles@.dom().contains(device_io_request.file_id)
                || new_path@.contains(0u8)) ==> (
                post.pending@ == pre.pending@
                && out =~= seq![
                    spec_set_info_reply(device_io_request, STATUS_UNSUCCESSFUL),
                ]
            ))
    &&& ((pre.allow_directory_sharing
                && pre.handles@.dom().contains(device_io_request.file_id)
                && !new_path@.contains(0u8)) ==> (
                (exists|cid: u32|
                    {
                        &&& !pre.pending@.dom().contains(cid)
                        &&& (!pre.pending@.dom().contains(device_io_request.completion_id)
                            ==> cid == device_io_request.completion_id)
                        &&& post.pending@ =~= pre.pending@.insert(
                            cid,
                            SharedDirectoryOp::AwaitMove { device_io_request },
                        )
                        &&& out.len() == 1
                        &&& (out[0] matches RdpdrOutput::Tdp(TdpRequest::Move(r))
                            && r.completion_id == cid
                            && r.directory_id == device_io_request.device_id
                            && r.original_path@ == pre.handles@[device_io_request.file_id]@
                            && r.new_path@ == new_path@)
                    })
                || ((forall|id: u32| pre.pending@.dom().contains(id))
                    && post.pending@ == pre.pending@
                    && out =~= seq![
                        spec_set_info_reply(device_io_request, STATUS_UNSUCCESSFUL),
                    ])
            ))
}

/// What `handle_delete_disposition` guarantees, stated once and reused by the session
/// multiplexer.
pub open spec fn delete_disposition_post(
    pre: Client,
    post: Client,
    device_io_request: DeviceIoRequest,
    out: Seq<RdpdrOutput>,
) -> bool {
    &&& (post.only_pending_changed(pre))
    &&& ((!pre.allow_directory_sharing
                || !pre.handles@.dom().contains(device_io_request.file_id)) ==> (
                post.pending@ == pre.pending@
                && out =~= seq![
                    spec_set_info_reply(device_io_request, STATUS_UNSUCCESSFUL),
                ]
            ))
    &&& ((pre.allow_directory_sharing
                && pre.handles@.dom().contains(device_io_request.file_id)) ==> (
                (exists|cid: u32|
                    {
                        &&& !pre.pending@.dom().contains(cid)
                        &&& (!pre.pending@.dom().contains(device_io_request.completion_id)
                            ==> cid == device_io_request.completion_id)
                        &&& post.pending@ =~= pre.pending@.insert(
                            cid,
                            SharedDirectoryOp::AwaitDelete { device_io_request },
                        )
                        &&& out.len() == 1
                        &&& (out[0] matches RdpdrOutput::Tdp(TdpRequest::Delete(r))
                            && r.completion_id == cid
                            && r.directory_id == device_io_request.device_id
                            && r.path@ == pre.handles@[device_io_request.file_id]@)
                    })
                || ((forall|id: u32| pre.pending@.dom().contains(id))
                    && post.pending@ == pre.pending@
                    && out =~= seq![
                        spec_set_info_reply(device_io_request, STATUS_UNSUCCESSFUL),
                    ])
            ))
}

/// What handling one inbound `rdpdr` PDU guarantees, by PDU kind: the
/// dispatch contract of the channel.
pub open spec fn rdpdr_step_post(
    pre: Client,
    post: Client,
    pdu: ServerPdu,
    out: Seq<RdpdrOutput>,
) -> bool {
    match pdu {
        ServerPdu::AnnounceRequest { version_major, version_minor, client_id } =>
            announce_request_post(pre, post, version_major, version_minor, client_id, out),
        ServerPdu::CoreCapabilityRequest => core_capability_post(pre, post, out),
        ServerPdu::ClientIdConfirm { .. } => client_id_confirm_post(pre, post, out),
        ServerPdu::DeviceReply { device_id, result_code } =>
            device_reply_post(pre, post, device_id, result_code, out),
        ServerPdu::CreateDriveRequest(req) => create_drive_post(pre, post, req, out),
        ServerPdu::DeviceReadRequest { device_io_request, offset, length } =>
            device_read_post(pre, post, device_io_request, offset, length, out),
        ServerPdu::DeviceWriteRequest { device_io_request, offset, write_data } =>
            device_write_post(pre, post, device_io_request, offset, write_data, out),
        ServerPdu::DeviceCloseRequest { device_io_request } =>
            device_close_post(pre, post, device_io_request, out),
        ServerPdu::QueryDirectoryRequest { device_io_request } =>
            query_directory_post(pre, post, device_io_request, out),
        ServerPdu::QueryInformationRequest { device_io_request } =>
            query_information_post(pre, post, device_io_request, out),
        ServerPdu::RenameRequest { device_io_request, new_path } =>
            rename_post(pre, post, device_io_request, new_path, out),
        ServerPdu::DeleteRequest { device_io_request } =>
            delete_disposition_post(pre, post, device_io_request, out),
    }
}

} // verus!

verus! {

/// Round-trip closure for a read, stated over the handler contracts alone:
/// when a read request goes out under completion id `cid`, the matching
/// response with data produces exactly one RDP reply — the success reply
/// carrying the data, truncated to the requested length — and the
/// pending-request table returns to what it was before the request.
pub proof fn lemma_read_round_trip(
    s0: Client,
    s1: Client,
    s2: Client,
    device_io_request: DeviceIoRequest,
    offset: u64,
    length: u32,
    out1: Seq<RdpdrOutput>,
    res: SharedDirectoryReadResponse,
    out2: Seq<RdpdrOutput>,
)
    requires
        device_read_post(s0, s1, device_io_request, offset, length, out1),
        s0.allow_directory_sharing,
        s0.handles@.dom().contains(device_io_request.file_id),
        out1.len() == 1,
        (out1[0] matches RdpdrOutput::Tdp(TdpRequest::Read(r))
            && res.completion_id == r.completion_id),
        res.err_code == TdpErrCode::Nil,
        read_response_post(s1, s2, res, out2),
    ensures
        out2.len() == 1,
        (out2[0] matches RdpdrOutput::Pdu(ClientPdu::DeviceReadResponse {
            device_io_response,
            read_data,
        })
            && device_io_response == DeviceIoResponse::spec_answering(
                device_io_request,
                STATUS_SUCCESS,
            )
            && (res.read_data@.len() <= length ==> read_data@ == res.read_data@)
            && (res.read_data@.len() > length ==> read_data@ == res.read_data@.subrange(
                0,
                length as int,
            ))),
        s2.pending@ =~= s0.pending@,
{
    // The request went out, so the allocation succeeded: obtain the fresh
    // completion id the exists clause speaks of.
    let cid = choose|cid: u32|
        {
            &&& !s0.pending@.dom().contains(cid)
            &&& (!s0.pending@.dom().contains(device_io_request.completion_id)
                ==> cid == device_io_request.completion_id)
            &&& s1.pending@ =~= s0.pending@.insert(
                cid,
                SharedDirectoryOp::AwaitRead { device_io_request, length },
            )
            &&& out1.len() == 1
            &&& (out1[0] matches RdpdrOutput::Tdp(TdpRequest::Read(r))
                && r.completion_id == cid
                && r.directory_id == device_io_request.device_id
                && r.path@ == s0.handles@[device_io_request.file_id]@
                && r.offset == offset
                && r.length == length)
        };
    assert(res.completion_id == cid);
    assert(s1.pending@.dom().contains(cid));
    assert(s1.pending@[cid] == SharedDirectoryOp::AwaitRead { device_io_request, length });
    assert(s2.pending@ =~= s1.pending@.remove(cid));
    assert(s2.pending@ =~= s0.pending@);
}

} // verus!

verus! {

/// Round-trip closure for opening an existing object: when a create with
/// disposition `FILE_OPEN` goes out as an info request under completion id
/// `cid`, the matching info response reporting an existing plain file
/// produces exactly one RDP reply — the success reply granting the next
/// file id — and the pending-request table returns to what it was before
/// the request.
pub proof fn lemma_create_open_round_trip(
    s0: Client,
    s1: Client,
    s2: Client,
    req: ServerCreateDriveRequest,
    out1: Seq<RdpdrOutput>,
    res: SharedDirectoryInfoResponse,
    out2: Seq<RdpdrOutput>,
)
    requires
        create_drive_post(s0, s1, req, out1),
        s0.allow_directory_sharing,
        !req.path@.contains(0u8),
        req.create_disposition == FILE_OPEN,
        req.create_options & FILE_DIRECTORY_FILE == 0,
        out1.len() == 1,
        (out1[0] matches RdpdrOutput::Tdp(TdpRequest::Info(r))
            && res.completion_id == r.completion_id),
        res.err_code == TdpErrCode::Nil,
        res.fso.file_type == FileType::File,
        s1.next_file_id < u32::MAX,
        info_response_post(s1, s2, res, out2),
    ensures
        out2 =~= seq![spec_create_reply(req.device_io_request, STATUS_SUCCESS, s1.next_file_id)],
        s2.pending@ =~= s0.pending@,
        s2.handles@ =~= s1.handles@.insert(s1.next_file_id, req.path),
{
    let cid = choose|cid: u32|
        {
            &&& !s0.pending@.dom().contains(cid)
            &&& (!s0.pending@.dom().contains(req.device_io_request.completion_id)
                ==> cid == req.device_io_request.completion_id)
            &&& s1.pending@ =~= s0.pending@.insert(cid, SharedDirectoryOp::CreateStage(req))
            &&& out1.len() == 1
            &&& (out1[0] matches RdpdrOutput::Tdp(TdpRequest::Info(r))
                && r.completion_id == cid
                && r.directory_id == req.device_io_request.device_id
                && r.path@ == req.path@)
        };
    assert(res.completion_id == cid);
    assert(s1.pending@.dom().contains(cid));
    assert(s1.pending@[cid] == SharedDirectoryOp::CreateStage(req));
    let d = spec_create_decision(
        req.create_disposition,
        req.create_options,
        res.err_code,
        res.fso.file_type,
    );
    assert(d == CreateDecision::ReplyOpen);
    assert(create_stage_post(s1, s2, cid, d, req, out2));
    assert(s2.pending@ =~= s1.pending@.remove(cid));
}

} // verus!

verus! {

/// What failing the delivery of a surfaced request guarantees: the entry
/// is gone and the reply for its operation carries a failure status.
pub open spec fn fail_pending_post(
    pre: Client,
    post: Client,
    completion_id: u32,
    out: Seq<RdpdrOutput>,
) -> bool {
    &&& post.config_unchanged(pre)
    &&& post.handles@ == pre.handles@
    &&& post.active_drives@ == pre.active_drives@
    &&& post.next_file_id == pre.next_file_id
    &&& (!pre.pending@.dom().contains(completion_id) ==> (
        post.pending@ =~= pre.pending@ && out.len() == 0
    ))
    &&& (pre.pending@.dom().contains(completion_id) ==> (
        post.pending@ =~= pre.pending@.remove(completion_id)
        && out.len() == 1
        && match pre.pending@[completion_id] {
            SharedDirectoryOp::CreateStage(c) => out[0] == spec_create_reply(
                c.device_io_request,
                STATUS_UNSUCCESSFUL,
                0u32,
            ),
            SharedDirectoryOp::CreateFinish(c) => out[0] == spec_create_reply(
                c.device_io_request,
                STATUS_UNSUCCESSFUL,
                0u32,
            ),
            SharedDirectoryOp::QueryInfo { device_io_request } => (
                out[0] matches RdpdrOutput::Pdu(ClientPdu::ClientDriveQueryInformationResponse {
                    device_io_response,
                    fso,
                })
                && device_io_response == DeviceIoResponse::spec_answering(
                    device_io_request,
                    STATUS_UNSUCCESSFUL,
                )
                && fso is None
            ),
            SharedDirectoryOp::AwaitDelete { device_io_request } => out[0] == spec_set_info_reply(
                device_io_request,
                STATUS_UNSUCCESSFUL,
            ),
            SharedDirectoryOp::AwaitList { device_io_request } => (
                out[0] matches RdpdrOutput::Pdu(ClientPdu::ClientDriveQueryDirectoryResponse {
                    device_io_response,
                    fso_list,
                })
                && device_io_response == DeviceIoResponse::spec_answering(
                    device_io_request,
                    STATUS_UNSUCCESSFUL,
                )
                && fso_list@.len() == 0
            ),
            SharedDirectoryOp::AwaitRead { device_io_request, .. } => (
                out[0] matches RdpdrOutput::Pdu(ClientPdu::DeviceReadResponse {
                    device_io_response,
                    read_data,
                })
                && device_io_response == DeviceIoResponse::spec_answering(
                    device_io_request,
                    STATUS_UNSUCCESSFUL,
                )
                && read_data@ == Seq::<u8>::empty()
            ),
            SharedDirectoryOp::AwaitWrite { device_io_request } => out[0] == spec_write_reply(
                device_io_request,
                STATUS_UNSUCCESSFUL,
                0u32,
            ),
            SharedDirectoryOp::AwaitMove { device_io_request } => out[0] == spec_set_info_reply(
                device_io_request,
                STATUS_UNSUCCESSFUL,
            ),
        }
    ))
}

impl Client {
    /// Delivery of the surfaced TDP request under `completion_id` failed
    /// at the host boundary: the pending entry is removed and the RDP
    /// request it was to answer fails with an error status.  Nothing
    /// happens when no entry matches.
    pub fn fail_pending(&mut self, completion_id: u32) -> (out: Vec<RdpdrOutput>)
        requires
            old(self).wf(),
        ensures
            final(self).wf(),
            fail_pending_post(*old(self), *final(self), completion_id, out@),
    {
        match self.pending.remove(completion_id) {
            None => Vec::new(),
            Some(op) => {
                let mut out: Vec<RdpdrOutput> = Vec::new();
                match op {
                    SharedDirectoryOp::CreateStage(c) => {
                        out.push(RdpdrOutput::Pdu(ClientPdu::DeviceCreateResponse {
                            device_io_response: DeviceIoResponse::answering(
                                &c.device_io_request,
                                STATUS_UNSUCCESSFUL,
                            ),
                            file_id: 0,
                        }));
                    },
                    SharedDirectoryOp::CreateFinish(c) => {
                        out.push(RdpdrOutput::Pdu(ClientPdu::DeviceCreateResponse {
                            device_io_response: DeviceIoResponse::answering(
                                &c.device_io_request,
                                STATUS_UNSUCCESSFUL,
                            ),
                            file_id: 0,
                        }));
                    },
                    SharedDirectoryOp::QueryInfo { device_io_request } => {
                        out.push(RdpdrOutput::Pdu(
                            ClientPdu::ClientDriveQueryInformationResponse {
                                device_io_response: DeviceIoResponse::answering(
                                    &device_io_request,
                                    STATUS_UNSUCCESSFUL,
                                ),
                                fso: None,
                            },
                        ));
                    },
                    SharedDirectoryOp::AwaitDelete { device_io_request } => {
                        out.push(RdpdrOutput::Pdu(ClientPdu::ClientDriveSetInformationResponse {
                            device_io_response: DeviceIoResponse::answering(
                                &device_io_request,
                                STATUS_UNSUCCESSFUL,
                            ),
                        }));
                    },
                    SharedDirectoryOp::AwaitList { device_io_request } => {
                        out.push(RdpdrOutput::Pdu(ClientPdu::ClientDriveQueryDirectoryResponse {
                            device_io_response: DeviceIoResponse::answering(
                                &device_io_request,
                                STATUS_UNSUCCESSFUL,
                            ),
                            fso_list: Vec::new(),
                        }));
                    },
                    SharedDirectoryOp::AwaitRead { device_io_request, .. } => {
                        out.push(RdpdrOutput::Pdu(ClientPdu::DeviceReadResponse {
                            device_io_response: DeviceIoResponse::answering(
                                &device_io_request,
                                STATUS_UNSUCCESSFUL,
                            ),
                            read_data: Vec::new(),
                        }));
                    },
                    SharedDirectoryOp::AwaitWrite { device_io_request } => {
                        out.push(RdpdrOutput::Pdu(ClientPdu::DeviceWriteResponse {
                            device_io_response: DeviceIoResponse::answering(
                                &device_io_request,
                                STATUS_UNSUCCESSFUL,
                            ),
                            length: 0,
                        }));
                    },
                    SharedDirectoryOp::AwaitMove { device_io_request } => {
                        out.push(RdpdrOutput::Pdu(ClientPdu::ClientDriveSetInformationResponse {
                            device_io_response: DeviceIoResponse::answering(
                                &device_io_request,
                                STATUS_UNSUCCESSFUL,
                            ),
                        }));
                    },
                }
                out
            },
        }
    }
}

} // verus!

verus! {

/// A surfaced request defers its reply: whenever dispatching one inbound
/// PDU emits an outbound TDP request, that same step writes no RDP reply
/// at all, and the request's completion id is pending afterwards — the
/// reply can only arise from a later response carrying that id.
pub proof fn lemma_surfaced_request_defers_reply(
    pre: Client,
    post: Client,
    pdu: ServerPdu,
    out: Seq<RdpdrOutput>,
    i: int,
)
    requires
        rdpdr_step_post(pre, post, pdu, out),
        0 <= i < out.len(),
        out[i] matches RdpdrOutput::Tdp(_),
    ensures
        forall|j: int| 0 <= j < out.len() ==> !(#[trigger] out[j] matches RdpdrOutput::Pdu(_)),
        (out[i] matches RdpdrOutput::Tdp(req)
            ==> post.pending@.dom().contains(req.spec_completion_id())),
{
    match pdu {
        ServerPdu::AnnounceRequest { .. } => {
            assert(false);
        },
        ServerPdu::CoreCapabilityRequest => {
            assert(false);
        },
        ServerPdu::ClientIdConfirm { .. } => {
            assert(false);
        },
        ServerPdu::DeviceReply { device_id, result_code } => {
            if pre.active_drives@.contains(device_id) {
                assert(out[0] matches RdpdrOutput::Ack(_));
            }
            assert(false);
        },
        ServerPdu::DeviceCloseRequest { .. } => {
            assert(false);
        },
        ServerPdu::CreateDriveRequest(req) => {
            let cid = choose|cid: u32|
                {
                    &&& !pre.pending@.dom().contains(cid)
                    &&& (!pre.pending@.dom().contains(req.device_io_request.completion_id)
                        ==> cid == req.device_io_request.completion_id)
                    &&& post.pending@ =~= pre.pending@.insert(
                        cid,
                        SharedDirectoryOp::CreateStage(req),
                    )
                    &&& out.len() == 1
                    &&& (out[0] matches RdpdrOutput::Tdp(TdpRequest::Info(r))
                        && r.completion_id == cid
                        && r.directory_id == req.device_io_request.device_id
                        && r.path@ == req.path@)
                };
            assert(post.pending@.dom().contains(cid));
        },
        ServerPdu::DeviceReadRequest { device_io_request, offset, length } => {
            let cid = choose|cid: u32|
                {
                    &&& !pre.pending@.dom().contains(cid)
                    &&& (!pre.pending@.dom().contains(device_io_request.completion_id)
                        ==> cid == device_io_request.completion_id)
                    &&& post.pending@ =~= pre.pending@.insert(
                        cid,
                        SharedDirectoryOp::AwaitRead { device_io_request, length },
                    )
                    &&& out.len() == 1
                    &&& (out[0] matches RdpdrOutput::Tdp(TdpRequest::Read(r))
                        && r.completion_id == cid
                        && r.directory_id == device_io_request.device_id
                        && r.path@ == pre.handles@[device_io_request.file_id]@
                        && r.offset == offset
                        && r.length == length)
                };
            assert(post.pending@.dom().contains(cid));
        },
        ServerPdu::DeviceWriteRequest { device_io_request, offset, write_data } => {
            let cid = choose|cid: u32|
                {
                    &&& !pre.pending@.dom().contains(cid)
                    &&& (!pre.pending@.dom().contains(device_io_request.completion_id)
                        ==> cid == device_io_request.completion_id)
                    &&& post.pending@ =~= pre.pending@.insert(
                        cid,
                        SharedDirectoryOp::AwaitWrite { device_io_request },
                    )
                    &&& out.len() == 1
                    &&& (out[0] matches RdpdrOutput::Tdp(TdpRequest::Write(r))
                        && r.completion_id == cid
                        && r.directory_id == device_io_request.device_id
                        && r.path@ == pre.handles@[device_io_request.file_id]@
                        && r.offset == offset
                        && r.write_data@ == write_data@)
                };
            assert(post.pending@.dom().contains(cid));
        },
        ServerPdu::QueryDirectoryRequest { device_io_request } => {
            let cid = choose|cid: u32|
                {
                    &&& !pre.pending@.dom().contains(cid)
                    &&& (!pre.pending@.dom().contains(device_io_request.completion_id)
                        ==> cid == device_io_request.completion_id)
                    &&& post.pending@ =~= pre.pending@.insert(
                        cid,
                        SharedDirectoryOp::AwaitList { device_io_request },
                    )
                    &&& out.len() == 1
                    &&& (out[0] matches RdpdrOutput::Tdp(TdpRequest::List(r))
                        && r.completion_id == cid
                        && r.directory_id == device_io_request.device_id
                        && r.path@ == pre.handles@[device_io_request.file_id]@)
                };
            assert(post.pending@.dom().contains(cid));
        },
        ServerPdu::QueryInformationRequest { device_io_request } => {
            let cid = choose|cid: u32|
                {
                    &&& !pre.pending@.dom().contains(cid)
                    &&& (!pre.pending@.dom().contains(device_io_request.completion_id)
                        ==> cid == device_io_request.completion_id)
                    &&& post.pending@ =~= pre.pending@.insert(
                        cid,
                        SharedDirectoryOp::QueryInfo { device_io_request },
                    )
                    &&& out.len() == 1
                    &&& (out[0] matches RdpdrOutput::Tdp(TdpRequest::Info(r))
                        && r.completion_id == cid
                        && r.directory_id == device_io_request.device_id
                        && r.path@ == pre.handles@[device_io_request.file_id]@)
                };
            assert(post.pending@.dom().contains(cid));
        },
        ServerPdu::RenameRequest { device_io_request, new_path } => {
            let cid = choose|cid: u32|
                {
                    &&& !pre.pending@.dom().contains(cid)
                    &&& (!pre.pending@.dom().contains(device_io_request.completion_id)
                        ==> cid == device_io_request.completion_id)
                    &&& post.pending@ =~= pre.pending@.insert(
                        cid,
                        SharedDirectoryOp::AwaitMove { device_io_request },
                    )
                    &&& out.len() == 1
                    &&& (out[0] matches RdpdrOutput::Tdp(TdpRequest::Move(r))
                        && r.completion_id == cid
                        && r.directory_id == device_io_request.device_id
                        && r.original_path@ == pre.handles@[device_io_request.file_id]@
                        && r.new_path@ == new_path@)
                };
            assert(post.pending@.dom().contains(cid));
        },
        ServerPdu::DeleteRequest { device_io_request } => {
            let cid = choose|cid: u32|
                {
                    &&& !pre.pending@.dom().contains(cid)
                    &&& (!pre.pending@.dom().contains(device_io_request.completion_id)
                        ==> cid == device_io_request.completion_id)
                    &&& post.pending@ =~= pre.pending@.insert(
                        cid,
                        SharedDirectoryOp::AwaitDelete { device_io_request },
                    )
                    &&& out.len() == 1
                    &&& (out[0] matches RdpdrOutput::Tdp(TdpRequest::Delete(r))
                        && r.completion_id == cid
                        && r.directory_id == device_io_request.device_id
                        && r.path@ == pre.handles@[device_io_request.file_id]@)
                };
            assert(post.pending@.dom().contains(cid));
        },
    }
}

} // verus!
