//! The TDP (Teleport Desktop Protocol) message model: the typed request and
//! response records exchanged with the host process to service drive
//! redirection, plus the file-system metadata record they carry.

use vstd::prelude::*;
use crate::path::UnixPath;

verus! {

/// Result code carried on every TDP response.
#[derive(Clone, Copy, Debug, PartialEq, Eq, Structural)]
pub enum TdpErrCode {
    /// No error; the operation succeeded.
    Nil,
    /// The operation failed.
    Failed,
    /// The resource does not exist.
    DoesNotExist,
    /// The resource already exists.
    AlreadyExists,
}

/// Whether a file-system object is a plain file or a directory.
#[derive(Clone, Copy, Debug, PartialEq, Eq, Structural)]
pub enum FileType {
    File,
    Directory,
}

/// Metadata of one file or directory, as reported by the host.
#[derive(Debug)]
pub struct FileSystemObject {
    pub last_modified: u64,
    pub size: u64,
    pub file_type: FileType,
    pub path: UnixPath,
}

impl FileSystemObject {
    /// The name of the object: the final segment of its path.  Fails only
    /// when the path is empty.
    pub fn name(&self) -> (r: Option<Vec<u8>>)
        requires
            self.path.wf(),
        ensures
            self.path@.len() == 0 ==> r is None,
            self.path@.len() > 0 ==> r is Some
                && r->Some_0@ == crate::path::last_segment(self.path@),
    {
        self.path.last()
    }
}

/// Announces a new directory to be shared over TDP.
#[derive(Debug)]
pub struct SharedDirectoryAnnounce {
    pub directory_id: u32,
    pub name: Vec<u8>,
}

/// Acknowledges that a `SharedDirectoryAnnounce` was received.
#[derive(Debug)]
pub struct SharedDirectoryAcknowledge {
    pub err_code: TdpErrCode,
    pub directory_id: u32,
}

/// Asks the host for information about the object at a path.
#[derive(Debug)]
pub struct SharedDirectoryInfoRequest {
    pub completion_id: u32,
    pub directory_id: u32,
    pub path: UnixPath,
}

/// Answers a `SharedDirectoryInfoRequest`.
#[derive(Debug)]
pub struct SharedDirectoryInfoResponse {
    pub completion_id: u32,
    pub err_code: TdpErrCode,
    pub fso: FileSystemObject,
}

/// Asks the host to create a file or directory.
#[derive(Debug)]
pub struct SharedDirectoryCreateRequest {
    pub completion_id: u32,
    pub directory_id: u32,
    pub file_type: FileType,
    pub path: UnixPath,
}

/// Answers a `SharedDirectoryCreateRequest`.
#[derive(Debug)]
pub struct SharedDirectoryCreateResponse {
    pub completion_id: u32,
    pub err_code: TdpErrCode,
    pub fso: FileSystemObject,
}

/// Asks the host to delete a file or directory.
#[derive(Debug)]
pub struct SharedDirectoryDeleteRequest {
    pub completion_id: u32,
    pub directory_id: u32,
    pub path: UnixPath,
}

/// Answers a `SharedDirectoryDeleteRequest`.
#[derive(Debug)]
pub struct SharedDirectoryDeleteResponse {
    pub completion_id: u32,
    pub err_code: TdpErrCode,
}

/// Asks the host for the contents of a directory.
#[derive(Debug)]
pub struct SharedDirectoryListRequest {
    pub completion_id: u32,
    pub directory_id: u32,
    pub path: UnixPath,
}

/// Answers a `SharedDirectoryListRequest`.
#[derive(Debug)]
pub struct SharedDirectoryListResponse {
    pub completion_id: u32,
    pub err_code: TdpErrCode,
    pub fso_list: Vec<FileSystemObject>,
}

/// Asks the host for a range of a file's contents.
#[derive(Debug)]
pub struct SharedDirectoryReadRequest {
    pub completion_id: u32,
    pub directory_id: u32,
    pub path: UnixPath,
    pub offset: u64,
    pub length: u32,
}

/// Answers a `SharedDirectoryReadRequest` with the data read.
#[derive(Debug)]
pub struct SharedDirectoryReadResponse {
    pub completion_id: u32,
    pub err_code: TdpErrCode,
    pub read_data: Vec<u8>,
}

/// Asks the host to write a range of a file.
#[derive(Debug)]
pub struct SharedDirectoryWriteRequest {
    pub completion_id: u32,
    pub directory_id: u32,
    pub offset: u64,
    pub path: UnixPath,
    pub write_data: Vec<u8>,
}

/// Answers a `SharedDirectoryWriteRequest` with the number of bytes written.
#[derive(Debug)]
pub struct SharedDirectoryWriteResponse {
    pub completion_id: u32,
    pub err_code: TdpErrCode,
    pub bytes_written: u32,
}

/// Asks the host to move an object to a new path.
#[derive(Debug)]
pub struct SharedDirectoryMoveRequest {
    pub completion_id: u32,
    pub directory_id: u32,
    pub original_path: UnixPath,
    pub new_path: UnixPath,
}

/// Answers a `SharedDirectoryMoveRequest`.
#[derive(Debug)]
pub struct SharedDirectoryMoveResponse {
    pub completion_id: u32,
    pub err_code: TdpErrCode,
}

/// One outbound TDP request, as surfaced to the host process.
#[derive(Debug)]
pub enum TdpRequest {
    Info(SharedDirectoryInfoRequest),
    Create(SharedDirectoryCreateRequest),
    Delete(SharedDirectoryDeleteRequest),
    List(SharedDirectoryListRequest),
    Read(SharedDirectoryReadRequest),
    Write(SharedDirectoryWriteRequest),
    Move(SharedDirectoryMoveRequest),
}

impl TdpRequest {
    /// The completion id that joins this request with its response.
    pub open spec fn spec_completion_id(&self) -> u32 {
        match self {
            TdpRequest::Info(r) => r.completion_id,
            TdpRequest::Create(r) => r.completion_id,
            TdpRequest::Delete(r) => r.completion_id,
            TdpRequest::List(r) => r.completion_id,
            TdpRequest::Read(r) => r.completion_id,
            TdpRequest::Write(r) => r.completion_id,
            TdpRequest::Move(r) => r.completion_id,
        }
    }

    pub fn completion_id(&self) -> (id: u32)
        ensures
            id == self.spec_completion_id(),
    {
        match self {
            TdpRequest::Info(r) => r.completion_id,
            TdpRequest::Create(r) => r.completion_id,
            TdpRequest::Delete(r) => r.completion_id,
            TdpRequest::List(r) => r.completion_id,
            TdpRequest::Read(r) => r.completion_id,
            TdpRequest::Write(r) => r.completion_id,
            TdpRequest::Move(r) => r.completion_id,
        }
    }
}

} // verus!
