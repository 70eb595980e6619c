//! The session: channel multiplexer and the host-facing facade.
//!
//! `RdpClient` owns the three channel clients and demultiplexes inbound
//! PDUs by channel name; `Client` is the session handle the host drives,
//! carrying the immutable socket descriptor and host reference beside the
//! guarded protocol state.  Every operation is a pure transition returning
//! the ordered artifacts to emit; the transport, the guard, and all I/O
//! live outside this crate.

use vstd::prelude::*;
use crate::cliprdr;
use crate::events::{
    CGOErrCode, CGOKeyboardEvent, CGOMousePointerEvent, KeyboardEvent, PointerEvent,
};
use crate::rdpdr;
use crate::rdpdr::{ClientDeviceListAnnounce, RdpdrOutput};
use crate::tdp::{
    SharedDirectoryAcknowledge, SharedDirectoryAnnounce, SharedDirectoryCreateResponse,
    SharedDirectoryDeleteResponse, SharedDirectoryInfoResponse, SharedDirectoryListResponse,
    SharedDirectoryMoveResponse, SharedDirectoryReadResponse, SharedDirectoryWriteResponse,
    TdpRequest,
};
use crate::util::bytes_eq;

verus! {

/// Seconds allowed for the TCP connect during bring-up.
pub const RDP_CONNECT_TIMEOUT_SECS: u64 = 5;

/// Seconds allowed for each read during the protocol handshake; cleared
/// before steady state.
pub const RDP_HANDSHAKE_TIMEOUT_SECS: u64 = 10;

/// X.224 negotiation flag: plain RDP security.
pub const PROTOCOL_RDP: u32 = 0;

/// X.224 negotiation flag: TLS security.
pub const PROTOCOL_SSL: u32 = 1;

/// Info flag: the password field carries a smartcard PIN.
pub const INFO_PASSWORD_IS_SC_PIN: u32 = 0x00040000;

/// Info flag: the mouse has a wheel.
pub const INFO_MOUSE_HAS_WHEEL: u32 = 0x00020000;

/// Extended info flag: disable cursor blinking.
pub const PERF_DISABLE_CURSOR_BLINK: u32 = 0x00000040;

/// Extended info flag: disable full-window drag.
pub const PERF_DISABLE_FULL_WINDOW_DRAG: u32 = 0x00000002;

/// Extended info flag: disable menu animations.
pub const PERF_DISABLE_MENU_ANIMATIONS: u32 = 0x00000004;

/// The security protocols requested at X.224 negotiation: `SSL | RDP`.
pub fn security_protocols() -> (r: u32)
    ensures
        r == PROTOCOL_SSL | PROTOCOL_RDP,
{
    PROTOCOL_SSL | PROTOCOL_RDP
}

/// The info flags of the secure logon: the PIN is a smartcard PIN, and the
/// mouse has a wheel.
pub fn logon_info_flags() -> (r: u32)
    ensures
        r == INFO_PASSWORD_IS_SC_PIN | INFO_MOUSE_HAS_WHEEL,
{
    INFO_PASSWORD_IS_SC_PIN | INFO_MOUSE_HAS_WHEEL
}

/// The extended info flags of the secure logon: cursor blink, full-window
/// drag and menu animations disabled.
pub fn logon_extended_info_flags() -> (r: u32)
    ensures
        r == PERF_DISABLE_CURSOR_BLINK | PERF_DISABLE_FULL_WINDOW_DRAG
            | PERF_DISABLE_MENU_ANIMATIONS,
{
    PERF_DISABLE_CURSOR_BLINK | PERF_DISABLE_FULL_WINDOW_DRAG | PERF_DISABLE_MENU_ANIMATIONS
}

/// The bytes of the `global` channel name.
pub open spec fn global_channel_name() -> Seq<u8> {
    seq![103u8, 108u8, 111u8, 98u8, 97u8, 108u8]
}

/// The bytes of the `rdpdr` channel name.
pub open spec fn rdpdr_channel_name() -> Seq<u8> {
    seq![114u8, 100u8, 112u8, 100u8, 114u8]
}

/// The bytes of the `cliprdr` channel name.
pub open spec fn cliprdr_channel_name() -> Seq<u8> {
    seq![99u8, 108u8, 105u8, 112u8, 114u8, 100u8, 114u8]
}

/// The bytes of the `rdpsnd` channel name.
pub open spec fn rdpsnd_channel_name() -> Seq<u8> {
    seq![114u8, 100u8, 112u8, 115u8, 110u8, 100u8]
}

/// Builds the `rdpdr` channel name.
pub fn rdpdr_channel_name_bytes() -> (r: Vec<u8>)
    ensures
        r@ == rdpdr_channel_name(),
{
    let mut r: Vec<u8> = Vec::new();
    r.push(114);
    r.push(100);
    r.push(112);
    r.push(100);
    r.push(114);
    proof {
        assert(r@ =~= rdpdr_channel_name());
    }
    r
}

/// Builds the `cliprdr` channel name.
pub fn cliprdr_channel_name_bytes() -> (r: Vec<u8>)
    ensures
        r@ == cliprdr_channel_name(),
{
    let mut r: Vec<u8> = Vec::new();
    r.push(99);
    r.push(108);
    r.push(105);
    r.push(112);
    r.push(114);
    r.push(100);
    r.push(114);
    proof {
        assert(r@ =~= cliprdr_channel_name());
    }
    r
}

/// Builds the `rdpsnd` channel name.
pub fn rdpsnd_channel_name_bytes() -> (r: Vec<u8>)
    ensures
        r@ == rdpsnd_channel_name(),
{
    let mut r: Vec<u8> = Vec::new();
    r.push(114);
    r.push(100);
    r.push(112);
    r.push(115);
    r.push(110);
    r.push(100);
    proof {
        assert(r@ =~= rdpsnd_channel_name());
    }
    r
}

/// Builds the `global` channel name.
pub fn global_channel_name_bytes() -> (r: Vec<u8>)
    ensures
        r@ == global_channel_name(),
{
    let mut r: Vec<u8> = Vec::new();
    r.push(103);
    r.push(108);
    r.push(111);
    r.push(98);
    r.push(97);
    r.push(108);
    proof {
        assert(r@ =~= global_channel_name());
    }
    r
}

/// The static channels requested at MCS connect: `rdpdr`, `rdpsnd`, and —
/// only when the clipboard is allowed — `cliprdr`.
pub fn static_channel_names(allow_clipboard: bool) -> (r: Vec<Vec<u8>>)
    ensures
        !allow_clipboard ==> r@.len() == 2,
        allow_clipboard ==> r@.len() == 3 && r@[2]@ == cliprdr_channel_name(),
        r@[0]@ == rdpdr_channel_name(),
        r@[1]@ == rdpsnd_channel_name(),
{
    let mut r: Vec<Vec<u8>> = Vec::new();
    r.push(rdpdr_channel_name_bytes());
    r.push(rdpsnd_channel_name_bytes());
    if allow_clipboard {
        r.push(cliprdr_channel_name_bytes());
    }
    r
}

/// Where an inbound PDU is routed, by channel name.
#[derive(Clone, Copy, Debug, PartialEq, Eq, Structural)]
pub enum ChannelRoute {
    Global,
    Rdpdr,
    Cliprdr,
    Rdpsnd,
    Unknown,
}

/// The route a channel name selects.
pub open spec fn spec_route(name: Seq<u8>) -> ChannelRoute {
    if name == global_channel_name() {
        ChannelRoute::Global
    } else if name == rdpdr_channel_name() {
        ChannelRoute::Rdpdr
    } else if name == cliprdr_channel_name() {
        ChannelRoute::Cliprdr
    } else if name == rdpsnd_channel_name() {
        ChannelRoute::Rdpsnd
    } else {
        ChannelRoute::Unknown
    }
}

/// Routes a channel name.
pub fn route_channel(name: &[u8]) -> (r: ChannelRoute)
    ensures
        r == spec_route(name@),
{
    let global = global_channel_name_bytes();
    if bytes_eq(name, global.as_slice()) {
        return ChannelRoute::Global;
    }
    let rdpdr_name = rdpdr_channel_name_bytes();
    if bytes_eq(name, rdpdr_name.as_slice()) {
        return ChannelRoute::Rdpdr;
    }
    let clip = cliprdr_channel_name_bytes();
    if bytes_eq(name, clip.as_slice()) {
        return ChannelRoute::Cliprdr;
    }
    let snd = rdpsnd_channel_name_bytes();
    if bytes_eq(name, snd.as_slice()) {
        return ChannelRoute::Rdpsnd;
    }
    ChannelRoute::Unknown
}

/// One decoded framebuffer update from the server, decompressed.
#[derive(Debug)]
pub struct BitmapFrame {
    pub dest_left: u16,
    pub dest_top: u16,
    pub dest_right: u16,
    pub dest_bottom: u16,
    pub data: Vec<u8>,
}

/// A PDU arriving on the `global` channel, already decoded.
#[derive(Debug)]
pub enum GlobalPdu {
    /// A framebuffer update, forwarded to the host.
    Bitmap(BitmapFrame),
    /// A pointer update from the server; ignored in this direction.
    ServerPointer,
}

/// The decoded body of one inbound MCS PDU.
#[derive(Debug)]
pub enum ChannelPayload {
    Global(GlobalPdu),
    Rdpdr(rdpdr::ServerPdu),
    Cliprdr(cliprdr::ClipboardPdu),
}

/// An event submitted by the host for the server.
#[derive(Debug)]
pub enum RdpEvent {
    Pointer(PointerEvent),
    Key(KeyboardEvent),
    Bitmap(BitmapFrame),
}

/// One artifact of a session transition, in emission order.
#[derive(Debug)]
pub enum SessionOutput {
    /// Serialize this input event and write it to the `global` channel.
    GlobalInput(RdpEvent),
    /// Write this PDU to the `rdpdr` channel.
    Rdpdr(rdpdr::ClientPdu),
    /// Write this PDU to the `cliprdr` channel.
    Cliprdr(cliprdr::ClipboardPdu),
    /// Hand this frame to the host.
    Bitmap(BitmapFrame),
    /// Hand this remote-copied UTF-8 text to the host.
    RemoteCopy(Vec<u8>),
    /// Surface this TDP request to the host.
    TdpRequest(TdpRequest),
    /// Surface this TDP acknowledgement to the host.
    TdpAck(SharedDirectoryAcknowledge),
}

/// A protocol error that terminates the session.
#[derive(Clone, Copy, Debug, PartialEq, Eq, Structural)]
pub enum SessionError {
    /// A PDU arrived on a channel this client never joined.
    UnexpectedChannel,
    /// The payload does not belong to the channel it arrived on.
    PayloadMismatch,
    /// The submitted event cannot be sent.
    UnexpectedEvent,
}

/// The session output of one `rdpdr` artifact.
pub open spec fn spec_rdpdr_out(o: RdpdrOutput) -> SessionOutput {
    match o {
        RdpdrOutput::Pdu(p) => SessionOutput::Rdpdr(p),
        RdpdrOutput::Tdp(t) => SessionOutput::TdpRequest(t),
        RdpdrOutput::Ack(a) => SessionOutput::TdpAck(a),
    }
}

/// The session outputs of a sequence of `rdpdr` artifacts, in order.
pub open spec fn spec_rdpdr_outs(v: Seq<RdpdrOutput>) -> Seq<SessionOutput> {
    v.map_values(|o: RdpdrOutput| spec_rdpdr_out(o))
}

/// Converts `rdpdr` artifacts into session outputs, in order.
pub fn map_rdpdr_outputs(v: Vec<RdpdrOutput>) -> (out: Vec<SessionOutput>)
    ensures
        out@ == spec_rdpdr_outs(v@),
{
    let mut out: Vec<SessionOutput> = Vec::new();
    let mut v = v;
    let ghost v0 = v@;
    let mut i: usize = 0;
    let n = v.len();
    proof {
        assert(v0.map_values(|o: RdpdrOutput| spec_rdpdr_out(o)).len() == v0.len());
    }
    while v.len() > 0
        invariant
            v@ == v0.subrange(i as int, n as int),
            n == v0.len(),
            i <= n,
            out@ =~= v0.subrange(0, i as int).map_values(|o: RdpdrOutput| spec_rdpdr_out(o)),
        decreases n - i,
    {
        let ghost before = v@;
        let o = v.remove(0);
        proof {
            assert(before[0] == v0[i as int]);
            assert(v@ =~= v0.subrange(i as int + 1, n as int));
        }
        match o {
            RdpdrOutput::Pdu(p) => out.push(SessionOutput::Rdpdr(p)),
            RdpdrOutput::Tdp(t) => out.push(SessionOutput::TdpRequest(t)),
            RdpdrOutput::Ack(a) => out.push(SessionOutput::TdpAck(a)),
        }
        i = i + 1;
        proof {
            let pre = v0.subrange(0, i as int);
            assert(pre.drop_last() =~= v0.subrange(0, i as int - 1));
            assert(pre.last() == v0[i as int - 1]);
            assert(out@ =~= pre.map_values(|o: RdpdrOutput| spec_rdpdr_out(o)));
        }
    }
    proof {
        assert(v0.subrange(0, n as int) =~= v0);
    }
    out
}

/// The session output of one clipboard artifact.
pub open spec fn spec_clip_out(o: cliprdr::ClipboardOutput) -> SessionOutput {
    match o {
        cliprdr::ClipboardOutput::Pdu(p) => SessionOutput::Cliprdr(p),
        cliprdr::ClipboardOutput::RemoteCopy(t) => SessionOutput::RemoteCopy(t),
    }
}

/// The session outputs of a sequence of clipboard artifacts, in order.
pub open spec fn spec_clip_outs(v: Seq<cliprdr::ClipboardOutput>) -> Seq<SessionOutput> {
    v.map_values(|o: cliprdr::ClipboardOutput| spec_clip_out(o))
}

/// Converts clipboard artifacts into session outputs, in order.
pub fn map_clip_outputs(v: Vec<cliprdr::ClipboardOutput>) -> (out: Vec<SessionOutput>)
    ensures
        out@ == spec_clip_outs(v@),
{
    let mut out: Vec<SessionOutput> = Vec::new();
    let mut v = v;
    let ghost v0 = v@;
    let mut i: usize = 0;
    let n = v.len();
    while v.len() > 0
        invariant
            v@ == v0.subrange(i as int, n as int),
            n == v0.len(),
            i <= n,
            out@ =~= v0.subrange(0, i as int).map_values(
                |o: cliprdr::ClipboardOutput| spec_clip_out(o),
            ),
        decreases n - i,
    {
        let ghost before = v@;
        let o = v.remove(0);
        proof {
            assert(before[0] == v0[i as int]);
            assert(v@ =~= v0.subrange(i as int + 1, n as int));
        }
        match o {
            cliprdr::ClipboardOutput::Pdu(p) => out.push(SessionOutput::Cliprdr(p)),
            cliprdr::ClipboardOutput::RemoteCopy(t) => out.push(SessionOutput::RemoteCopy(t)),
        }
        i = i + 1;
        proof {
            let pre = v0.subrange(0, i as int);
            assert(pre.drop_last() =~= v0.subrange(0, i as int - 1));
            assert(pre.last() == v0[i as int - 1]);
            assert(out@ =~= pre.map_values(|o: cliprdr::ClipboardOutput| spec_clip_out(o)));
        }
    }
    proof {
        assert(v0.subrange(0, n as int) =~= v0);
    }
    out
}

} // verus!

verus! {

/// The `global` channel client: display output and user input.  It holds
/// the negotiated framebuffer geometry; encoding of input PDUs is done by
/// the protocol stack below this crate.
#[derive(Clone, Copy, Debug, PartialEq, Eq, Structural)]
pub struct GlobalClient {
    pub screen_width: u16,
    pub screen_height: u16,
}

/// The protocol state guarded by the session mutex: the three channel
/// clients.
pub struct RdpClient {
    pub global: GlobalClient,
    pub rdpdr: rdpdr::Client,
    pub cliprdr: Option<cliprdr::Client>,
}

impl RdpClient {
    pub open spec fn wf(&self) -> bool {
        self.rdpdr.wf()
    }

    /// The clipboard state, unchanged.
    pub open spec fn cliprdr_unchanged(self, pre: RdpClient) -> bool {
        match (self.cliprdr, pre.cliprdr) {
            (Option::None, Option::None) => true,
            (Option::Some(a), Option::Some(b)) => a.staged@ == b.staged@,
            _ => false,
        }
    }

    /// No output writes to the `cliprdr` channel.
    pub open spec fn no_cliprdr_outputs(out: Seq<SessionOutput>) -> bool {
        forall|i: int| 0 <= i < out.len() ==> !(#[trigger] out[i] matches SessionOutput::Cliprdr(_))
    }

    /// Demultiplexes one inbound PDU by channel name.  `global` frames go
    /// to the host, `rdpdr` runs the drive bridge, `cliprdr` runs the
    /// clipboard when it exists and is silent otherwise, `rdpsnd` is
    /// dropped, and any other channel is a protocol error.
    pub fn read(&mut self, channel_name: &[u8], payload: ChannelPayload) -> (r: Result<
        Vec<SessionOutput>,
        SessionError,
    >)
        requires
            old(self).wf(),
        ensures
            final(self).wf(),
            final(self).global == old(self).global,
            final(self).rdpdr.config_unchanged(old(self).rdpdr),
            // The clipboard never appears when it was not created, and no
            // cliprdr PDU is ever produced without it.
            (final(self).cliprdr is Some) == (old(self).cliprdr is Some),
            old(self).cliprdr is None ==> (r matches Result::Ok(v)
                ==> RdpClient::no_cliprdr_outputs(v@)),
            // Unknown channels are protocol errors; nothing changes.
            spec_route(channel_name@) == ChannelRoute::Unknown ==> (
                r == Result::<Vec<SessionOutput>, SessionError>::Err(
                    SessionError::UnexpectedChannel,
                )
                && final(self).rdpdr == old(self).rdpdr
                && final(self).cliprdr_unchanged(*old(self))
            ),
            // Sound is dropped silently.
            spec_route(channel_name@) == ChannelRoute::Rdpsnd ==> (
                (r matches Result::Ok(v) && v@.len() == 0)
                && final(self).rdpdr == old(self).rdpdr
                && final(self).cliprdr_unchanged(*old(self))
            ),
            // Frames from the `global` channel go to the host verbatim.
            spec_route(channel_name@) == ChannelRoute::Global ==> (
                final(self).rdpdr == old(self).rdpdr
                && final(self).cliprdr_unchanged(*old(self))
                && (payload matches ChannelPayload::Global(GlobalPdu::Bitmap(f)) ==> (
                    r matches Result::Ok(v) && v@.len() == 1
                    && (v@[0] matches SessionOutput::Bitmap(g)
                        && g.dest_left == f.dest_left
                        && g.dest_top == f.dest_top
                        && g.dest_right == f.dest_right
                        && g.dest_bottom == f.dest_bottom
                        && g.data@ == f.data@)
                ))
                && (payload matches ChannelPayload::Global(GlobalPdu::ServerPointer) ==> (
                    r matches Result::Ok(v) && v@.len() == 0
                ))
                && (!(payload matches ChannelPayload::Global(_)) ==> r == Result::<
                    Vec<SessionOutput>,
                    SessionError,
                >::Err(SessionError::PayloadMismatch))
            ),
            // The clipboard channel: the clipboard client runs when it
            // exists, and is a silent no-op when the clipboard was not
            // allowed at connect time.
            spec_route(channel_name@) == ChannelRoute::Cliprdr ==> (
                final(self).rdpdr == old(self).rdpdr
                && (old(self).cliprdr is None ==> (
                    (r matches Result::Ok(v) && v@.len() == 0)
                    && final(self).cliprdr_unchanged(*old(self))
                ))
                && (old(self).cliprdr is Some ==> (
                    (payload matches ChannelPayload::Cliprdr(pdu) ==> (
                        r matches Result::Ok(v)
                        && final(self).cliprdr is Some
                        && exists|w: Seq<cliprdr::ClipboardOutput>|
                            cliprdr::clip_handle_post(
                                old(self).cliprdr->Some_0,
                                final(self).cliprdr->Some_0,
                                pdu,
                                w,
                            ) && v@ == spec_clip_outs(w)
                    ))
                    && (!(payload matches ChannelPayload::Cliprdr(_)) ==> (
                        r == Result::<Vec<SessionOutput>, SessionError>::Err(
                            SessionError::PayloadMismatch,
                        )
                        && final(self).cliprdr_unchanged(*old(self))
                    ))
                ))
            ),
            // The drive-redirection channel: the bridge runs; its artifacts
            // come back in order, under the dispatch contract of the PDU's
            // kind.
            spec_route(channel_name@) == ChannelRoute::Rdpdr ==> (
                final(self).cliprdr_unchanged(*old(self))
                && (payload matches ChannelPayload::Rdpdr(pdu) ==> (
                    r matches Result::Ok(v)
                    && exists|w: Seq<RdpdrOutput>|
                        rdpdr::rdpdr_step_post(old(self).rdpdr, final(self).rdpdr, pdu, w)
                            && v@ == spec_rdpdr_outs(w)
                ))
                && (!(payload matches ChannelPayload::Rdpdr(_)) ==> (
                    r == Result::<Vec<SessionOutput>, SessionError>::Err(
                        SessionError::PayloadMismatch,
                    )
                    && final(self).rdpdr == old(self).rdpdr
                ))
                && (r matches Result::Ok(v) ==> RdpClient::no_cliprdr_outputs(v@))
            ),
    {
        match route_channel(channel_name) {
            ChannelRoute::Global => match payload {
                ChannelPayload::Global(GlobalPdu::Bitmap(f)) => {
                    let mut v: Vec<SessionOutput> = Vec::new();
                    v.push(SessionOutput::Bitmap(f));
                    Ok(v)
                },
                ChannelPayload::Global(GlobalPdu::ServerPointer) => Ok(Vec::new()),
                _ => Err(SessionError::PayloadMismatch),
            },
            ChannelRoute::Rdpdr => match payload {
                ChannelPayload::Rdpdr(pdu) => {
                    let w = match pdu {
                        rdpdr::ServerPdu::AnnounceRequest {
                            version_major,
                            version_minor,
                            client_id,
                        } => self.rdpdr.handle_announce_request(
                            version_major,
                            version_minor,
                            client_id,
                        ),
                        rdpdr::ServerPdu::CoreCapabilityRequest => {
                            self.rdpdr.handle_core_capability_request()
                        },
                        rdpdr::ServerPdu::ClientIdConfirm { .. } => {
                            self.rdpdr.handle_client_id_confirm()
                        },
                        rdpdr::ServerPdu::DeviceReply { device_id, result_code } => {
                            self.rdpdr.handle_device_reply(device_id, result_code)
                        },
                        rdpdr::ServerPdu::CreateDriveRequest(req) => {
                            self.rdpdr.handle_create_drive(req)
                        },
                        rdpdr::ServerPdu::DeviceReadRequest {
                            device_io_request,
                            offset,
                            length,
                        } => self.rdpdr.handle_device_read(device_io_request, offset, length),
                        rdpdr::ServerPdu::DeviceWriteRequest {
                            device_io_request,
                            offset,
                            write_data,
                        } => self.rdpdr.handle_device_write(device_io_request, offset, write_data),
                        rdpdr::ServerPdu::DeviceCloseRequest { device_io_request } => {
                            self.rdpdr.handle_device_close(device_io_request)
                        },
                        rdpdr::ServerPdu::QueryDirectoryRequest { device_io_request } => {
                            self.rdpdr.handle_query_directory(device_io_request)
                        },
                        rdpdr::ServerPdu::QueryInformationRequest { device_io_request } => {
                            self.rdpdr.handle_query_information(device_io_request)
                        },
                        rdpdr::ServerPdu::RenameRequest { device_io_request, new_path } => {
                            self.rdpdr.handle_rename(device_io_request, new_path)
                        },
                        rdpdr::ServerPdu::DeleteRequest { device_io_request } => {
                            self.rdpdr.handle_delete_disposition(device_io_request)
                        },
                    };
                    Ok(map_rdpdr_outputs(w))
                },
                _ => Err(SessionError::PayloadMismatch),
            },
            ChannelRoute::Cliprdr => match &mut self.cliprdr {
                Some(clip) => match payload {
                    ChannelPayload::Cliprdr(pdu) => {
                        let w = clip.handle(pdu);
                        Ok(map_clip_outputs(w))
                    },
                    _ => Err(SessionError::PayloadMismatch),
                },
                None => Ok(Vec::new()),
            },
            ChannelRoute::Rdpsnd => Ok(Vec::new()),
            ChannelRoute::Unknown => Err(SessionError::UnexpectedChannel),
        }
    }

    /// Submits one host event for the server.  Only pointer and keyboard
    /// events can be sent.
    pub fn write(&mut self, event: RdpEvent) -> (r: Result<Vec<SessionOutput>, SessionError>)
        requires
            old(self).wf(),
        ensures
            final(self).wf(),
            *final(self) == *old(self),
            (event matches RdpEvent::Pointer(p) ==> (
                r matches Result::Ok(v) && v@.len() == 1
                && v@[0] == SessionOutput::GlobalInput(RdpEvent::Pointer(p))
            )),
            (event matches RdpEvent::Key(k) ==> (
                r matches Result::Ok(v) && v@.len() == 1
                && v@[0] == SessionOutput::GlobalInput(RdpEvent::Key(k))
            )),
            (event matches RdpEvent::Bitmap(_) ==> r == Result::<
                Vec<SessionOutput>,
                SessionError,
            >::Err(SessionError::UnexpectedEvent)),
    {
        match event {
            RdpEvent::Pointer(p) => {
                let mut v: Vec<SessionOutput> = Vec::new();
                v.push(SessionOutput::GlobalInput(RdpEvent::Pointer(p)));
                Ok(v)
            },
            RdpEvent::Key(k) => {
                let mut v: Vec<SessionOutput> = Vec::new();
                v.push(SessionOutput::GlobalInput(RdpEvent::Key(k)));
                Ok(v)
            },
            RdpEvent::Bitmap(_) => Err(SessionError::UnexpectedEvent),
        }
    }

    /// Announces a host-chosen drive on the `rdpdr` channel.
    pub fn write_client_device_list_announce(
        &mut self,
        req: ClientDeviceListAnnounce,
    ) -> (out: Vec<SessionOutput>)
        requires
            old(self).wf(),
        ensures
            final(self).wf(),
            final(self).global == old(self).global,
            final(self).cliprdr_unchanged(*old(self)),
            final(self).rdpdr.config_unchanged(old(self).rdpdr),
            final(self).rdpdr.pending@ == old(self).rdpdr.pending@,
            final(self).rdpdr.handles@ == old(self).rdpdr.handles@,
            out@.len() == 1,
            out@[0] matches SessionOutput::Rdpdr(rdpdr::ClientPdu::DeviceListAnnounce(_)),
    {
        let w = self.rdpdr.write_client_device_list_announce(req);
        map_rdpdr_outputs(w)
    }
}

} // verus!

verus! {

impl RdpClient {
    /// Forwards a TDP info response to the drive bridge.
    pub fn handle_tdp_sd_info_response(&mut self, res: SharedDirectoryInfoResponse) -> (out: Vec<
        SessionOutput,
    >)
        requires
            old(self).wf(),
        ensures
            final(self).wf(),
            final(self).global == old(self).global,
            final(self).cliprdr_unchanged(*old(self)),
            exists|w: Seq<RdpdrOutput>|
                rdpdr::info_response_post(old(self).rdpdr, final(self).rdpdr, res, w)
                    && out@ == spec_rdpdr_outs(w),
    {
        let w = self.rdpdr.handle_tdp_sd_info_response(res);
        let ghost wg = w@;
        let out = map_rdpdr_outputs(w);
        proof {
            assert(rdpdr::info_response_post(old(self).rdpdr, self.rdpdr, res, wg)
                && out@ == spec_rdpdr_outs(wg));
        }
        out
    }

    /// Forwards a TDP create response to the drive bridge.
    pub fn handle_tdp_sd_create_response(
        &mut self,
        res: SharedDirectoryCreateResponse,
    ) -> (out: Vec<SessionOutput>)
        requires
            old(self).wf(),
        ensures
            final(self).wf(),
            final(self).global == old(self).global,
            final(self).cliprdr_unchanged(*old(self)),
            exists|w: Seq<RdpdrOutput>|
                rdpdr::create_response_post(old(self).rdpdr, final(self).rdpdr, res, w)
                    && out@ == spec_rdpdr_outs(w),
    {
        let w = self.rdpdr.handle_tdp_sd_create_response(res);
        let ghost wg = w@;
        let out = map_rdpdr_outputs(w);
        proof {
            assert(rdpdr::create_response_post(old(self).rdpdr, self.rdpdr, res, wg)
                && out@ == spec_rdpdr_outs(wg));
        }
        out
    }

    /// Forwards a TDP delete response to the drive bridge.
    pub fn handle_tdp_sd_delete_response(
        &mut self,
        res: SharedDirectoryDeleteResponse,
    ) -> (out: Vec<SessionOutput>)
        requires
            old(self).wf(),
        ensures
            final(self).wf(),
            final(self).global == old(self).global,
            final(self).cliprdr_unchanged(*old(self)),
            exists|w: Seq<RdpdrOutput>|
                rdpdr::delete_response_post(old(self).rdpdr, final(self).rdpdr, res, w)
                    && out@ == spec_rdpdr_outs(w),
    {
        let w = self.rdpdr.handle_tdp_sd_delete_response(res);
        let ghost wg = w@;
        let out = map_rdpdr_outputs(w);
        proof {
            assert(rdpdr::delete_response_post(old(self).rdpdr, self.rdpdr, res, wg)
                && out@ == spec_rdpdr_outs(wg));
        }
        out
    }

    /// Forwards a TDP list response to the drive bridge.
    pub fn handle_tdp_sd_list_response(&mut self, res: SharedDirectoryListResponse) -> (out: Vec<
        SessionOutput,
    >)
        requires
            old(self).wf(),
        ensures
            final(self).wf(),
            final(self).global == old(self).global,
            final(self).cliprdr_unchanged(*old(self)),
            exists|w: Seq<RdpdrOutput>|
                rdpdr::list_response_post(old(self).rdpdr, final(self).rdpdr, res, w)
                    && out@ == spec_rdpdr_outs(w),
    {
        let w = self.rdpdr.handle_tdp_sd_list_response(res);
        let ghost wg = w@;
        let out = map_rdpdr_outputs(w);
        proof {
            assert(rdpdr::list_response_post(old(self).rdpdr, self.rdpdr, res, wg)
                && out@ == spec_rdpdr_outs(wg));
        }
        out
    }

    /// Forwards a TDP read response to the drive bridge.
    pub fn handle_tdp_sd_read_response(&mut self, res: SharedDirectoryReadResponse) -> (out: Vec<
        SessionOutput,
    >)
        requires
            old(self).wf(),
        ensures
            final(self).wf(),
            final(self).global == old(self).global,
            final(self).cliprdr_unchanged(*old(self)),
            exists|w: Seq<RdpdrOutput>|
                rdpdr::read_response_post(old(self).rdpdr, final(self).rdpdr, res, w)
                    && out@ == spec_rdpdr_outs(w),
    {
        let w = self.rdpdr.handle_tdp_sd_read_response(res);
        let ghost wg = w@;
        let out = map_rdpdr_outputs(w);
        proof {
            assert(rdpdr::read_response_post(old(self).rdpdr, self.rdpdr, res, wg)
                && out@ == spec_rdpdr_outs(wg));
        }
        out
    }

    /// Forwards a TDP write response to the drive bridge.
    pub fn handle_tdp_sd_write_response(&mut self, res: SharedDirectoryWriteResponse) -> (out: Vec<
        SessionOutput,
    >)
        requires
            old(self).wf(),
        ensures
            final(self).wf(),
            final(self).global == old(self).global,
            final(self).cliprdr_unchanged(*old(self)),
            exists|w: Seq<RdpdrOutput>|
                rdpdr::write_response_post(old(self).rdpdr, final(self).rdpdr, res, w)
                    && out@ == spec_rdpdr_outs(w),
    {
        let w = self.rdpdr.handle_tdp_sd_write_response(res);
        let ghost wg = w@;
        let out = map_rdpdr_outputs(w);
        proof {
            assert(rdpdr::write_response_post(old(self).rdpdr, self.rdpdr, res, wg)
                && out@ == spec_rdpdr_outs(wg));
        }
        out
    }

    /// Forwards a TDP move response to the drive bridge.
    pub fn handle_tdp_sd_move_response(&mut self, res: SharedDirectoryMoveResponse) -> (out: Vec<
        SessionOutput,
    >)
        requires
            old(self).wf(),
        ensures
            final(self).wf(),
            final(self).global == old(self).global,
            final(self).cliprdr_unchanged(*old(self)),
            exists|w: Seq<RdpdrOutput>|
                rdpdr::move_response_post(old(self).rdpdr, final(self).rdpdr, res, w)
                    && out@ == spec_rdpdr_outs(w),
    {
        let w = self.rdpdr.handle_tdp_sd_move_response(res);
        let ghost wg = w@;
        let out = map_rdpdr_outputs(w);
        proof {
            assert(rdpdr::move_response_post(old(self).rdpdr, self.rdpdr, res, wg)
                && out@ == spec_rdpdr_outs(wg));
        }
        out
    }
}

} // verus!

verus! {

/// The client name sent at MCS connect.
pub fn mcs_client_name() -> (s: &'static str)
    ensures
        s@ =~= "rdp-rs"@,
{
    "rdp-rs"
}

/// The logon domain: `"."` names the current domain.
pub fn logon_domain() -> (s: &'static str)
    ensures
        s@ =~= "."@,
{
    "."
}

/// What the host passes to `connect`.
pub struct ConnectParams {
    pub username: String,
    pub cert_der: Vec<u8>,
    pub key_der: Vec<u8>,
    pub screen_width: u16,
    pub screen_height: u16,
    pub allow_clipboard: bool,
    pub allow_directory_sharing: bool,
}

/// Builds the protocol state of a fresh session: the three channel
/// clients, the clipboard client existing exactly when the clipboard is
/// allowed.
pub fn build_rdp_client(params: ConnectParams, pin: String) -> (c: RdpClient)
    ensures
        c.wf(),
        c.global.screen_width == params.screen_width,
        c.global.screen_height == params.screen_height,
        c.rdpdr.cert_der@ == params.cert_der@,
        c.rdpdr.key_der@ == params.key_der@,
        c.rdpdr.pin@ == pin@,
        c.rdpdr.allow_directory_sharing == params.allow_directory_sharing,
        c.rdpdr.pending@ =~= Map::<u32, rdpdr::SharedDirectoryOp>::empty(),
        c.rdpdr.handles@ =~= Map::<u32, crate::path::UnixPath>::empty(),
        c.rdpdr.active_drives@.len() == 0,
        (c.cliprdr is Some) == params.allow_clipboard,
        c.cliprdr matches Option::Some(cl) ==> cl.staged@.len() == 0,
{
    let rdpdr_client = rdpdr::Client::new(rdpdr::Config {
        cert_der: params.cert_der,
        key_der: params.key_der,
        pin,
        allow_directory_sharing: params.allow_directory_sharing,
    });
    let cliprdr_client = if params.allow_clipboard {
        Some(cliprdr::Client::new())
    } else {
        None
    };
    RdpClient {
        global: GlobalClient {
            screen_width: params.screen_width,
            screen_height: params.screen_height,
        },
        rdpdr: rdpdr_client,
        cliprdr: cliprdr_client,
    }
}

/// The session handle.  The socket descriptor and the host reference are
/// fixed at construction; every operation leaves them untouched.
pub struct Client {
    /// The protocol state, guarded by a mutex outside this crate.
    pub rdp_client: RdpClient,
    /// The raw descriptor of the underlying socket, cached for readiness
    /// polling; immutable for the whole session lifetime.
    pub tcp_fd: usize,
    /// The opaque host-side reference used when calling back out.
    pub go_ref: usize,
}

impl Client {
    pub open spec fn wf(&self) -> bool {
        self.rdp_client.wf()
    }

    /// The descriptor and host reference never change.
    pub open spec fn handle_unchanged(self, pre: Client) -> bool {
        self.tcp_fd == pre.tcp_fd && self.go_ref == pre.go_ref
    }

    pub fn new(rdp_client: RdpClient, tcp_fd: usize, go_ref: usize) -> (c: Client)
        requires
            rdp_client.wf(),
        ensures
            c.wf(),
            c.rdp_client == rdp_client,
            c.tcp_fd == tcp_fd,
            c.go_ref == go_ref,
    {
        Client { rdp_client, tcp_fd, go_ref }
    }

    /// Caches host-copied text and advertises it to the server; a silent
    /// no-op when the clipboard was disabled at connect time.
    pub fn update_clipboard(&mut self, data: Vec<u8>) -> (out: Vec<SessionOutput>)
        requires
            old(self).wf(),
        ensures
            final(self).wf(),
            final(self).handle_unchanged(*old(self)),
            final(self).rdp_client.global == old(self).rdp_client.global,
            final(self).rdp_client.rdpdr == old(self).rdp_client.rdpdr,
            old(self).rdp_client.cliprdr is None ==> (
                out@.len() == 0 && final(self).rdp_client.cliprdr is None
            ),
            old(self).rdp_client.cliprdr is Some ==> (
                (final(self).rdp_client.cliprdr matches Option::Some(cl)
                    && cl.staged@ == data@)
                && out@.len() == 1
                && (out@[0] matches SessionOutput::Cliprdr(cliprdr::ClipboardPdu::FormatList {
                        format_ids,
                    })
                    && format_ids@ =~= seq![cliprdr::CF_UNICODETEXT])
            ),
    {
        match &mut self.rdp_client.cliprdr {
            Some(clip) => {
                let w = clip.update_clipboard(data);
                map_clip_outputs(w)
            },
            None => Vec::new(),
        }
    }

    /// Announces a new drive that is ready to be redirected over RDP.
    pub fn handle_tdp_sd_announce(&mut self, sd_announce: SharedDirectoryAnnounce) -> (out: Vec<
        SessionOutput,
    >)
        requires
            old(self).wf(),
        ensures
            final(self).wf(),
            final(self).handle_unchanged(*old(self)),
            final(self).rdp_client.global == old(self).rdp_client.global,
            final(self).rdp_client.cliprdr_unchanged(old(self).rdp_client),
            final(self).rdp_client.rdpdr.config_unchanged(old(self).rdp_client.rdpdr),
            final(self).rdp_client.rdpdr.pending@ == old(self).rdp_client.rdpdr.pending@,
            final(self).rdp_client.rdpdr.handles@ == old(self).rdp_client.rdpdr.handles@,
            final(self).rdp_client.rdpdr.active_drives@ =~= old(
                self,
            ).rdp_client.rdpdr.active_drives@ + seq![sd_announce.directory_id],
            out@.len() == 1,
            (out@[0] matches SessionOutput::Rdpdr(rdpdr::ClientPdu::DeviceListAnnounce(a))
                && a.device_list@.len() == 1
                && a.device_list@[0].device_id == sd_announce.directory_id
                && !a.device_list@[0].is_smartcard
                && a.device_list@[0].name@ == sd_announce.name@),
    {
        let new_drive = ClientDeviceListAnnounce::new_drive(
            sd_announce.directory_id,
            sd_announce.name,
        );
        let ghost ids = new_drive.device_list@.map_values(|d: rdpdr::DeviceAnnounce| d.device_id);
        let w = self.rdp_client.rdpdr.write_client_device_list_announce(new_drive);
        proof {
            assert(ids =~= seq![sd_announce.directory_id]);
        }
        map_rdpdr_outputs(w)
    }

    /// Submits one pointer event.
    pub fn write_rdp_pointer(&mut self, pointer: CGOMousePointerEvent) -> (out: Vec<SessionOutput>)
        requires
            old(self).wf(),
        ensures
            final(self).wf(),
            final(self).handle_unchanged(*old(self)),
            *final(self) == *old(self),
            out@.len() == 1,
            out@[0] == SessionOutput::GlobalInput(RdpEvent::Pointer(
                crate::events::spec_pointer_from(pointer),
            )),
    {
        let p = PointerEvent::from(pointer);
        let mut out: Vec<SessionOutput> = Vec::new();
        out.push(SessionOutput::GlobalInput(RdpEvent::Pointer(p)));
        out
    }

    /// Submits one keyboard event; one key code per call.
    pub fn write_rdp_keyboard(&mut self, key: CGOKeyboardEvent) -> (out: Vec<SessionOutput>)
        requires
            old(self).wf(),
        ensures
            final(self).wf(),
            final(self).handle_unchanged(*old(self)),
            *final(self) == *old(self),
            out@.len() == 1,
            out@[0] == SessionOutput::GlobalInput(RdpEvent::Key(
                crate::events::spec_key_from(key),
            )),
    {
        let k = KeyboardEvent::from(key);
        let mut out: Vec<SessionOutput> = Vec::new();
        out.push(SessionOutput::GlobalInput(RdpEvent::Key(k)));
        out
    }

    /// Forwards a TDP info response to the session.
    pub fn handle_tdp_sd_info_response(&mut self, res: SharedDirectoryInfoResponse) -> (out: Vec<
        SessionOutput,
    >)
        requires
            old(self).wf(),
        ensures
            final(self).wf(),
            final(self).handle_unchanged(*old(self)),
            final(self).rdp_client.global == old(self).rdp_client.global,
            final(self).rdp_client.cliprdr_unchanged(old(self).rdp_client),
            exists|w: Seq<RdpdrOutput>|
                rdpdr::info_response_post(
                    old(self).rdp_client.rdpdr,
                    final(self).rdp_client.rdpdr,
                    res,
                    w,
                ) && out@ == spec_rdpdr_outs(w),
    {
        self.rdp_client.handle_tdp_sd_info_response(res)
    }

    /// Forwards a TDP create response to the session.
    pub fn handle_tdp_sd_create_response(
        &mut self,
        res: SharedDirectoryCreateResponse,
    ) -> (out: Vec<SessionOutput>)
        requires
            old(self).wf(),
        ensures
            final(self).wf(),
            final(self).handle_unchanged(*old(self)),
            final(self).rdp_client.global == old(self).rdp_client.global,
            final(self).rdp_client.cliprdr_unchanged(old(self).rdp_client),
            exists|w: Seq<RdpdrOutput>|
                rdpdr::create_response_post(
                    old(self).rdp_client.rdpdr,
                    final(self).rdp_client.rdpdr,
                    res,
                    w,
                ) && out@ == spec_rdpdr_outs(w),
    {
        self.rdp_client.handle_tdp_sd_create_response(res)
    }

    /// Forwards a TDP delete response to the session.
    pub fn handle_tdp_sd_delete_response(
        &mut self,
        res: SharedDirectoryDeleteResponse,
    ) -> (out: Vec<SessionOutput>)
        requires
            old(self).wf(),
        ensures
            final(self).wf(),
            final(self).handle_unchanged(*old(self)),
            final(self).rdp_client.global == old(self).rdp_client.global,
            final(self).rdp_client.cliprdr_unchanged(old(self).rdp_client),
            exists|w: Seq<RdpdrOutput>|
                rdpdr::delete_response_post(
                    old(self).rdp_client.rdpdr,
                    final(self).rdp_client.rdpdr,
                    res,
                    w,
                ) && out@ == spec_rdpdr_outs(w),
    {
        self.rdp_client.handle_tdp_sd_delete_response(res)
    }

    /// Forwards a TDP list response to the session.
    pub fn handle_tdp_sd_list_response(&mut self, res: SharedDirectoryListResponse) -> (out: Vec<
        SessionOutput,
    >)
        requires
            old(self).wf(),
        ensures
            final(self).wf(),
            final(self).handle_unchanged(*old(self)),
            final(self).rdp_client.global == old(self).rdp_client.global,
            final(self).rdp_client.cliprdr_unchanged(old(self).rdp_client),
            exists|w: Seq<RdpdrOutput>|
                rdpdr::list_response_post(
                    old(self).rdp_client.rdpdr,
                    final(self).rdp_client.rdpdr,
                    res,
                    w,
                ) && out@ == spec_rdpdr_outs(w),
    {
        self.rdp_client.handle_tdp_sd_list_response(res)
    }

    /// Forwards a TDP read response to the session.
    pub fn handle_tdp_sd_read_response(&mut self, res: SharedDirectoryReadResponse) -> (out: Vec<
        SessionOutput,
    >)
        requires
            old(self).wf(),
        ensures
            final(self).wf(),
            final(self).handle_unchanged(*old(self)),
            final(self).rdp_client.global == old(self).rdp_client.global,
            final(self).rdp_client.cliprdr_unchanged(old(self).rdp_client),
            exists|w: Seq<RdpdrOutput>|
                rdpdr::read_response_post(
                    old(self).rdp_client.rdpdr,
                    final(self).rdp_client.rdpdr,
                    res,
                    w,
                ) && out@ == spec_rdpdr_outs(w),
    {
        self.rdp_client.handle_tdp_sd_read_response(res)
    }

    /// Forwards a TDP write response to the session.
    pub fn handle_tdp_sd_write_response(&mut self, res: SharedDirectoryWriteResponse) -> (out: Vec<
        SessionOutput,
    >)
        requires
            old(self).wf(),
        ensures
            final(self).wf(),
            final(self).handle_unchanged(*old(self)),
            final(self).rdp_client.global == old(self).rdp_client.global,
            final(self).rdp_client.cliprdr_unchanged(old(self).rdp_client),
            exists|w: Seq<RdpdrOutput>|
                rdpdr::write_response_post(
                    old(self).rdp_client.rdpdr,
                    final(self).rdp_client.rdpdr,
                    res,
                    w,
                ) && out@ == spec_rdpdr_outs(w),
    {
        self.rdp_client.handle_tdp_sd_write_response(res)
    }

    /// Forwards a TDP move response to the session.
    pub fn handle_tdp_sd_move_response(&mut self, res: SharedDirectoryMoveResponse) -> (out: Vec<
        SessionOutput,
    >)
        requires
            old(self).wf(),
        ensures
            final(self).wf(),
            final(self).handle_unchanged(*old(self)),
            final(self).rdp_client.global == old(self).rdp_client.global,
            final(self).rdp_client.cliprdr_unchanged(old(self).rdp_client),
            exists|w: Seq<RdpdrOutput>|
                rdpdr::move_response_post(
                    old(self).rdp_client.rdpdr,
                    final(self).rdp_client.rdpdr,
                    res,
                    w,
                ) && out@ == spec_rdpdr_outs(w),
    {
        self.rdp_client.handle_tdp_sd_move_response(res)
    }
}

/// How one pump iteration ended, as classified at the transport boundary:
/// a PDU was read and dispatched, the stream reached its end, or the read
/// or dispatch failed.
#[derive(Clone, Copy, Debug, PartialEq, Eq, Structural)]
pub enum ReadStatus {
    Handled,
    Eof,
    Failed,
}

/// What the pump loop does next.
#[derive(Clone, Copy, Debug, PartialEq, Eq, Structural)]
pub enum PumpDecision {
    /// Poll and read again.
    KeepGoing,
    /// Leave the loop with no error: the stream ended.
    ExitClean,
    /// Leave the loop reporting an error.
    ExitError,
}

/// The pump loop's next step.  End-of-stream is a clean termination; any
/// failure — a read error, or a frame the host refused — ends the loop
/// with an error.
pub open spec fn spec_pump_decision(status: ReadStatus, bitmap_forward_ok: bool) -> PumpDecision {
    match status {
        ReadStatus::Eof => PumpDecision::ExitClean,
        ReadStatus::Failed => PumpDecision::ExitError,
        ReadStatus::Handled => if bitmap_forward_ok {
            PumpDecision::KeepGoing
        } else {
            PumpDecision::ExitError
        },
    }
}

/// Executable twin of `spec_pump_decision`.
pub fn pump_decision(status: ReadStatus, bitmap_forward_ok: bool) -> (d: PumpDecision)
    ensures
        d == spec_pump_decision(status, bitmap_forward_ok),
{
    match status {
        ReadStatus::Eof => PumpDecision::ExitClean,
        ReadStatus::Failed => PumpDecision::ExitError,
        ReadStatus::Handled => if bitmap_forward_ok {
            PumpDecision::KeepGoing
        } else {
            PumpDecision::ExitError
        },
    }
}

/// End-of-stream always ends the pump loop cleanly, whatever the state of
/// bitmap forwarding.
pub proof fn lemma_eof_exits_cleanly(bitmap_forward_ok: bool)
    ensures
        spec_pump_decision(ReadStatus::Eof, bitmap_forward_ok) == PumpDecision::ExitClean,
{
}

/// The status handed back to the host for an operation's outcome.
pub fn cgo_code(ok: bool) -> (c: CGOErrCode)
    ensures
        ok <==> c == CGOErrCode::ErrCodeSuccess,
        !ok <==> c == CGOErrCode::ErrCodeFailure,
{
    if ok {
        CGOErrCode::ErrCodeSuccess
    } else {
        CGOErrCode::ErrCodeFailure
    }
}

} // verus!

verus! {

impl RdpClient {
    /// Delivery of a surfaced TDP request failed at the host boundary: the
    /// drive bridge removes the pending entry and answers the RDP request
    /// with an error status.
    pub fn fail_pending(&mut self, completion_id: u32) -> (out: Vec<SessionOutput>)
        requires
            old(self).wf(),
        ensures
            final(self).wf(),
            final(self).global == old(self).global,
            final(self).cliprdr_unchanged(*old(self)),
            exists|w: Seq<RdpdrOutput>|
                rdpdr::fail_pending_post(old(self).rdpdr, final(self).rdpdr, completion_id, w)
                    && out@ == spec_rdpdr_outs(w),
    {
        let w = self.rdpdr.fail_pending(completion_id);
        let ghost wg = w@;
        let out = map_rdpdr_outputs(w);
        proof {
            assert(rdpdr::fail_pending_post(old(self).rdpdr, self.rdpdr, completion_id, wg)
                && out@ == spec_rdpdr_outs(wg));
        }
        out
    }
}

impl Client {
    /// Delivery of a surfaced TDP request failed at the host boundary: the
    /// pending entry is removed and the RDP request fails with an error
    /// status.
    pub fn fail_pending(&mut self, completion_id: u32) -> (out: Vec<SessionOutput>)
        requires
            old(self).wf(),
        ensures
            final(self).wf(),
            final(self).handle_unchanged(*old(self)),
            final(self).rdp_client.global == old(self).rdp_client.global,
            final(self).rdp_client.cliprdr_unchanged(old(self).rdp_client),
            exists|w: Seq<RdpdrOutput>|
                rdpdr::fail_pending_post(
                    old(self).rdp_client.rdpdr,
                    final(self).rdp_client.rdpdr,
                    completion_id,
                    w,
                ) && out@ == spec_rdpdr_outs(w),
    {
        self.rdp_client.fail_pending(completion_id)
    }
}

} // verus!
