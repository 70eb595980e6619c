//! The `cliprdr` channel client: a bidirectional text clipboard using the
//! `CF_UNICODETEXT` format only.
//!
//! Outbound: the host stages UTF-8 text and the client advertises the
//! format; when the server asks for the data, the staged text goes out as
//! NUL-terminated UTF-16LE.  Inbound: remote-copied UTF-16LE text is
//! converted to UTF-8 (without the trailing NUL) and surfaced to the host.

use vstd::prelude::*;
use crate::unicode::{
    le_bytes_to_utf16, le_bytes_units, scalars_to_utf8, scalars_to_utf8_bytes, scalars_to_units,
    scalars_to_utf16, utf16_scalars, utf16_to_le_bytes, utf16_to_scalars, units_le_bytes,
    utf8_scalars, utf8_to_scalars,
};

verus! {

/// The clipboard format id of NUL-terminated UTF-16LE text.
pub const CF_UNICODETEXT: u32 = 13;

/// A PDU on the `cliprdr` channel, already decoded into its record.
#[derive(Debug)]
pub enum ClipboardPdu {
    /// The sender advertises the formats it can deliver.
    FormatList { format_ids: Vec<u32> },
    /// Answers a format list.
    FormatListResponse { ok: bool },
    /// Asks for the clipboard data in one advertised format.
    FormatDataRequest { format_id: u32 },
    /// Delivers the clipboard data.
    FormatDataResponse { data: Vec<u8> },
}

/// One artifact produced by the clipboard client, in emission order.
#[derive(Debug)]
pub enum ClipboardOutput {
    /// Write this PDU to the `cliprdr` channel.
    Pdu(ClipboardPdu),
    /// Surface remote-copied UTF-8 text to the host.
    RemoteCopy(Vec<u8>),
}

/// The trailing NUL unit stripped: drops one final 0 code unit, if present.
pub open spec fn strip_nul_unit(u: Seq<u16>) -> Seq<u16> {
    if u.len() > 0 && u[u.len() - 1] == 0 {
        u.drop_last()
    } else {
        u
    }
}

/// The staged UTF-8 text as the wire bytes of the format-data reply:
/// UTF-16LE with one trailing NUL unit.
pub open spec fn staged_wire_bytes(staged: Seq<u8>) -> Seq<u8> {
    units_le_bytes(scalars_to_units(utf8_scalars(staged)).push(0u16))
}

/// Inbound wire bytes as the UTF-8 text surfaced to the host: decoded from
/// UTF-16LE with the trailing NUL removed.
pub open spec fn remote_copy_text(data: Seq<u8>) -> Seq<u8> {
    scalars_to_utf8(utf16_scalars(strip_nul_unit(le_bytes_units(data))))
}

/// The `cliprdr` channel client.
pub struct Client {
    /// The last text the host copied, staged as UTF-8 until the server
    /// asks for it.
    pub staged: Vec<u8>,
}

impl Client {
    pub fn new() -> (c: Client)
        ensures
            c.staged@.len() == 0,
    {
        Client { staged: Vec::new() }
    }

    /// Stages new local clipboard text and advertises `CF_UNICODETEXT` to
    /// the server.
    pub fn update_clipboard(&mut self, text: Vec<u8>) -> (out: Vec<ClipboardOutput>)
        ensures
            final(self).staged@ == text@,
            out@.len() == 1,
            (out@[0] matches ClipboardOutput::Pdu(ClipboardPdu::FormatList { format_ids })
                && format_ids@ =~= seq![CF_UNICODETEXT]),
    {
        self.staged = text;
        let mut format_ids: Vec<u32> = Vec::new();
        format_ids.push(CF_UNICODETEXT);
        let mut out: Vec<ClipboardOutput> = Vec::new();
        out.push(ClipboardOutput::Pdu(ClipboardPdu::FormatList { format_ids }));
        out
    }

    /// Handles one inbound `cliprdr` PDU.
    pub fn handle(&mut self, pdu: ClipboardPdu) -> (out: Vec<ClipboardOutput>)
        ensures
            clip_handle_post(*old(self), *final(self), pdu, out@),
    {
        match pdu {
            ClipboardPdu::FormatList { format_ids } => {
                let mut out: Vec<ClipboardOutput> = Vec::new();
                out.push(ClipboardOutput::Pdu(ClipboardPdu::FormatListResponse { ok: true }));
                let mut offered = false;
                let mut i: usize = 0;
                while i < format_ids.len()
                    invariant
                        i <= format_ids@.len(),
                        offered == format_ids@.subrange(0, i as int).contains(CF_UNICODETEXT),
                    decreases format_ids@.len() - i,
                {
                    let ghost pre = format_ids@.subrange(0, i as int);
                    if format_ids[i] == CF_UNICODETEXT {
                        offered = true;
                    }
                    proof {
                        let cur = format_ids@.subrange(0, i + 1);
                        assert(cur.drop_last() =~= pre);
                        assert(cur.last() == format_ids@[i as int]);
                        if pre.contains(CF_UNICODETEXT) {
                            let k = choose|k: int| 0 <= k < pre.len() && pre[k] == CF_UNICODETEXT;
                            assert(cur[k] == CF_UNICODETEXT);
                        }
                        if format_ids@[i as int] == CF_UNICODETEXT {
                            assert(cur[i as int] == CF_UNICODETEXT);
                        }
                        if !pre.contains(CF_UNICODETEXT)
                            && format_ids@[i as int] != CF_UNICODETEXT {
                            assert(!cur.contains(CF_UNICODETEXT)) by {
                                if cur.contains(CF_UNICODETEXT) {
                                    let k = choose|k: int|
                                        0 <= k < cur.len() && cur[k] == CF_UNICODETEXT;
                                    if k < i as int {
                                        assert(pre[k] == CF_UNICODETEXT);
                                    }
                                }
                            }
                        }
                    }
                    i = i + 1;
                }
                proof {
                    assert(format_ids@.subrange(0, format_ids@.len() as int) =~= format_ids@);
                }
                if offered {
                    out.push(ClipboardOutput::Pdu(ClipboardPdu::FormatDataRequest {
                        format_id: CF_UNICODETEXT,
                    }));
                }
                out
            },
            ClipboardPdu::FormatListResponse { .. } => Vec::new(),
            ClipboardPdu::FormatDataRequest { format_id } => {
                let mut out: Vec<ClipboardOutput> = Vec::new();
                if format_id == CF_UNICODETEXT {
                    let scalars = utf8_to_scalars(&self.staged);
                    let mut units = scalars_to_utf16(&scalars);
                    units.push(0);
                    let data = utf16_to_le_bytes(&units);
                    out.push(ClipboardOutput::Pdu(ClipboardPdu::FormatDataResponse { data }));
                } else {
                    out.push(ClipboardOutput::Pdu(ClipboardPdu::FormatDataResponse {
                        data: Vec::new(),
                    }));
                }
                out
            },
            ClipboardPdu::FormatDataResponse { data } => {
                let mut units = le_bytes_to_utf16(&data);
                let n = units.len();
                if n > 0 && units[n - 1] == 0 {
                    let ghost before = units@;
                    units.pop();
                    proof {
                        assert(units@ =~= before.drop_last());
                    }
                }
                let scalars = utf16_to_scalars(&units);
                let text = scalars_to_utf8_bytes(&scalars);
                let mut out: Vec<ClipboardOutput> = Vec::new();
                out.push(ClipboardOutput::RemoteCopy(text));
                out
            },
        }
    }
}

} // verus!

verus! {

/// What `handle` guarantees, stated once and reused by the session
/// multiplexer.
pub open spec fn clip_handle_post(
    pre: Client,
    post: Client,
    pdu: ClipboardPdu,
    out: Seq<ClipboardOutput>,
) -> bool {
    &&& (post.staged@ == pre.staged@)
    &&& (// A format list: acknowledge, and ask for the text if offered.
            (pdu matches ClipboardPdu::FormatList { format_ids } ==> (
                (format_ids@.contains(CF_UNICODETEXT) ==> out.len() == 2
                    && out[0] == ClipboardOutput::Pdu(ClipboardPdu::FormatListResponse {
                        ok: true,
                    })
                    && out[1] == ClipboardOutput::Pdu(ClipboardPdu::FormatDataRequest {
                        format_id: CF_UNICODETEXT,
                    }))
                && (!format_ids@.contains(CF_UNICODETEXT) ==> out =~= seq![
                    ClipboardOutput::Pdu(ClipboardPdu::FormatListResponse { ok: true }),
                ])
            )))
    &&& (// A response to our own format list: nothing to do.
            pdu matches ClipboardPdu::FormatListResponse { .. } ==> out.len() == 0)
    &&& (// The server asks for the staged text.
            (pdu matches ClipboardPdu::FormatDataRequest { format_id } ==> (
                out.len() == 1
                && (format_id == CF_UNICODETEXT ==> (
                    out[0] matches ClipboardOutput::Pdu(ClipboardPdu::FormatDataResponse { data })
                    && data@ == staged_wire_bytes(pre.staged@)
                ))
                && (format_id != CF_UNICODETEXT ==> (
                    out[0] matches ClipboardOutput::Pdu(ClipboardPdu::FormatDataResponse { data })
                    && data@ == Seq::<u8>::empty()
                ))
            )))
    &&& (// Remote-copied text arrives: surface it to the host as UTF-8.
            (pdu matches ClipboardPdu::FormatDataResponse { data } ==> (
                out.len() == 1
                && (out[0] matches ClipboardOutput::RemoteCopy(text)
                    && text@ == remote_copy_text(data@))
            )))
}

} // verus!
