//! Assembly of well-formed requests from an instruction, a target qubit id,
//! option flags, and optional extended command details.
//!
//! A request is one control header, followed by at most one command header,
//! followed by at most one extended command header. The control header's
//! `length` field is the byte count of whatever headers follow it: 0 for a
//! header-only HELLO, 4 for a plain command, 20 for an extended command.
//! The builder rejects an unrecognized instruction byte with `Unsupported`
//! before anything is sent; it performs no semantic validation of
//! option/instruction combinations, which is left to the caller.

use vstd::prelude::*;

use crate::codec::{
    cmd_header_bytes, cqc_header_bytes, encode_cmd_header, encode_cqc_header, encode_xtra_header,
    xtra_header_bytes,
};
use crate::error::CqcError;
use crate::hdr::{
    instr_from_u8, instr_of_byte, CmdHeader, CmdOpt, CqcHeader, CtrlType, Instr, XtraCmdHeader,
    CQC_CMD_HDR_LENGTH, CQC_CMD_XTRA_LENGTH, CQC_VERSION,
};

verus! {

/// Addressing of a remote peer for commands that involve a second node.
#[derive(Clone, Copy, Debug, PartialEq, Eq, Structural)]
pub struct RemoteId {
    /// Application id on the remote node.
    pub remote_app_id: u16,
    /// Address of the remote node.
    pub remote_node: u32,
    /// Port of the remote node for control information.
    pub remote_port: u16,
}

/// One request: a control header, an optional command header, and optional
/// extended command details. Entities are built per call and serialized
/// immediately; none are retained across calls.
#[derive(Clone, Copy, Debug, PartialEq, Eq, Structural)]
pub struct Request {
    /// Outer framing header.
    pub cqc_hdr: CqcHeader,
    /// The command to execute, absent for a header-only message.
    pub cmd: Option<CmdHeader>,
    /// Extended command details, present only together with a command.
    pub xtra: Option<XtraCmdHeader>,
}

impl Request {
    /// A request is well formed when extended details only ride along with
    /// a command and the control header's `length` equals the byte count
    /// of the headers that follow it. `length` is the only framing field
    /// on the wire; there is no end-of-message marker.
    pub open spec fn wf(self) -> bool {
        &&& self.xtra is Some ==> self.cmd is Some
        &&& self.cqc_hdr.length == self.spec_body_len()
    }

    /// The byte count of the headers that follow the control header.
    pub open spec fn spec_body_len(self) -> int {
        (if self.cmd is Some { CQC_CMD_HDR_LENGTH as int } else { 0 })
            + (if self.xtra is Some { CQC_CMD_XTRA_LENGTH as int } else { 0 })
    }
}

/// The full serialized form of a request: control header bytes, then the
/// command header bytes if present, then the extended header bytes if
/// present.
pub open spec fn request_bytes(r: Request) -> Seq<u8> {
    cqc_header_bytes(r.cqc_hdr) + (match r.cmd {
        Some(c) => cmd_header_bytes(c),
        None => Seq::<u8>::empty(),
    }) + (match r.xtra {
        Some(x) => xtra_header_bytes(x),
        None => Seq::<u8>::empty(),
    })
}

/// For a well-formed request the control header's `length` field equals
/// the byte count of everything serialized after the control header.
pub proof fn lemma_request_framing(r: Request)
    requires
        r.wf(),
    ensures
        request_bytes(r).len() == 8 + r.cqc_hdr.length,
{
}

/// Serialize a request.
pub fn encode_request(r: &Request) -> (out: Vec<u8>)
    ensures
        out@ == request_bytes(*r),
{
    let mut out = encode_cqc_header(&r.cqc_hdr);
    match &r.cmd {
        Some(c) => {
            let mut b = encode_cmd_header(c);
            out.append(&mut b);
        },
        None => {},
    }
    match &r.xtra {
        Some(x) => {
            let mut b = encode_xtra_header(x);
            out.append(&mut b);
        },
        None => {},
    }
    proof {
        assert(out@ =~= request_bytes(*r));
    }
    out
}

/// The header-only HELLO request of an application: a zero-length body
/// used as a liveness probe.
pub open spec fn spec_hello_request(app_id: u16) -> Request {
    Request {
        cqc_hdr: CqcHeader {
            version: CQC_VERSION,
            ctrl_type: CtrlType::Hello,
            app_id,
            length: 0,
        },
        cmd: None,
        xtra: None,
    }
}

/// The command request of an application: control type COMMAND, and a
/// body of 4 bytes without extended details or 20 bytes with them.
pub open spec fn spec_cmd_request(
    app_id: u16,
    instr: Instr,
    qubit_id: u16,
    options: CmdOpt,
    xtra: Option<XtraCmdHeader>,
) -> Request {
    Request {
        cqc_hdr: CqcHeader {
            version: CQC_VERSION,
            ctrl_type: CtrlType::Command,
            app_id,
            length: if xtra is Some { 20 } else { 4 },
        },
        cmd: Some(CmdHeader { qubit_id, instr, options }),
        xtra,
    }
}

/// Extended command details that name a remote peer and nothing else.
pub open spec fn spec_remote_xtra(xtra_qubit_id: u16, remote: RemoteId) -> XtraCmdHeader {
    XtraCmdHeader {
        xtra_qubit_id,
        r_app_id: remote.remote_app_id,
        r_node: remote.remote_node,
        cmd_length: 0,
        r_port: remote.remote_port,
        steps: 0,
        unused: 0,
    }
}

/// Extended command details that name a second operand qubit and nothing
/// else.
pub open spec fn spec_second_qubit_xtra(xtra_qubit_id: u16) -> XtraCmdHeader {
    XtraCmdHeader {
        xtra_qubit_id,
        r_app_id: 0,
        r_node: 0,
        cmd_length: 0,
        r_port: 0,
        steps: 0,
        unused: 0,
    }
}

/// Every request the builder produces is well formed: without an extended
/// header the control header's `length` is 4, with one it is 20, and a
/// HELLO has length 0.
pub proof fn lemma_built_requests_wf(
    app_id: u16,
    instr: Instr,
    qubit_id: u16,
    options: CmdOpt,
    xtra: Option<XtraCmdHeader>,
)
    ensures
        spec_hello_request(app_id).wf(),
        spec_cmd_request(app_id, instr, qubit_id, options, xtra).wf(),
        spec_cmd_request(app_id, instr, qubit_id, options, xtra).cqc_hdr.length == (
        if xtra is Some { 20int } else { 4int }),
{
}

/// Builds requests on behalf of one application id.
#[derive(Clone, Copy, Debug, PartialEq, Eq, Structural)]
pub struct Builder {
    /// The application id stamped into every built control header.
    pub app_id: u16,
}

impl Builder {
    pub fn new(app_id: u16) -> (r: Builder)
        ensures
            r.app_id == app_id,
    {
        Builder { app_id }
    }

    /// The header-only HELLO liveness probe.
    pub fn hello(&self) -> (r: Request)
        ensures
            r == spec_hello_request(self.app_id),
    {
        Request {
            cqc_hdr: CqcHeader {
                version: CQC_VERSION,
                ctrl_type: CtrlType::Hello,
                app_id: self.app_id,
                length: 0,
            },
            cmd: None,
            xtra: None,
        }
    }

    /// Assemble a command request from a raw instruction byte. Fails with
    /// `Unsupported` when the byte names no defined instruction, before
    /// any bytes are sent; never silently proceeds on an unrecognized
    /// code.
    pub fn build(&self, instr: u8, qubit_id: u16, options: CmdOpt, xtra: Option<XtraCmdHeader>)
        -> (r: Result<Request, CqcError>)
        ensures
            instr_of_byte(instr) is Some ==> r == Ok::<Request, CqcError>(
                spec_cmd_request(self.app_id, instr_of_byte(instr)->Some_0, qubit_id, options, xtra),
            ),
            instr_of_byte(instr) is None ==> r == Err::<Request, CqcError>(CqcError::Unsupported),
    {
        let ins = match instr_from_u8(instr) {
            Some(ins) => ins,
            None => {
                return Err(CqcError::Unsupported);
            },
        };
        Ok(self.cmd(ins, qubit_id, options, xtra))
    }

    /// Assemble a command request from an already-validated instruction.
    pub fn cmd(&self, instr: Instr, qubit_id: u16, options: CmdOpt, xtra: Option<XtraCmdHeader>)
        -> (r: Request)
        ensures
            r == spec_cmd_request(self.app_id, instr, qubit_id, options, xtra),
    {
        let length: u32 = match &xtra {
            Some(_) => 20,
            None => 4,
        };
        Request {
            cqc_hdr: CqcHeader {
                version: CQC_VERSION,
                ctrl_type: CtrlType::Command,
                app_id: self.app_id,
                length,
            },
            cmd: Some(CmdHeader { qubit_id, instr, options }),
            xtra,
        }
    }

    /// The MEASURE command for one qubit.
    pub fn cmd_measure(&self, qubit_id: u16, options: CmdOpt) -> (r: Request)
        ensures
            r == spec_cmd_request(self.app_id, Instr::Measure, qubit_id, options, None),
    {
        self.cmd(Instr::Measure, qubit_id, options, None)
    }

    /// The NEW command asking for a fresh qubit.
    pub fn cmd_new(&self, qubit_id: u16, options: CmdOpt) -> (r: Request)
        ensures
            r == spec_cmd_request(self.app_id, Instr::New, qubit_id, options, None),
    {
        self.cmd(Instr::New, qubit_id, options, None)
    }

    /// The RECV command asking to receive a qubit.
    pub fn cmd_recv(&self, qubit_id: u16, options: CmdOpt) -> (r: Request)
        ensures
            r == spec_cmd_request(self.app_id, Instr::Recv, qubit_id, options, None),
    {
        self.cmd(Instr::Recv, qubit_id, options, None)
    }

    /// The extended SEND command transferring a qubit to the named remote
    /// peer.
    pub fn cmd_send(&self, qubit_id: u16, options: CmdOpt, remote: RemoteId) -> (r: Request)
        ensures
            r == spec_cmd_request(
                self.app_id,
                Instr::Send,
                qubit_id,
                options,
                Some(spec_remote_xtra(0, remote)),
            ),
    {
        self.cmd(
            Instr::Send,
            qubit_id,
            options,
            Some(
                XtraCmdHeader {
                    xtra_qubit_id: 0,
                    r_app_id: remote.remote_app_id,
                    r_node: remote.remote_node,
                    cmd_length: 0,
                    r_port: remote.remote_port,
                    steps: 0,
                    unused: 0,
                },
            ),
        )
    }

    /// The extended EPR command requesting establishment of an entangled
    /// pair with the named remote peer.
    pub fn cmd_epr(&self, qubit_id: u16, options: CmdOpt, remote: RemoteId) -> (r: Request)
        ensures
            r == spec_cmd_request(
                self.app_id,
                Instr::Epr,
                qubit_id,
                options,
                Some(spec_remote_xtra(0, remote)),
            ),
    {
        self.cmd(
            Instr::Epr,
            qubit_id,
            options,
            Some(
                XtraCmdHeader {
                    xtra_qubit_id: 0,
                    r_app_id: remote.remote_app_id,
                    r_node: remote.remote_node,
                    cmd_length: 0,
                    r_port: remote.remote_port,
                    steps: 0,
                    unused: 0,
                },
            ),
        )
    }
}

} // verus!
