//! The client session and its correlation state machine.
//!
//! A session owns one unmultiplexed byte stream. There are no request
//! identifiers, so correlation is purely positional: every operation sends
//! exactly one request and then blocks reading until the specific reply
//! shape for that operation is fully consumed, or fails. After a codec or
//! protocol error the framing position of the stream is no longer
//! trustworthy and the session must be replaced, not reused.
//!
//! The session here is in-memory: bytes the session sends accumulate in
//! `sent`, and reply bytes are consumed from `rx`. A transport wrapper
//! outside this library moves those bytes over a real connection, reading
//! reply headers with the decoders of `crate::codec` and handing completed
//! replies to `interpret_reply`.

use vstd::prelude::*;

use crate::builder::{
    encode_request, request_bytes, spec_cmd_request, spec_hello_request, spec_remote_xtra,
    spec_second_qubit_xtra, Builder, RemoteId, Request,
};
use crate::codec::{
    cqc_header_bytes, decode_notify_header_at, lemma_cqc_header_round_trip,
    lemma_notify_header_round_trip, notify_header_bytes, parse_cqc_header_at,
    parse_notify_header_at, parse_u16, parse_u32, read_u16_at, read_u32_at,
};
use crate::error::{spec_classify, classify_mismatch, CodecError, CqcError};
use crate::hdr::{
    ctrl_type_from_u8, ctrl_type_of_byte, instr_of_byte, CmdOpt, CqcHeader, CtrlType, Instr,
    NotifyHeader, XtraCmdHeader,
};

verus! {

/// Whether a reply of this control type carries a notify header after the
/// control header. The shape of a response is determined entirely by its
/// control type; the four server error kinds and the plain acknowledgement
/// kinds are header-only.
pub open spec fn carries_notify(t: CtrlType) -> bool {
    t is Recv || t is EprOk || t is Measout || t is InfTime || t is NewOk
}

/// Executable mirror of `carries_notify`.
pub fn has_notify(t: CtrlType) -> (r: bool)
    ensures
        r == carries_notify(t),
{
    match t {
        CtrlType::Recv => true,
        CtrlType::EprOk => true,
        CtrlType::Measout => true,
        CtrlType::InfTime => true,
        CtrlType::NewOk => true,
        _ => false,
    }
}

/// One reply: a control header, and a notify header exactly when the
/// control type calls for one.
#[derive(Clone, Copy, Debug, PartialEq, Eq, Structural)]
pub struct Response {
    /// Outer framing header of the reply.
    pub cqc_hdr: CqcHeader,
    /// Reply payload, present exactly for the control types that carry one.
    pub notify: Option<NotifyHeader>,
}

impl Response {
    /// A response is well shaped when its payload presence matches its
    /// control type.
    pub open spec fn wf(self) -> bool {
        self.notify is Some <==> carries_notify(self.cqc_hdr.ctrl_type)
    }
}

/// The result of reading one whole response from the front of `s`:
/// the response and the bytes that remain, or the codec error owed when
/// `s` is too short or its control byte has no defined meaning.
pub open spec fn spec_receive(s: Seq<u8>) -> Result<(Response, Seq<u8>), CqcError> {
    if s.len() < 8 {
        Err(CqcError::Codec(CodecError::Undersized))
    } else {
        match ctrl_type_of_byte(s[1]) {
            None => Err(CqcError::Codec(CodecError::UnknownCtrlType(s[1]))),
            Some(t) => {
                let h = CqcHeader {
                    version: s[0],
                    ctrl_type: t,
                    app_id: parse_u16(s[2], s[3]),
                    length: parse_u32(s[4], s[5], s[6], s[7]),
                };
                if carries_notify(t) {
                    if s.len() < 28 {
                        Err(CqcError::Codec(CodecError::Undersized))
                    } else {
                        Ok(
                            (
                                Response { cqc_hdr: h, notify: Some(parse_notify_header_at(s, 8)) },
                                s.skip(28),
                            ),
                        )
                    }
                } else {
                    Ok((Response { cqc_hdr: h, notify: None }, s.skip(8)))
                }
            },
        }
    }
}

/// Every response that `spec_receive` yields is well shaped.
pub proof fn lemma_receive_wf(s: Seq<u8>)
    ensures
        spec_receive(s) matches Ok(pair) ==> pair.0.wf(),
{
}

/// What a waiting operation that expects the success kind `expected` makes
/// of a reply: the notify payload when the reply is of the expected kind,
/// the specific server error when the reply signals one of the four
/// defined error kinds, and otherwise a mismatch naming both kinds.
pub open spec fn spec_interpret_reply(expected: CtrlType, resp: Response) -> Result<
    NotifyHeader,
    CqcError,
> {
    if resp.cqc_hdr.ctrl_type == expected {
        match resp.notify {
            Some(n) => Ok(n),
            None => Err(CqcError::Codec(CodecError::Undersized)),
        }
    } else {
        Err(spec_classify(expected, resp.cqc_hdr.ctrl_type))
    }
}

/// Executable mirror of `spec_interpret_reply`.
pub fn interpret_reply(expected: CtrlType, resp: &Response) -> (r: Result<NotifyHeader, CqcError>)
    ensures
        r == spec_interpret_reply(expected, *resp),
{
    if resp.cqc_hdr.ctrl_type == expected {
        match &resp.notify {
            Some(n) => Ok(*n),
            None => Err(CqcError::Codec(CodecError::Undersized)),
        }
    } else {
        Err(classify_mismatch(expected, resp.cqc_hdr.ctrl_type))
    }
}

/// Reading one response from `s` and interpreting it against the expected
/// success kind: the operation's result, and the bytes that remain on the
/// stream afterwards. On a receive failure nothing is consumed; a reply of
/// the wrong kind is consumed whole before the failure is reported.
pub open spec fn spec_await_notify(expected: CtrlType, s: Seq<u8>) -> (
    Result<NotifyHeader, CqcError>,
    Seq<u8>,
) {
    match spec_receive(s) {
        Err(e) => (Err(e), s),
        Ok(pair) => (spec_interpret_reply(expected, pair.0), pair.1),
    }
}

/// Reading `reps` responses from `s`, each of which must be a header-only
/// DONE: `Ok` with all of them consumed, or the failure owed for the first
/// response that is not DONE, consumed up to and including that response
/// and no further.
pub open spec fn spec_wait_done(s: Seq<u8>, reps: nat) -> (Result<(), CqcError>, Seq<u8>)
    decreases reps,
{
    if reps == 0 {
        (Ok(()), s)
    } else {
        match spec_receive(s) {
            Err(e) => (Err(e), s),
            Ok(pair) => {
                if pair.0.cqc_hdr.ctrl_type is Done {
                    spec_wait_done(pair.1, (reps - 1) as nat)
                } else {
                    (Err(spec_classify(CtrlType::Done, pair.0.cqc_hdr.ctrl_type)), pair.1)
                }
            },
        }
    }
}

/// The serialized form of a response: the control header's bytes, then
/// the notify payload's bytes when one is present.
pub open spec fn response_bytes(resp: Response) -> Seq<u8> {
    cqc_header_bytes(resp.cqc_hdr) + (match resp.notify {
        Some(n) => notify_header_bytes(n),
        None => Seq::<u8>::empty(),
    })
}

/// Receiving from a stream that starts with the serialized form of a
/// well-shaped response yields exactly that response and leaves exactly
/// the bytes behind it, whatever they are.
pub proof fn lemma_response_round_trip(resp: Response, rest: Seq<u8>)
    requires
        resp.wf(),
    ensures
        spec_receive(response_bytes(resp) + rest) == Ok::<(Response, Seq<u8>), CqcError>(
            (resp, rest),
        ),
{
    let s = response_bytes(resp) + rest;
    let hb = cqc_header_bytes(resp.cqc_hdr);
    lemma_cqc_header_round_trip(resp.cqc_hdr);
    assert(parse_cqc_header_at(hb, 0) == Some(resp.cqc_hdr));
    match resp.notify {
        Some(n) => {
            let nb = notify_header_bytes(n);
            lemma_notify_header_round_trip(n);
            assert(s.len() == 28 + rest.len());
            assert forall|k: int| 0 <= k < 8 implies s[k] == hb[k] by {}
            assert forall|k: int| 8 <= k < 28 implies s[k] == nb[k - 8] by {}
            assert(parse_notify_header_at(s, 8) == parse_notify_header_at(nb, 0));
            assert(s.skip(28) =~= rest);
        },
        None => {
            assert(s.len() == 8 + rest.len());
            assert forall|k: int| 0 <= k < 8 implies s[k] == hb[k] by {}
            assert(s.skip(8) =~= rest);
        },
    }
}

/// What a waiting operation makes of a stream that starts with one whole
/// well-shaped response: the interpretation of that response, with
/// exactly that response consumed.
pub proof fn lemma_await_notify_of_response(expected: CtrlType, resp: Response, rest: Seq<u8>)
    requires
        resp.wf(),
    ensures
        spec_await_notify(expected, response_bytes(resp) + rest) == (
            spec_interpret_reply(expected, resp),
            rest,
        ),
{
    lemma_response_round_trip(resp, rest);
}

/// One step of waiting for DONE replies, on a stream that starts with one
/// whole well-shaped response: a DONE reply is consumed and the wait goes
/// on behind it; any other reply is consumed whole and the wait fails at
/// once with the error owed for it, reading nothing further.
pub proof fn lemma_wait_done_step(resp: Response, rest: Seq<u8>, reps: nat)
    requires
        resp.wf(),
        reps > 0,
    ensures
        resp.cqc_hdr.ctrl_type is Done ==> spec_wait_done(response_bytes(resp) + rest, reps)
            == spec_wait_done(rest, (reps - 1) as nat),
        resp.cqc_hdr.ctrl_type !is Done ==> spec_wait_done(response_bytes(resp) + rest, reps) == (
            Err::<(), CqcError>(spec_classify(CtrlType::Done, resp.cqc_hdr.ctrl_type)),
            rest,
        ),
{
    lemma_response_round_trip(resp, rest);
}

/// The incoming half of a session's stream: bytes that have arrived and a
/// cursor over how far they have been consumed.
#[derive(Debug)]
pub struct ReplyStream {
    /// Bytes that have arrived, in order.
    pub data: Vec<u8>,
    /// How many of them have been consumed.
    pub pos: usize,
}

impl ReplyStream {
    /// The cursor never passes the end of the data.
    pub open spec fn wf(self) -> bool {
        self.pos <= self.data@.len()
    }

    /// The bytes not yet consumed.
    pub open spec fn remaining(self) -> Seq<u8> {
        self.data@.skip(self.pos as int)
    }

    pub fn new(data: Vec<u8>) -> (r: ReplyStream)
        ensures
            r.wf(),
            r.remaining() == data@,
    {
        let r = ReplyStream { data, pos: 0 };
        proof {
            assert(r.remaining() =~= r.data@);
        }
        r
    }

    /// Append newly arrived bytes at the back of the stream.
    pub fn deliver(&mut self, bytes: Vec<u8>)
        requires
            old(self).wf(),
        ensures
            final(self).wf(),
            final(self).pos == old(self).pos,
            final(self).remaining() == old(self).remaining() + bytes@,
    {
        let mut b = bytes;
        self.data.append(&mut b);
        proof {
            assert(self.remaining() =~= old(self).remaining() + bytes@);
        }
    }

    /// Consume one whole response from the front of the stream: its
    /// control header, and its notify header exactly when the control
    /// type carries one. On failure nothing is consumed.
    pub fn receive(&mut self) -> (r: Result<Response, CqcError>)
        requires
            old(self).wf(),
        ensures
            final(self).wf(),
            final(self).data@ == old(self).data@,
            spec_receive(old(self).remaining()) is Err ==> final(self).pos == old(self).pos && r
                == Err::<Response, CqcError>(spec_receive(old(self).remaining())->Err_0),
            spec_receive(old(self).remaining()) is Ok ==> r == Ok::<Response, CqcError>(
                spec_receive(old(self).remaining())->Ok_0.0,
            ) && final(self).remaining() == spec_receive(old(self).remaining())->Ok_0.1,
    {
        let ghost s = self.remaining();
        let n: usize = self.data.len();
        let rem: usize = n - self.pos;
        proof {
            assert(s.len() == rem);
            assert forall|k: int| 0 <= k < s.len() implies s[k] == self.data@[self.pos + k] by {}
        }
        if rem < 8 {
            return Err(CqcError::Codec(CodecError::Undersized));
        }
        let base: usize = self.pos;
        let tb: u8 = self.data[base + 1];
        let t = match ctrl_type_from_u8(tb) {
            Some(t) => t,
            None => {
                return Err(CqcError::Codec(CodecError::UnknownCtrlType(tb)));
            },
        };
        let h = CqcHeader {
            version: self.data[base],
            ctrl_type: t,
            app_id: read_u16_at(&self.data, base + 2),
            length: read_u32_at(&self.data, base + 4),
        };
        if has_notify(t) {
            if rem < 28 {
                return Err(CqcError::Codec(CodecError::Undersized));
            }
            let note = decode_notify_header_at(&self.data, base + 8);
            self.pos = base + 28;
            proof {
                assert(note == parse_notify_header_at(s, 8));
                assert(self.remaining() =~= s.skip(28));
            }
            Ok(Response { cqc_hdr: h, notify: Some(note) })
        } else {
            self.pos = base + 8;
            proof {
                assert(self.remaining() =~= s.skip(8));
            }
            Ok(Response { cqc_hdr: h, notify: None })
        }
    }
}

/// One client session: the request builder stamped with this session's
/// application id, the bytes handed to the transport so far, and the
/// reply bytes the transport has delivered. A session exclusively owns
/// its stream; there is no internal locking, and there is exactly one
/// in-flight request at a time when calls are made sequentially.
#[derive(Debug)]
pub struct Cqc {
    /// Builds the requests this session sends.
    pub builder: Builder,
    /// Every byte this session has sent, in order.
    pub sent: Vec<u8>,
    /// The incoming reply stream.
    pub rx: ReplyStream,
}

impl Cqc {
    pub open spec fn wf(self) -> bool {
        self.rx.wf()
    }

    /// A fresh session for one application id, with nothing sent and
    /// nothing received.
    pub fn new(app_id: u16) -> (r: Cqc)
        ensures
            r.wf(),
            r.builder.app_id == app_id,
            r.sent@ == Seq::<u8>::empty(),
            r.rx.remaining() == Seq::<u8>::empty(),
    {
        Cqc { builder: Builder::new(app_id), sent: Vec::new(), rx: ReplyStream::new(Vec::new()) }
    }

    /// Hand newly arrived reply bytes to the session.
    pub fn deliver(&mut self, bytes: Vec<u8>)
        requires
            old(self).wf(),
        ensures
            final(self).wf(),
            final(self).builder == old(self).builder,
            final(self).sent@ == old(self).sent@,
            final(self).rx.remaining() == old(self).rx.remaining() + bytes@,
    {
        self.rx.deliver(bytes)
    }

    /// Serialize one request and hand its bytes to the transport.
    pub fn encode_and_send(&mut self, request: &Request) -> (r: Result<(), CqcError>)
        requires
            old(self).wf(),
        ensures
            final(self).wf(),
            r == Ok::<(), CqcError>(()),
            final(self).builder == old(self).builder,
            final(self).rx == old(self).rx,
            final(self).sent@ == old(self).sent@ + request_bytes(*request),
    {
        let mut bytes = encode_request(request);
        self.sent.append(&mut bytes);
        Ok(())
    }

    /// Consume one whole response from the reply stream.
    pub fn receive_and_decode(&mut self) -> (r: Result<Response, CqcError>)
        requires
            old(self).wf(),
        ensures
            final(self).wf(),
            final(self).builder == old(self).builder,
            final(self).sent@ == old(self).sent@,
            final(self).rx.data@ == old(self).rx.data@,
            spec_receive(old(self).rx.remaining()) is Err ==> final(self).rx.pos == old(
                self,
            ).rx.pos && r == Err::<Response, CqcError>(
                spec_receive(old(self).rx.remaining())->Err_0,
            ),
            spec_receive(old(self).rx.remaining()) is Ok ==> r == Ok::<Response, CqcError>(
                spec_receive(old(self).rx.remaining())->Ok_0.0,
            ) && final(self).rx.remaining() == spec_receive(old(self).rx.remaining())->Ok_0.1,
    {
        self.rx.receive()
    }

    /// Send the header-only HELLO liveness probe. No reply is awaited or
    /// required by this call.
    pub fn hello(&mut self) -> (r: Result<(), CqcError>)
        requires
            old(self).wf(),
        ensures
            final(self).wf(),
            r == Ok::<(), CqcError>(()),
            final(self).builder == old(self).builder,
            final(self).rx == old(self).rx,
            final(self).sent@ == old(self).sent@ + request_bytes(
                spec_hello_request(old(self).builder.app_id),
            ),
    {
        let req = self.builder.hello();
        self.encode_and_send(&req)
    }

    /// Send an extended SEND command transferring `qubit_id` to the named
    /// remote peer, with NOTIFY set. One-way: completion is observed via a
    /// later `wait_until_done`.
    pub fn send(
        &mut self,
        qubit_id: u16,
        remote_app_id: u16,
        remote_node: u32,
        remote_port: u16,
    ) -> (r: Result<(), CqcError>)
        requires
            old(self).wf(),
        ensures
            final(self).wf(),
            r == Ok::<(), CqcError>(()),
            final(self).builder == old(self).builder,
            final(self).rx == old(self).rx,
            final(self).sent@ == old(self).sent@ + request_bytes(
                spec_cmd_request(
                    old(self).builder.app_id,
                    Instr::Send,
                    qubit_id,
                    CmdOpt::spec_empty().spec_set_notify(),
                    Some(
                        spec_remote_xtra(
                            0,
                            RemoteId { remote_app_id, remote_node, remote_port },
                        ),
                    ),
                ),
            ),
    {
        let remote = RemoteId { remote_app_id, remote_node, remote_port };
        let req = self.builder.cmd_send(qubit_id, CmdOpt::empty().set_notify(), remote);
        self.encode_and_send(&req)
    }

    /// Send an extended EPR command with BLOCK set, requesting pair
    /// establishment with the named remote peer.
    pub fn epr(&mut self, remote_app_id: u16, remote_node: u32, remote_port: u16) -> (r: Result<
        (),
        CqcError,
    >)
        requires
            old(self).wf(),
        ensures
            final(self).wf(),
            r == Ok::<(), CqcError>(()),
            final(self).builder == old(self).builder,
            final(self).rx == old(self).rx,
            final(self).sent@ == old(self).sent@ + request_bytes(
                spec_cmd_request(
                    old(self).builder.app_id,
                    Instr::Epr,
                    0,
                    CmdOpt::spec_empty().spec_set_block(),
                    Some(
                        spec_remote_xtra(
                            0,
                            RemoteId { remote_app_id, remote_node, remote_port },
                        ),
                    ),
                ),
            ),
    {
        let remote = RemoteId { remote_app_id, remote_node, remote_port };
        let req = self.builder.cmd_epr(0, CmdOpt::empty().set_block(), remote);
        self.encode_and_send(&req)
    }

    /// Send an extended command targeting `qubit_id` with BLOCK set and a
    /// second operand qubit, for binary gates such as controlled
    /// operations. Fails with `Unsupported`, sending nothing, when the
    /// instruction byte has no defined meaning.
    pub fn two_qubit(&mut self, instr: u8, qubit_id: u16, xtra_qubit_id: u16) -> (r: Result<
        (),
        CqcError,
    >)
        requires
            old(self).wf(),
        ensures
            final(self).wf(),
            final(self).builder == old(self).builder,
            final(self).rx == old(self).rx,
            instr_of_byte(instr) is None ==> r == Err::<(), CqcError>(CqcError::Unsupported)
                && final(self).sent@ == old(self).sent@,
            instr_of_byte(instr) is Some ==> r == Ok::<(), CqcError>(()) && final(self).sent@
                == old(self).sent@ + request_bytes(
                spec_cmd_request(
                    old(self).builder.app_id,
                    instr_of_byte(instr)->Some_0,
                    qubit_id,
                    CmdOpt::spec_empty().spec_set_block(),
                    Some(spec_second_qubit_xtra(xtra_qubit_id)),
                ),
            ),
    {
        let xtra = XtraCmdHeader {
            xtra_qubit_id,
            r_app_id: 0,
            r_node: 0,
            cmd_length: 0,
            r_port: 0,
            steps: 0,
            unused: 0,
        };
        let req = match self.builder.build(instr, qubit_id, CmdOpt::empty().set_block(), Some(xtra))
        {
            Ok(req) => req,
            Err(e) => {
                return Err(e);
            },
        };
        self.encode_and_send(&req)
    }

    /// Send a plain command for one qubit. With `notify` the command asks
    /// for a DONE notification and blocks the server until it is done
    /// (NOTIFY and BLOCK set); without it no option is set. Fails with
    /// `Unsupported`, sending nothing, when the instruction byte has no
    /// defined meaning.
    pub fn simple_cmd(&mut self, instr: u8, qubit_id: u16, notify: bool) -> (r: Result<
        (),
        CqcError,
    >)
        requires
            old(self).wf(),
        ensures
            final(self).wf(),
            final(self).builder == old(self).builder,
            final(self).rx == old(self).rx,
            instr_of_byte(instr) is None ==> r == Err::<(), CqcError>(CqcError::Unsupported)
                && final(self).sent@ == old(self).sent@,
            instr_of_byte(instr) is Some ==> r == Ok::<(), CqcError>(()) && final(self).sent@
                == old(self).sent@ + request_bytes(
                spec_cmd_request(
                    old(self).builder.app_id,
                    instr_of_byte(instr)->Some_0,
                    qubit_id,
                    spec_simple_options(notify),
                    None,
                ),
            ),
    {
        let options = if notify {
            CmdOpt::empty().set_notify().set_block()
        } else {
            CmdOpt::empty()
        };
        let req = match self.builder.build(instr, qubit_id, options, None) {
            Ok(req) => req,
            Err(e) => {
                return Err(e);
            },
        };
        self.encode_and_send(&req)
    }

    /// Send MEASURE for `qubit_id`, then block for the reply: a MEASOUT
    /// control header followed by a notify header whose raw `outcome` is
    /// returned unchanged; this layer imposes no range validation on it.
    /// Any other reply kind fails with the specific server error or a
    /// mismatch.
    pub fn measure(&mut self, qubit_id: u16) -> (r: Result<u8, CqcError>)
        requires
            old(self).wf(),
        ensures
            final(self).wf(),
            final(self).builder == old(self).builder,
            final(self).rx.data@ == old(self).rx.data@,
            final(self).sent@ == old(self).sent@ + request_bytes(
                spec_cmd_request(
                    old(self).builder.app_id,
                    Instr::Measure,
                    qubit_id,
                    CmdOpt::spec_empty(),
                    None,
                ),
            ),
            final(self).rx.remaining() == spec_await_notify(
                CtrlType::Measout,
                old(self).rx.remaining(),
            ).1,
            spec_await_notify(CtrlType::Measout, old(self).rx.remaining()).0 matches Ok(n) ==> r
                == Ok::<u8, CqcError>(n.outcome),
            spec_await_notify(CtrlType::Measout, old(self).rx.remaining()).0 matches Err(e) ==> r
                == Err::<u8, CqcError>(e),
    {
        let req = self.builder.cmd_measure(qubit_id, CmdOpt::empty());
        let sent = self.encode_and_send(&req);
        match sent {
            Ok(()) => {},
            Err(e) => {
                return Err(e);
            },
        }
        let resp = match self.receive_and_decode() {
            Ok(resp) => resp,
            Err(e) => {
                return Err(e);
            },
        };
        match interpret_reply(CtrlType::Measout, &resp) {
            Ok(n) => Ok(n.outcome),
            Err(e) => Err(e),
        }
    }

    /// Send RECV with target id 0, then block for the reply: a RECV
    /// control header followed by a notify header whose `qubit_id` names
    /// the received qubit. Any other reply kind fails with the specific
    /// server error or a mismatch.
    pub fn recv(&mut self) -> (r: Result<u16, CqcError>)
        requires
            old(self).wf(),
        ensures
            final(self).wf(),
            final(self).builder == old(self).builder,
            final(self).rx.data@ == old(self).rx.data@,
            final(self).sent@ == old(self).sent@ + request_bytes(
                spec_cmd_request(
                    old(self).builder.app_id,
                    Instr::Recv,
                    0,
                    CmdOpt::spec_empty(),
                    None,
                ),
            ),
            final(self).rx.remaining() == spec_await_notify(
                CtrlType::Recv,
                old(self).rx.remaining(),
            ).1,
            spec_await_notify(CtrlType::Recv, old(self).rx.remaining()).0 matches Ok(n) ==> r
                == Ok::<u16, CqcError>(n.qubit_id),
            spec_await_notify(CtrlType::Recv, old(self).rx.remaining()).0 matches Err(e) ==> r
                == Err::<u16, CqcError>(e),
    {
        let req = self.builder.cmd_recv(0, CmdOpt::empty());
        let sent = self.encode_and_send(&req);
        match sent {
            Ok(()) => {},
            Err(e) => {
                return Err(e);
            },
        }
        let resp = match self.receive_and_decode() {
            Ok(resp) => resp,
            Err(e) => {
                return Err(e);
            },
        };
        match interpret_reply(CtrlType::Recv, &resp) {
            Ok(n) => Ok(n.qubit_id),
            Err(e) => Err(e),
        }
    }

    /// Block for a NEW_OK reply and return the id of the created qubit
    /// from its notify header. Sends nothing. A reply that is any error
    /// kind or any other success kind fails with the specific server
    /// error or a mismatch.
    pub fn wait_until_newok(&mut self) -> (r: Result<u16, CqcError>)
        requires
            old(self).wf(),
        ensures
            final(self).wf(),
            final(self).builder == old(self).builder,
            final(self).sent@ == old(self).sent@,
            final(self).rx.data@ == old(self).rx.data@,
            final(self).rx.remaining() == spec_await_notify(
                CtrlType::NewOk,
                old(self).rx.remaining(),
            ).1,
            spec_await_notify(CtrlType::NewOk, old(self).rx.remaining()).0 matches Ok(n) ==> r
                == Ok::<u16, CqcError>(n.qubit_id),
            spec_await_notify(CtrlType::NewOk, old(self).rx.remaining()).0 matches Err(e) ==> r
                == Err::<u16, CqcError>(e),
    {
        let resp = match self.receive_and_decode() {
            Ok(resp) => resp,
            Err(e) => {
                return Err(e);
            },
        };
        match interpret_reply(CtrlType::NewOk, &resp) {
            Ok(n) => Ok(n.qubit_id),
            Err(e) => Err(e),
        }
    }

    /// Block for `reps` header-only DONE replies, consumed one at a time.
    /// Fails immediately on the first reply that is not DONE, without
    /// reading any further reply: the stream is then positioned
    /// mid-sequence and the session must be treated as desynchronized.
    pub fn wait_until_done(&mut self, reps: usize) -> (r: Result<(), CqcError>)
        requires
            old(self).wf(),
        ensures
            final(self).wf(),
            final(self).builder == old(self).builder,
            final(self).sent@ == old(self).sent@,
            final(self).rx.data@ == old(self).rx.data@,
            r == spec_wait_done(old(self).rx.remaining(), reps as nat).0,
            final(self).rx.remaining() == spec_wait_done(old(self).rx.remaining(), reps as nat).1,
    {
        let ghost s0 = old(self).rx.remaining();
        let mut i: usize = 0;
        while i < reps
            invariant
                self.wf(),
                self.builder == old(self).builder,
                self.sent@ == old(self).sent@,
                self.rx.data@ == old(self).rx.data@,
                i <= reps,
                s0 == old(self).rx.remaining(),
                spec_wait_done(s0, reps as nat) == spec_wait_done(
                    self.rx.remaining(),
                    (reps - i) as nat,
                ),
            decreases reps - i,
        {
            let ghost s_cur = self.rx.remaining();
            let resp = match self.receive_and_decode() {
                Ok(resp) => resp,
                Err(e) => {
                    proof {
                        assert(spec_wait_done(s_cur, (reps - i) as nat) == (
                            Err::<(), CqcError>(e),
                            s_cur,
                        ));
                    }
                    return Err(e);
                },
            };
            match resp.cqc_hdr.ctrl_type {
                CtrlType::Done => {},
                _ => {
                    let e = classify_mismatch(CtrlType::Done, resp.cqc_hdr.ctrl_type);
                    proof {
                        assert(spec_wait_done(s_cur, (reps - i) as nat) == (
                            Err::<(), CqcError>(e),
                            self.rx.remaining(),
                        ));
                    }
                    return Err(e);
                },
            }
            i = i + 1;
            proof {
                assert(spec_wait_done(s_cur, (reps - (i - 1)) as nat) == spec_wait_done(
                    self.rx.remaining(),
                    (reps - i) as nat,
                ));
            }
        }
        Ok(())
    }
}

/// The option flags a plain command is sent with: NOTIFY and BLOCK when a
/// completion notification is asked for, nothing otherwise.
pub open spec fn spec_simple_options(notify: bool) -> CmdOpt {
    if notify {
        CmdOpt::spec_empty().spec_set_notify().spec_set_block()
    } else {
        CmdOpt::spec_empty()
    }
}

} // verus!
