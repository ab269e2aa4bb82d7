use cqc_client::builder::encode_request;
use cqc_client::codec::{encode_cqc_header, encode_notify_header};
use cqc_client::error::{CodecError, CqcError};
use cqc_client::hdr::{CmdOpt, CqcHeader, CtrlType, NotifyHeader};
use cqc_client::session::{interpret_reply, Cqc};

fn ctrl_bytes(t: CtrlType, app_id: u16, length: u32) -> Vec<u8> {
    encode_cqc_header(&CqcHeader { version: 0, ctrl_type: t, app_id, length })
}

fn notify_bytes(qubit_id: u16, outcome: u8) -> Vec<u8> {
    encode_notify_header(&NotifyHeader {
        qubit_id,
        r_app_id: 0,
        r_node: 0,
        datetime: 0,
        r_port: 0,
        outcome,
        unused: 0,
    })
}

#[test]
fn session_wait_until_newok_returns_target_id() {
    let mut cqc = Cqc::new(10);
    cqc.deliver(ctrl_bytes(CtrlType::NewOk, 10, 20));
    cqc.deliver(notify_bytes(7, 0));
    assert_eq!(cqc.wait_until_newok(), Ok(7));
    // The whole reply was consumed.
    assert_eq!(cqc.rx.pos, 28);
}

#[test]
fn session_measure_returns_outcome_unchanged() {
    // An outcome outside {0, 1} passes through without range validation.
    let mut cqc = Cqc::new(10);
    cqc.deliver(ctrl_bytes(CtrlType::Measout, 10, 20));
    cqc.deliver(notify_bytes(0, 200));
    assert_eq!(cqc.measure(3), Ok(200));
}

#[test]
fn session_measure_sends_measure_request() {
    let mut cqc = Cqc::new(10);
    cqc.deliver(ctrl_bytes(CtrlType::Measout, 10, 20));
    cqc.deliver(notify_bytes(0, 1));
    cqc.measure(3).unwrap();
    let expected = encode_request(&Cqc::new(10).builder.cmd_measure(3, CmdOpt::empty()));
    assert_eq!(cqc.sent, expected);
}

#[test]
fn session_wait_until_done_stops_at_first_mismatch() {
    // First reply DONE, second NEW_OK (with its payload), third DONE again.
    let mut cqc = Cqc::new(10);
    cqc.deliver(ctrl_bytes(CtrlType::Done, 10, 0));
    cqc.deliver(ctrl_bytes(CtrlType::NewOk, 10, 20));
    cqc.deliver(notify_bytes(7, 0));
    cqc.deliver(ctrl_bytes(CtrlType::Done, 10, 0));

    let r = cqc.wait_until_done(3);
    assert_eq!(
        r,
        Err(CqcError::Mismatch { expected: CtrlType::Done, observed: CtrlType::NewOk })
    );
    // The failing reply was consumed whole, and no third read was
    // attempted: the final DONE still sits unread on the stream.
    assert_eq!(cqc.rx.pos, 36);
    let third = cqc.receive_and_decode().unwrap();
    assert_eq!(third.cqc_hdr.ctrl_type, CtrlType::Done);
}

#[test]
fn session_wait_until_done_consumes_all_done() {
    let mut cqc = Cqc::new(10);
    cqc.deliver(ctrl_bytes(CtrlType::Done, 10, 0));
    cqc.deliver(ctrl_bytes(CtrlType::Done, 10, 0));
    cqc.deliver(ctrl_bytes(CtrlType::Done, 10, 0));
    assert_eq!(cqc.wait_until_done(3), Ok(()));
    assert_eq!(cqc.rx.pos, 24);
}

#[test]
fn session_wait_until_done_zero_reads_nothing() {
    let mut cqc = Cqc::new(10);
    cqc.deliver(ctrl_bytes(CtrlType::NewOk, 10, 20));
    cqc.deliver(notify_bytes(7, 0));
    assert_eq!(cqc.wait_until_done(0), Ok(()));
    assert_eq!(cqc.rx.pos, 0);
}

#[test]
fn session_recv_returns_received_qubit_id() {
    let mut cqc = Cqc::new(10);
    cqc.deliver(ctrl_bytes(CtrlType::Recv, 10, 20));
    cqc.deliver(notify_bytes(12, 0));
    assert_eq!(cqc.recv(), Ok(12));
    let expected = encode_request(&Cqc::new(10).builder.cmd_recv(0, CmdOpt::empty()));
    assert_eq!(cqc.sent, expected);
}

#[test]
fn session_server_error_kinds_are_surfaced() {
    let cases = [
        (CtrlType::ErrGeneral, CqcError::General),
        (CtrlType::ErrNoQubit, CqcError::NoQubit),
        (CtrlType::ErrUnsupp, CqcError::Unsupported),
        (CtrlType::ErrTimeout, CqcError::Timeout),
    ];
    for (t, e) in cases {
        let mut cqc = Cqc::new(10);
        cqc.deliver(ctrl_bytes(t, 10, 0));
        assert_eq!(cqc.measure(1), Err(e));
    }
}

#[test]
fn session_mismatch_names_expected_and_observed() {
    let mut cqc = Cqc::new(10);
    cqc.deliver(ctrl_bytes(CtrlType::Done, 10, 0));
    assert_eq!(
        cqc.wait_until_newok(),
        Err(CqcError::Mismatch { expected: CtrlType::NewOk, observed: CtrlType::Done })
    );
}

#[test]
fn session_truncated_reply_fails_and_consumes_nothing() {
    // A NEW_OK header whose notify payload never arrives.
    let mut cqc = Cqc::new(10);
    cqc.deliver(ctrl_bytes(CtrlType::NewOk, 10, 20));
    assert_eq!(
        cqc.wait_until_newok(),
        Err(CqcError::Codec(CodecError::Undersized))
    );
    assert_eq!(cqc.rx.pos, 0);
}

#[test]
fn session_unknown_ctrl_byte_fails() {
    let mut cqc = Cqc::new(10);
    let mut bytes = ctrl_bytes(CtrlType::Done, 10, 0);
    bytes[1] = 14;
    cqc.deliver(bytes);
    assert_eq!(
        cqc.wait_until_done(1),
        Err(CqcError::Codec(CodecError::UnknownCtrlType(14)))
    );
}

#[test]
fn session_hello_sends_header_only_probe() {
    let mut cqc = Cqc::new(10);
    cqc.hello().unwrap();
    assert_eq!(cqc.sent, vec![0, 0, 0, 10, 0, 0, 0, 0]);
    assert_eq!(cqc.rx.pos, 0);
}

#[test]
fn session_send_is_one_way() {
    let mut cqc = Cqc::new(10);
    cqc.send(2, 5, 0x7F000001, 8822).unwrap();
    assert_eq!(cqc.sent.len(), 28);
    // NOTIFY is set on the command header.
    assert_eq!(cqc.sent[11], 0x01);
    // Nothing was read.
    assert_eq!(cqc.rx.pos, 0);
}

#[test]
fn session_epr_sets_block() {
    let mut cqc = Cqc::new(10);
    cqc.epr(5, 0x7F000001, 8822).unwrap();
    assert_eq!(cqc.sent.len(), 28);
    // Instruction EPR with BLOCK set.
    assert_eq!(cqc.sent[10], 7);
    assert_eq!(cqc.sent[11], 0x04);
}

#[test]
fn session_two_qubit_names_both_operands() {
    let mut cqc = Cqc::new(10);
    // CNOT with control 3 and target 9.
    cqc.two_qubit(20, 3, 9).unwrap();
    assert_eq!(cqc.sent.len(), 28);
    assert_eq!(&cqc.sent[8..12], &[0, 3, 20, 0x04]);
    // The extended header carries the second operand.
    assert_eq!(&cqc.sent[12..14], &[0, 9]);
}

#[test]
fn session_simple_cmd_options() {
    let mut cqc = Cqc::new(10);
    cqc.simple_cmd(1, 0, false).unwrap();
    // NEW with no option set.
    assert_eq!(&cqc.sent[8..12], &[0, 0, 1, 0]);
    let mut cqc = Cqc::new(10);
    cqc.simple_cmd(17, 4, true).unwrap();
    // H with NOTIFY and BLOCK set.
    assert_eq!(&cqc.sent[8..12], &[0, 4, 17, 0x05]);
}

#[test]
fn session_simple_cmd_rejects_unknown_instr_before_sending() {
    let mut cqc = Cqc::new(10);
    assert_eq!(cqc.simple_cmd(19, 0, false), Err(CqcError::Unsupported));
    assert_eq!(cqc.simple_cmd(255, 0, true), Err(CqcError::Unsupported));
    assert_eq!(cqc.two_qubit(9, 1, 2), Err(CqcError::Unsupported));
    // No bytes were handed to the transport.
    assert!(cqc.sent.is_empty());
}

#[test]
fn session_unserialized_concurrent_ops_miscorrelate() {
    // Two operations issued on one session without external serialization,
    // against a peer that echoes exactly one reply per request in request
    // order. When the two callers' reads interleave out of send order,
    // each gets the other's reply: correlation is purely positional, so
    // this is outside the safety contract of a session, not a defect.
    let mut cqc = Cqc::new(10);

    // Caller A sends MEASURE, then caller B sends RECV before A reads.
    let req_a = cqc.builder.cmd_measure(1, CmdOpt::empty());
    cqc.encode_and_send(&req_a).unwrap();
    let req_b = cqc.builder.cmd_recv(0, CmdOpt::empty());
    cqc.encode_and_send(&req_b).unwrap();

    // The peer answers in request order: MEASOUT for A, then RECV for B.
    cqc.deliver(ctrl_bytes(CtrlType::Measout, 10, 20));
    cqc.deliver(notify_bytes(0, 1));
    cqc.deliver(ctrl_bytes(CtrlType::Recv, 10, 20));
    cqc.deliver(notify_bytes(12, 0));

    // Caller B reads first and receives A's reply.
    let got_b = cqc.receive_and_decode().unwrap();
    assert_eq!(
        interpret_reply(CtrlType::Recv, &got_b).map(|n| n.qubit_id),
        Err(CqcError::Mismatch { expected: CtrlType::Recv, observed: CtrlType::Measout })
    );

    // Caller A then receives B's reply.
    let got_a = cqc.receive_and_decode().unwrap();
    assert_eq!(
        interpret_reply(CtrlType::Measout, &got_a).map(|n| n.outcome),
        Err(CqcError::Mismatch { expected: CtrlType::Measout, observed: CtrlType::Recv })
    );
}

#[test]
fn session_error_descriptions() {
    assert_eq!(CqcError::Timeout.describe(), "timeout");
    assert!(!CqcError::NoQubit.describe().is_empty());
    assert!(!CqcError::Codec(CodecError::Undersized).describe().is_empty());
}
