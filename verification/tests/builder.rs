use cqc_client::builder::{encode_request, Builder, RemoteId};
use cqc_client::error::CqcError;
use cqc_client::hdr::{CmdOpt, CtrlType, Instr};

#[test]
fn builder_plain_command_has_length_4() {
    let b = Builder::new(10);
    let req = b.cmd(Instr::H, 3, CmdOpt::empty(), None);
    assert_eq!(req.cqc_hdr.ctrl_type, CtrlType::Command);
    assert_eq!(req.cqc_hdr.app_id, 10);
    assert_eq!(req.cqc_hdr.length, 4);
    assert!(req.cmd.is_some());
    assert!(req.xtra.is_none());
    assert_eq!(encode_request(&req).len(), 12);
}

#[test]
fn builder_extended_command_has_length_20() {
    let b = Builder::new(10);
    let remote = RemoteId { remote_app_id: 5, remote_node: 0x7F000001, remote_port: 8822 };
    let req = b.cmd_send(2, CmdOpt::empty().set_notify(), remote);
    assert_eq!(req.cqc_hdr.ctrl_type, CtrlType::Command);
    assert_eq!(req.cqc_hdr.length, 20);
    assert!(req.xtra.is_some());
    assert_eq!(encode_request(&req).len(), 28);
}

#[test]
fn builder_hello_is_header_only() {
    let b = Builder::new(10);
    let req = b.hello();
    assert_eq!(req.cqc_hdr.ctrl_type, CtrlType::Hello);
    assert_eq!(req.cqc_hdr.length, 0);
    assert!(req.cmd.is_none());
    assert!(req.xtra.is_none());
    assert_eq!(encode_request(&req), vec![0, 0, 0, 10, 0, 0, 0, 0]);
}

#[test]
fn builder_rejects_unknown_instr() {
    let b = Builder::new(10);
    for bad in [9u8, 19, 22, 255] {
        assert_eq!(
            b.build(bad, 0, CmdOpt::empty(), None),
            Err(CqcError::Unsupported)
        );
    }
}

#[test]
fn builder_accepts_every_defined_instr() {
    let b = Builder::new(10);
    for code in [0u8, 1, 2, 3, 4, 5, 6, 7, 8, 10, 11, 12, 13, 14, 15, 16, 17, 18, 20, 21] {
        let req = b.build(code, 1, CmdOpt::empty(), None).unwrap();
        assert_eq!(req.cqc_hdr.length, 4);
        // The instruction byte is serialized back unchanged.
        assert_eq!(encode_request(&req)[10], code);
    }
}

#[test]
fn builder_send_request_exact_bytes() {
    let b = Builder::new(10);
    let remote = RemoteId { remote_app_id: 5, remote_node: 0x7F000001, remote_port: 8822 };
    let req = b.cmd_send(2, CmdOpt::empty().set_notify(), remote);
    let bytes = encode_request(&req);
    assert_eq!(
        bytes,
        vec![
            // control header: version, COMMAND, app id 10, length 20
            0, 1, 0, 10, 0, 0, 0, 20,
            // command header: qubit 2, SEND, NOTIFY
            0, 2, 5, 1,
            // extended header: no extra qubit, remote app 5, node, no
            // follow-on commands, port 8822, no steps, padding
            0, 0, 0, 5, 0x7F, 0, 0, 1, 0, 0, 0, 0, 0x22, 0x76, 0, 0,
        ]
    );
}

#[test]
fn builder_options_commute() {
    let nb = CmdOpt::empty().set_notify().set_block();
    let bn = CmdOpt::empty().set_block().set_notify();
    assert_eq!(nb.bits, 0x05);
    assert_eq!(bn.bits, 0x05);
    assert_eq!(nb, bn);
}

#[test]
fn builder_option_bits() {
    assert_eq!(CmdOpt::empty().bits, 0);
    assert_eq!(CmdOpt::empty().set_notify().bits, 0x01);
    assert_eq!(CmdOpt::empty().set_action().bits, 0x02);
    assert_eq!(CmdOpt::empty().set_block().bits, 0x04);
    assert_eq!(CmdOpt::empty().set_ifthen().bits, 0x08);
    let all = CmdOpt::empty().set_ifthen().set_block().set_action().set_notify();
    assert_eq!(all.bits, 0x0F);
    assert!(all.get_notify());
    assert!(all.get_block());
    assert!(!CmdOpt::empty().get_notify());
    assert!(!CmdOpt::empty().get_block());
}
