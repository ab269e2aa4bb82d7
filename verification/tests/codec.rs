use cqc_client::codec::{
    decode_cmd_header, decode_cqc_header, decode_notify_header, decode_xtra_header,
    encode_cmd_header, encode_cqc_header, encode_notify_header, encode_xtra_header,
};
use cqc_client::error::{CodecError, CqcError};
use cqc_client::hdr::{CmdHeader, CmdOpt, CqcHeader, CtrlType, Instr, NotifyHeader, XtraCmdHeader};

fn all_ctrl_types() -> Vec<CtrlType> {
    vec![
        CtrlType::Hello,
        CtrlType::Command,
        CtrlType::Factory,
        CtrlType::Expire,
        CtrlType::Done,
        CtrlType::Recv,
        CtrlType::EprOk,
        CtrlType::Measout,
        CtrlType::GetTime,
        CtrlType::InfTime,
        CtrlType::NewOk,
        CtrlType::ErrGeneral,
        CtrlType::ErrNoQubit,
        CtrlType::ErrUnsupp,
        CtrlType::ErrTimeout,
    ]
}

fn all_instrs() -> Vec<Instr> {
    vec![
        Instr::I,
        Instr::New,
        Instr::Measure,
        Instr::MeasureInplace,
        Instr::Reset,
        Instr::Send,
        Instr::Recv,
        Instr::Epr,
        Instr::EprRecv,
        Instr::X,
        Instr::Z,
        Instr::Y,
        Instr::T,
        Instr::RotX,
        Instr::RotY,
        Instr::RotZ,
        Instr::H,
        Instr::K,
        Instr::Cnot,
        Instr::Cphase,
    ]
}

#[test]
fn codec_cqc_header_round_trip_boundaries() {
    for t in all_ctrl_types() {
        for &version in &[0u8, u8::MAX] {
            for &app_id in &[0u16, u16::MAX] {
                for &length in &[0u32, u32::MAX] {
                    let h = CqcHeader { version, ctrl_type: t, app_id, length };
                    let bytes = encode_cqc_header(&h);
                    assert_eq!(bytes.len(), 8);
                    assert_eq!(decode_cqc_header(&bytes), Ok(h));
                }
            }
        }
    }
}

#[test]
fn codec_cmd_header_round_trip_boundaries() {
    for ins in all_instrs() {
        for &qubit_id in &[0u16, u16::MAX] {
            for &bits in &[0u8, u8::MAX] {
                let c = CmdHeader { qubit_id, instr: ins, options: CmdOpt { bits } };
                let bytes = encode_cmd_header(&c);
                assert_eq!(bytes.len(), 4);
                assert_eq!(decode_cmd_header(&bytes), Ok(c));
            }
        }
    }
}

#[test]
fn codec_xtra_header_round_trip_boundaries() {
    for &lo in &[false, true] {
        let x = if lo {
            XtraCmdHeader {
                xtra_qubit_id: 0,
                r_app_id: 0,
                r_node: 0,
                cmd_length: 0,
                r_port: 0,
                steps: 0,
                unused: 0,
            }
        } else {
            XtraCmdHeader {
                xtra_qubit_id: u16::MAX,
                r_app_id: u16::MAX,
                r_node: u32::MAX,
                cmd_length: u32::MAX,
                r_port: u16::MAX,
                steps: u8::MAX,
                unused: u8::MAX,
            }
        };
        let bytes = encode_xtra_header(&x);
        assert_eq!(bytes.len(), 16);
        assert_eq!(decode_xtra_header(&bytes), Ok(x));
    }
}

#[test]
fn codec_notify_header_round_trip_boundaries() {
    for &lo in &[false, true] {
        let n = if lo {
            NotifyHeader {
                qubit_id: 0,
                r_app_id: 0,
                r_node: 0,
                datetime: 0,
                r_port: 0,
                outcome: 0,
                unused: 0,
            }
        } else {
            NotifyHeader {
                qubit_id: u16::MAX,
                r_app_id: u16::MAX,
                r_node: u32::MAX,
                datetime: u64::MAX,
                r_port: u16::MAX,
                outcome: u8::MAX,
                unused: u8::MAX,
            }
        };
        let bytes = encode_notify_header(&n);
        assert_eq!(bytes.len(), 20);
        assert_eq!(decode_notify_header(&bytes), Ok(n));
    }
}

#[test]
fn codec_cqc_header_exact_bytes() {
    let h = CqcHeader {
        version: 0,
        ctrl_type: CtrlType::Command,
        app_id: 0x0A0B,
        length: 4,
    };
    assert_eq!(encode_cqc_header(&h), vec![0, 1, 0x0A, 0x0B, 0, 0, 0, 4]);

    let h = CqcHeader {
        version: 0,
        ctrl_type: CtrlType::ErrTimeout,
        app_id: 0xFFEE,
        length: 0x01020304,
    };
    assert_eq!(encode_cqc_header(&h), vec![0, 23, 0xFF, 0xEE, 1, 2, 3, 4]);
}

#[test]
fn codec_cmd_header_exact_bytes() {
    let c = CmdHeader {
        qubit_id: 0x0102,
        instr: Instr::H,
        options: CmdOpt { bits: 0x05 },
    };
    assert_eq!(encode_cmd_header(&c), vec![1, 2, 17, 5]);
}

#[test]
fn codec_xtra_header_exact_bytes() {
    let x = XtraCmdHeader {
        xtra_qubit_id: 0x1122,
        r_app_id: 0x3344,
        r_node: 0x55667788,
        cmd_length: 0x99AABBCC,
        r_port: 0xDDEE,
        steps: 0xFF,
        unused: 0,
    };
    assert_eq!(
        encode_xtra_header(&x),
        vec![
            0x11, 0x22, 0x33, 0x44, 0x55, 0x66, 0x77, 0x88, 0x99, 0xAA, 0xBB, 0xCC, 0xDD, 0xEE,
            0xFF, 0,
        ]
    );
}

#[test]
fn codec_notify_header_exact_bytes() {
    let n = NotifyHeader {
        qubit_id: 7,
        r_app_id: 0x0102,
        r_node: 0x7F000001,
        datetime: 0x1122334455667788,
        r_port: 0x2276,
        outcome: 200,
        unused: 0,
    };
    assert_eq!(
        encode_notify_header(&n),
        vec![
            0, 7, 1, 2, 0x7F, 0, 0, 1, 0x11, 0x22, 0x33, 0x44, 0x55, 0x66, 0x77, 0x88, 0x22, 0x76,
            200, 0,
        ]
    );
}

#[test]
fn codec_decode_undersized_fails() {
    // One byte short of each header's fixed size, and the empty buffer.
    let undersized = CqcError::Codec(CodecError::Undersized);
    assert_eq!(decode_cqc_header(&vec![0; 7]), Err(undersized));
    assert_eq!(decode_cqc_header(&Vec::new()), Err(undersized));
    assert_eq!(decode_cmd_header(&vec![0; 3]), Err(undersized));
    assert_eq!(decode_cmd_header(&Vec::new()), Err(undersized));
    assert_eq!(decode_xtra_header(&vec![0; 15]), Err(undersized));
    assert_eq!(decode_xtra_header(&Vec::new()), Err(undersized));
    assert_eq!(decode_notify_header(&vec![0; 19]), Err(undersized));
    assert_eq!(decode_notify_header(&Vec::new()), Err(undersized));
}

#[test]
fn codec_decode_longer_buffer_reads_prefix() {
    let h = CqcHeader {
        version: 1,
        ctrl_type: CtrlType::Done,
        app_id: 3,
        length: 0,
    };
    let mut bytes = encode_cqc_header(&h);
    bytes.push(0xAB);
    bytes.push(0xCD);
    assert_eq!(decode_cqc_header(&bytes), Ok(h));
}

#[test]
fn codec_decode_unknown_ctrl_type_fails() {
    for bad in [11u8, 15, 19, 24, 255] {
        let mut bytes = vec![0u8; 8];
        bytes[1] = bad;
        assert_eq!(
            decode_cqc_header(&bytes),
            Err(CqcError::Codec(CodecError::UnknownCtrlType(bad)))
        );
    }
}

#[test]
fn codec_decode_unknown_instr_fails() {
    for bad in [9u8, 19, 22, 255] {
        let mut bytes = vec![0u8; 4];
        bytes[2] = bad;
        assert_eq!(
            decode_cmd_header(&bytes),
            Err(CqcError::Codec(CodecError::UnknownInstr(bad)))
        );
    }
}
