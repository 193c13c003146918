use kwp_diag::comm::CommError;
use kwp_diag::driver::DriverSlot;
use kwp_diag::protocol::{build_request, check_response, describe_code, format_code, parse_dtcs, parse_payload, DtcDefinition, MALFORMED_RESPONSE};
use kwp_diag::session::{interpret_reply, judge_keep_alive, KeepAliveVerdict, SessionError};
use kwp_diag::transport::{AddressingMode, IdFormat, TransportConfig};

#[test]
fn one_byte_payload_is_rejected() {
    assert!(parse_payload("01").is_none());
}

#[test]
fn two_byte_payload_is_accepted() {
    let cmd = parse_payload("0100").unwrap();
    assert_eq!(cmd.service, 0x01);
    assert_eq!(cmd.args, vec![0x00]);
}

#[test]
fn payload_decodes_hex() {
    let cmd = parse_payload("22f190").unwrap();
    assert_eq!(cmd.service, 0x22);
    assert_eq!(cmd.args, vec![0xF1, 0x90]);
    assert!(parse_payload("").is_none());
    assert!(parse_payload("22F").is_none());
    assert!(parse_payload("22G1").is_none());
}

#[test]
fn request_is_service_then_args() {
    assert_eq!(build_request(0x22, &[0xF1, 0x90]), vec![0x22, 0xF1, 0x90]);
    assert_eq!(build_request(0x20, &[]), vec![0x20]);
}

#[test]
fn response_reading() {
    assert_eq!(check_response(0x22, vec![0x62, 0x01]), Ok(vec![0x62, 0x01]));
    assert_eq!(check_response(0x22, vec![0x7F, 0x22, 0x33]), Err(0x33));
    assert_eq!(check_response(0x22, vec![0x7F, 0x21, 0x33]), Err(MALFORMED_RESPONSE));
    assert_eq!(check_response(0x22, vec![]), Err(MALFORMED_RESPONSE));
    assert_eq!(check_response(0xC5, vec![0x05]), Err(MALFORMED_RESPONSE));
}

#[test]
fn reply_errors_map_to_session_errors() {
    assert_eq!(interpret_reply(0x22, Err(CommError::Timeout)), Err(SessionError::TimeoutError));
    assert_eq!(interpret_reply(0x22, Err(CommError::Io)), Err(SessionError::IOError));
    assert_eq!(interpret_reply(0x22, Err(CommError::Rejected)), Err(SessionError::ChannelError));
    assert_eq!(interpret_reply(0x22, Ok(vec![0x7F, 0x22, 0x78])), Err(SessionError::ProtocolError(0x78)));
}

#[test]
fn keep_alive_rule() {
    assert_eq!(judge_keep_alive(1, Ok(vec![0x7E])), KeepAliveVerdict::Alive);
    assert_eq!(judge_keep_alive(0, Err(CommError::Timeout)), KeepAliveVerdict::Missed(1));
    assert_eq!(judge_keep_alive(1, Err(CommError::Timeout)), KeepAliveVerdict::Lost);
    assert_eq!(judge_keep_alive(0, Err(CommError::Io)), KeepAliveVerdict::Lost);
    assert_eq!(judge_keep_alive(0, Ok(vec![0x7F, 0x3E, 0x11])), KeepAliveVerdict::Missed(1));
}

#[test]
fn code_text_is_upper_hex() {
    assert_eq!(format_code(0x1A2B), "1A2B");
    assert_eq!(format_code(0x0005), "0005");
}

#[test]
fn first_table_entry_wins() {
    let table = vec![
        DtcDefinition { code: 7, description: "first".to_string() },
        DtcDefinition { code: 7, description: "second".to_string() },
    ];
    assert_eq!(describe_code(&table, 7), "first");
    assert_eq!(describe_code(&table, 8), "0008");
}

#[test]
fn dtc_frames() {
    let table = Vec::new();
    assert_eq!(parse_dtcs(&[0x58, 0x00], &table).map(|v| v.len()), Some(0));
    assert!(parse_dtcs(&[0x58, 0x01, 0x01], &table).is_none());
    assert!(parse_dtcs(&[0x59, 0x00], &table).is_none());
    assert!(parse_dtcs(&[], &table).is_none());
    let v = parse_dtcs(&[0x58, 0x01, 0xAB, 0xCD, 0x80], &table).unwrap();
    assert_eq!(v[0].code, 0xABCD);
    assert_eq!(v[0].status, 0x80);
    assert_eq!(v[0].description, "ABCD");
}

#[test]
fn transport_validity() {
    let mut cfg = TransportConfig {
        send_id: 0x7E0,
        recv_id: 0x7E8,
        id_format: IdFormat::Standard,
        baud: 500_000,
        block_size: 0,
        sep_time_min: 0,
        addressing: AddressingMode::Functional,
    };
    assert!(cfg.is_valid());
    cfg.block_size = 0x100;
    assert!(!cfg.is_valid());
    cfg.block_size = 0xFF;
    cfg.send_id = 0x18DA10F1;
    assert!(!cfg.is_valid());
    cfg.id_format = IdFormat::Extended;
    assert!(cfg.is_valid());
    cfg.baud = 0;
    assert!(!cfg.is_valid());
}

#[test]
fn second_driver_is_refused() {
    let mut slot = DriverSlot::new();
    assert!(!slot.is_loaded());
    assert_eq!(slot.claim("/usr/lib/adapter.so"), Ok(()));
    assert_eq!(slot.claim("/usr/lib/other.so"), Err(SessionError::DriverInUseError));
    slot.release();
    assert_eq!(slot.claim("/usr/lib/other.so"), Ok(()));
}

#[test]
fn driver_load_and_open_results() {
    let mut slot = DriverSlot::new();
    assert_eq!(slot.claim("/usr/lib/adapter.so"), Ok(()));
    assert_eq!(slot.finish_connect(false, Ok(1)), Err(SessionError::DriverLoadError));
    assert!(!slot.is_loaded());
    assert_eq!(slot.claim("/usr/lib/adapter.so"), Ok(()));
    assert_eq!(slot.finish_connect(true, Err(0x08)), Err(SessionError::DeviceOpenError));
    assert!(slot.is_loaded());
    assert_eq!(slot.finish_connect(true, Ok(3)), Ok(3));
}

#[test]
fn battery_read_needs_a_driver() {
    let mut slot = DriverSlot::new();
    assert_eq!(slot.require_driver(), Err(SessionError::DriverLoadError));
    assert_eq!(slot.claim("/usr/lib/adapter.so"), Ok(()));
    assert_eq!(slot.require_driver(), Ok(()));
}
