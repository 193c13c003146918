use kwp_diag::comm::{ChannelHandle, CommError, CommServer};
use kwp_diag::protocol::DtcDefinition;
use kwp_diag::kwp2000_session::{KWP2000DiagSession, KWP2000DiagSessionMsg, LogEvent};
use kwp_diag::session::SessionError;
use kwp_diag::transport::{AddressingMode, IdFormat, TransportConfig};

/// An ECU that answers every request positively, reports one trouble code, and
/// can be told to stop answering the keep-alive.
struct Answering {
    pending: Vec<u8>,
    silent: bool,
}

impl CommServer for Answering {
    fn connect(&mut self, _config: &TransportConfig) -> Result<ChannelHandle, CommError> {
        Ok(ChannelHandle::new(1))
    }

    fn disconnect(&mut self, _channel: ChannelHandle) -> Result<(), CommError> {
        Ok(())
    }

    fn write_frame(&mut self, _channel: &ChannelHandle, data: &[u8], _timeout_ms: u32) -> Result<(), CommError> {
        self.pending = data.to_vec();
        Ok(())
    }

    fn read_frame(&mut self, _channel: &ChannelHandle, _timeout_ms: u32) -> Result<Vec<u8>, CommError> {
        let req = std::mem::take(&mut self.pending);
        if req[0] == 0x3E && self.silent {
            return Err(CommError::Io);
        }
        if req[0] == 0x18 {
            return Ok(vec![0x58, 0x01, 0x12, 0x34, 0x20]);
        }
        let mut r = req.clone();
        r[0] = req[0] + 0x40;
        Ok(r)
    }

    fn ioctl(&mut self, _device: u32, _id: u32, _output: &mut u32) -> u32 {
        1
    }
}

fn screen() -> KWP2000DiagSession<Answering> {
    let cfg = TransportConfig {
        send_id: 0x7E0,
        recv_id: 0x7E8,
        id_format: IdFormat::Standard,
        baud: 500_000,
        block_size: 8,
        sep_time_min: 20,
        addressing: AddressingMode::Physical,
    };
    KWP2000DiagSession::new(Answering { pending: Vec::new(), silent: false }, cfg).unwrap()
}

#[test]
fn back_message_is_back() {
    assert!(KWP2000DiagSessionMsg::Back.is_back());
    assert!(!KWP2000DiagSessionMsg::ConnectECU.is_back());
}

#[test]
fn entered_payload_gates_sending() {
    let mut c = screen();
    c.update(&KWP2000DiagSessionMsg::EnterPayload("01".to_string()));
    assert!(!c.can_send());
    c.update(&KWP2000DiagSessionMsg::EnterPayload("0100".to_string()));
    assert!(c.can_send());
    c.update(&KWP2000DiagSessionMsg::EnterPayload("01zz".to_string()));
    assert!(!c.can_send());
    assert_eq!(c.payload(), "01zz");
}

#[test]
fn connect_send_and_disconnect() {
    let mut c = screen();
    assert!(c.update(&KWP2000DiagSessionMsg::ConnectECU).is_none());
    assert!(c.is_in_session());
    assert!(matches!(c.log()[0], LogEvent::Connected));
    c.update(&KWP2000DiagSessionMsg::ConnectECU);
    assert!(matches!(c.log()[1], LogEvent::ConnectFailed(SessionError::BusyError)));
    c.update(&KWP2000DiagSessionMsg::EnterPayload("22F190".to_string()));
    c.update(&KWP2000DiagSessionMsg::SendPayload);
    match &c.log()[2] {
        LogEvent::CommandSent { request, response } => {
            assert_eq!(request, &vec![0x22, 0xF1, 0x90]);
            assert_eq!(response, &vec![0x62, 0xF1, 0x90]);
        }
        other => panic!("unexpected log entry {:?}", other),
    }
    c.update(&KWP2000DiagSessionMsg::DisconnectECU);
    assert!(!c.is_in_session());
    assert!(matches!(c.log()[3], LogEvent::Disconnected));
    c.update(&KWP2000DiagSessionMsg::ClearLogs);
    assert!(c.log().is_empty());
}

#[test]
fn read_codes_offers_clearing() {
    let mut c = screen();
    c.update(&KWP2000DiagSessionMsg::ReadCodes);
    assert!(c.log().is_empty());
    c.update(&KWP2000DiagSessionMsg::ConnectECU);
    c.update(&KWP2000DiagSessionMsg::ReadCodes);
    assert!(c.can_clear_codes());
    assert!(matches!(c.log()[1], LogEvent::FoundErrors(1)));
    match &c.log()[2] {
        LogEvent::ErrorCode(rec) => {
            assert_eq!(rec.code, 0x1234);
            assert_eq!(rec.description, "1234");
            assert_eq!(rec.status, 0x20);
        }
        other => panic!("unexpected log entry {:?}", other),
    }
    c.update(&KWP2000DiagSessionMsg::ClearErrors);
    assert!(matches!(c.log()[3], LogEvent::Cleared));
}

#[test]
fn lost_session_is_logged() {
    let cfg = TransportConfig {
        send_id: 0x7E0,
        recv_id: 0x7E8,
        id_format: IdFormat::Standard,
        baud: 500_000,
        block_size: 8,
        sep_time_min: 20,
        addressing: AddressingMode::Physical,
    };
    let mut c = KWP2000DiagSession::new(Answering { pending: Vec::new(), silent: true }, cfg).unwrap();
    c.update(&KWP2000DiagSessionMsg::ConnectECU);
    assert!(c.is_in_session());
    c.update(&KWP2000DiagSessionMsg::PollServer(250));
    assert!(!c.is_in_session());
    match &c.log()[1] {
        LogEvent::ClosedUnexpectedly(reason) => assert!(!reason.is_empty()),
        other => panic!("unexpected log entry {:?}", other),
    }
}

#[test]
fn table_describes_codes_and_invalid_config_fails_first() {
    let cfg = TransportConfig {
        send_id: 0x7E0,
        recv_id: 0x7E8,
        id_format: IdFormat::Standard,
        baud: 500_000,
        block_size: 8,
        sep_time_min: 20,
        addressing: AddressingMode::Physical,
    };
    let table = vec![DtcDefinition { code: 0x1234, description: "Throttle position".to_string() }];
    let mut c = KWP2000DiagSession::with_dtc_table(Answering { pending: Vec::new(), silent: false }, cfg, table);
    c.update(&KWP2000DiagSessionMsg::ConnectECU);
    c.update(&KWP2000DiagSessionMsg::ReadCodes);
    match &c.log()[2] {
        LogEvent::ErrorCode(rec) => assert_eq!(rec.description, "Throttle position"),
        other => panic!("unexpected log entry {:?}", other),
    }
    let mut bad = cfg;
    bad.baud = 0;
    let mut d = KWP2000DiagSession::new(Answering { pending: Vec::new(), silent: false }, bad).unwrap();
    d.update(&KWP2000DiagSessionMsg::ConnectECU);
    assert!(matches!(d.log()[0], LogEvent::ConnectFailed(SessionError::ChannelError)));
    assert!(!d.is_in_session());
}
