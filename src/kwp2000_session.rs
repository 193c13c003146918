//! The controller behind a KWP2000 diagnostic screen: it turns user and timer
//! messages into session calls and records what happened in a log. It holds no
//! presentation; a user interface renders its state and log.
use vstd::prelude::*;
use crate::comm::CommServer;
use crate::hexfmt::hex_decoded;
use crate::protocol::{build_request, parse_payload, sendable_payload, DtcDefinition, DtcRecord};
use crate::session::{
    DiagnosticSession, KeepAliveVerdict, SessionError, SessionState, KEEP_ALIVE_INTERVAL_MS,
};
use crate::transport::TransportConfig;

verus! {

/// What the user or the timer asks of the controller.
#[derive(Clone, Debug, PartialEq)]
pub enum KWP2000DiagSessionMsg {
    ConnectECU,
    DisconnectECU,
    Back,
    /// The keep-alive timer fired; the time in milliseconds.
    PollServer(u64),
    LoadErrorDefinition,
    ClearLogs,
    ClearErrors,
    ReadCodes,
    SendPayload,
    EnterPayload(String),
}

impl KWP2000DiagSessionMsg {
    /// Whether the message asks to leave the screen.
    pub fn is_back(&self) -> (r: bool)
        ensures
            r == (self is Back),
    {
        match self {
            KWP2000DiagSessionMsg::Back => true,
            _ => false,
        }
    }
}

/// One entry of the controller's log.
#[derive(Clone, Debug)]
pub enum LogEvent {
    Connected,
    ConnectFailed(SessionError),
    Disconnected,
    /// The session was lost without the user asking; the last error.
    ClosedUnexpectedly(String),
    Cleared,
    ClearFailed(SessionError),
    ReadFailed(SessionError),
    NoErrors,
    FoundErrors(usize),
    ErrorCode(DtcRecord),
    CommandSent { request: Vec<u8>, response: Vec<u8> },
    CommandFailed { request: Vec<u8>, error: SessionError },
}
/// The log entry for a start of the session that returned `r`.
pub open spec fn connect_entry(r: Result<(), SessionError>) -> LogEvent {
    match r {
        Ok(()) => LogEvent::Connected,
        Err(e) => LogEvent::ConnectFailed(e),
    }
}

/// The log entry for a clear of the trouble codes that returned `r`.
pub open spec fn clear_entry(r: Result<(), SessionError>) -> LogEvent {
    match r {
        Ok(()) => LogEvent::Cleared,
        Err(e) => LogEvent::ClearFailed(e),
    }
}

/// `after` is `before` followed by the entries for a trouble-code read that
/// returned `r`: the failure, `NoErrors`, or the count and then each code.
pub open spec fn codes_logged(
    before: Seq<LogEvent>,
    after: Seq<LogEvent>,
    r: Result<Vec<DtcRecord>, SessionError>,
) -> bool {
    match r {
        Err(e) => after == before.push(LogEvent::ReadFailed(e)),
        Ok(v) => if v@.len() == 0 {
            after == before.push(LogEvent::NoErrors)
        } else {
            &&& after.len() == before.len() + 1 + v@.len()
            &&& after.subrange(0, before.len() as int) == before
            &&& after[before.len() as int] == LogEvent::FoundErrors(v@.len() as usize)
            &&& forall|i: int|
                0 <= i < v@.len() ==> #[trigger] after[before.len() + 1 + i] == LogEvent::ErrorCode(
                    v@[i],
                )
        },
    }
}

/// The controller of one diagnostic screen.
pub struct KWP2000DiagSession<B: CommServer> {
    session: DiagnosticSession<B>,
    can_clear_codes: bool,
    payload_string: String,
    can_send: bool,
    log: Vec<LogEvent>,
}

impl<B: CommServer> KWP2000DiagSession<B> {
    pub closed spec fn spec_session(&self) -> &DiagnosticSession<B> {
        &self.session
    }

    /// Whether codes were found by the last read, so that clearing is offered.
    pub closed spec fn spec_can_clear(&self) -> bool {
        self.can_clear_codes
    }

    pub closed spec fn spec_payload(&self) -> Seq<char> {
        self.payload_string@
    }

    /// Whether the entered payload may be sent.
    pub closed spec fn spec_can_send(&self) -> bool {
        self.can_send
    }

    pub closed spec fn spec_log(&self) -> Seq<LogEvent> {
        self.log@
    }

    pub closed spec fn wf(&self) -> bool {
        self.session.wf()
    }

    pub open spec fn in_session(&self) -> bool {
        self.spec_session().spec_state() == SessionState::Active
    }

    /// The screen's own state (payload, whether sending and clearing are
    /// offered) is the same in `self` and `other`.
    pub open spec fn same_screen(&self, other: &Self) -> bool {
        &&& self.spec_can_clear() == other.spec_can_clear()
        &&& self.spec_payload() == other.spec_payload()
        &&& self.spec_can_send() == other.spec_can_send()
    }

    /// A controller with a closed session on `comm_server` for the ECU that `ecu`
    /// addresses, whose trouble codes `table` describes.
    pub fn with_dtc_table(comm_server: B, ecu: TransportConfig, table: Vec<DtcDefinition>) -> (r:
        Self)
        ensures
            r.wf(),
            !r.in_session(),
            !r.spec_session().spec_open(),
            r.spec_session().spec_config() == ecu,
            r.spec_session().spec_table() == table@,
            r.spec_session().spec_cache() is None,
            r.spec_session().spec_transcript().len() == 0,
            r.spec_session().spec_connects().len() == 0,
            r.spec_session().spec_releases().len() == 0,
            r.spec_log().len() == 0,
            !r.spec_can_send(),
            !r.spec_can_clear(),
            r.spec_payload().len() == 0,
    {
        KWP2000DiagSession {
            session: DiagnosticSession::new(comm_server, ecu, table),
            can_clear_codes: false,
            payload_string: String::new(),
            can_send: false,
            log: Vec::new(),
        }
    }

    /// A controller with a closed session on `comm_server` for the ECU that `ecu`
    /// addresses, with no trouble-code descriptions.
    pub fn new(comm_server: B, ecu: TransportConfig) -> (r: Result<Self, SessionError>)
        ensures
            r matches Ok(c) && {
                &&& c.wf()
                &&& !c.in_session()
                &&& !c.spec_session().spec_open()
                &&& c.spec_session().spec_config() == ecu
                &&& c.spec_session().spec_table().len() == 0
                &&& c.spec_session().spec_cache() is None
                &&& c.spec_session().spec_transcript().len() == 0
                &&& c.spec_session().spec_connects().len() == 0
                &&& c.spec_session().spec_releases().len() == 0
                &&& c.spec_log().len() == 0
                &&& !c.spec_can_send()
                &&& !c.spec_can_clear()
                &&& c.spec_payload().len() == 0
            },
    {
        let table: Vec<DtcDefinition> = Vec::new();
        Ok(Self::with_dtc_table(comm_server, ecu, table))
    }

    /// The session the controller drives.
    pub fn session(&self) -> (r: &DiagnosticSession<B>)
        ensures
            r == self.spec_session(),
    {
        &self.session
    }

    pub fn is_in_session(&self) -> (r: bool)
        ensures
            r == self.in_session(),
    {
        self.session.is_active()
    }

    pub fn can_clear_codes(&self) -> (r: bool)
        ensures
            r == self.spec_can_clear(),
    {
        self.can_clear_codes
    }

    pub fn can_send(&self) -> (r: bool)
        ensures
            r == self.spec_can_send(),
    {
        self.can_send
    }

    pub fn payload(&self) -> (r: &String)
        ensures
            r@ == self.spec_payload(),
    {
        &self.payload_string
    }

    /// How often the screen must send `PollServer`: every
    /// `KEEP_ALIVE_INTERVAL_MS` while a session is active, never otherwise.
    pub fn poll_interval_ms(&self) -> (r: Option<u32>)
        ensures
            self.in_session() ==> r == Some(KEEP_ALIVE_INTERVAL_MS),
            !self.in_session() ==> r is None,
    {
        if self.session.is_active() {
            Some(KEEP_ALIVE_INTERVAL_MS)
        } else {
            None
        }
    }

    pub fn log(&self) -> (r: &Vec<LogEvent>)
        ensures
            r@ == self.spec_log(),
    {
        &self.log
    }

    /// Appends the outcome of a trouble-code read to the log, and offers
    /// clearing when codes were found.
    fn log_codes(&mut self, r: Result<Vec<DtcRecord>, SessionError>)
        ensures
            final(self).session == old(self).session,
            final(self).payload_string == old(self).payload_string,
            final(self).can_send == old(self).can_send,
            final(self).can_clear_codes == (r matches Ok(v) && v@.len() > 0),
            codes_logged(old(self).log@, final(self).log@, r),
    {
        let codes = match r {
            Err(e) => {
                self.can_clear_codes = false;
                self.log.push(LogEvent::ReadFailed(e));
                return;
            },
            Ok(codes) => codes,
        };
        if codes.len() == 0 {
            self.can_clear_codes = false;
            self.log.push(LogEvent::NoErrors);
            return;
        }
        self.can_clear_codes = true;
        let n = codes.len();
        let ghost all = codes@;
        self.log.push(LogEvent::FoundErrors(n));
        let ghost start = self.log@.len();
        let mut rest = codes;
        let mut i: usize = 0;
        while rest.len() > 0
            invariant
                i + rest@.len() == n,
                n == all.len(),
                rest@ == all.subrange(i as int, n as int),
                self.log@.len() == start + i,
                start >= 1,
                start == old(self).log@.len() + 1,
                self.log@.subrange(0, start - 1) == old(self).log@,
                self.log@[start - 1] == LogEvent::FoundErrors(n),
                forall|j: int| 0 <= j < i ==> #[trigger] self.log@[start + j] == LogEvent::ErrorCode(all[j]),
                self.session == old(self).session,
                self.payload_string == old(self).payload_string,
                self.can_send == old(self).can_send,
                self.can_clear_codes,
            decreases rest@.len(),
        {
            let rec = rest.remove(0);
            let ghost before = self.log@;
            self.log.push(LogEvent::ErrorCode(rec));
            assert(self.log@.subrange(0, start - 1) =~= before.subrange(0, start - 1));
            i = i + 1;
            assert(rest@ =~= all.subrange(i as int, n as int));
        }
        assert forall|j: int| 0 <= j < all.len() implies #[trigger] self.log@[old(self).log@.len() + 1 + j]
            == LogEvent::ErrorCode(all[j]) by {
            assert(self.log@[start + j] == LogEvent::ErrorCode(all[j]));
        }
    }

    /// Handles one message; the screen asks nothing back, so the result is
    /// always `None`. Each message that reaches the ECU makes exactly the
    /// session call it names, and the log records that call's outcome.
    pub fn update(&mut self, msg: &KWP2000DiagSessionMsg) -> (r: Option<KWP2000DiagSessionMsg>)
        requires
            old(self).wf(),
        ensures
            r is None,
            final(self).wf(),
            match msg {
                KWP2000DiagSessionMsg::ConnectECU => {
                    &&& final(self).same_screen(old(self))
                    &&& exists|s: Result<(), SessionError>|
                        #[trigger] DiagnosticSession::<B>::start_effect(
                            old(self).spec_session(),
                            final(self).spec_session(),
                            s,
                        ) && final(self).spec_log() == old(self).spec_log().push(connect_entry(s))
                },
                KWP2000DiagSessionMsg::DisconnectECU => {
                    &&& final(self).same_screen(old(self))
                    &&& DiagnosticSession::<B>::end_effect(old(self).spec_session(), final(self).spec_session())
                    &&& final(self).spec_log() == old(self).spec_log().push(LogEvent::Disconnected)
                },
                KWP2000DiagSessionMsg::PollServer(_) => {
                    &&& final(self).same_screen(old(self))
                    &&& exists|k: Option<KeepAliveVerdict>|
                        #[trigger] DiagnosticSession::<B>::keep_alive_effect(
                            old(self).spec_session(),
                            final(self).spec_session(),
                            k,
                        ) && (k == Some(KeepAliveVerdict::Lost) ==> {
                            &&& final(self).spec_log().len() > 0
                            &&& final(self).spec_log() == old(self).spec_log().push(final(self).spec_log().last())
                            &&& final(self).spec_log().last() matches LogEvent::ClosedUnexpectedly(t)
                                && t@ == final(self).spec_session().spec_last_error()
                        }) && (k != Some(KeepAliveVerdict::Lost) ==> final(self).spec_log() == old(self).spec_log())
                },
                KWP2000DiagSessionMsg::ClearLogs => {
                    &&& final(self).same_screen(old(self))
                    &&& final(self).spec_session().same_as(old(self).spec_session())
                    &&& final(self).spec_log().len() == 0
                },
                KWP2000DiagSessionMsg::ClearErrors => {
                    &&& final(self).same_screen(old(self))
                    &&& !old(self).in_session() ==> final(self).spec_session().same_as(old(self).spec_session())
                        && final(self).spec_log() == old(self).spec_log()
                    &&& old(self).in_session() ==> exists|c: Result<(), SessionError>|
                        #[trigger] DiagnosticSession::<B>::clear_effect(
                            old(self).spec_session(),
                            final(self).spec_session(),
                            c,
                        ) && final(self).spec_log() == old(self).spec_log().push(clear_entry(c))
                },
                KWP2000DiagSessionMsg::ReadCodes => {
                    &&& final(self).spec_payload() == old(self).spec_payload()
                    &&& final(self).spec_can_send() == old(self).spec_can_send()
                    &&& !old(self).in_session() ==> final(self).spec_session().same_as(old(self).spec_session())
                        && final(self).spec_log() == old(self).spec_log() && !final(self).spec_can_clear()
                    &&& old(self).in_session() ==> exists|d: Result<Vec<DtcRecord>, SessionError>|
                        #[trigger] DiagnosticSession::<B>::read_effect(
                            old(self).spec_session(),
                            final(self).spec_session(),
                            d,
                        ) && codes_logged(old(self).spec_log(), final(self).spec_log(), d)
                            && final(self).spec_can_clear() == (d matches Ok(v) && v@.len() > 0)
                },
                KWP2000DiagSessionMsg::EnterPayload(s) => {
                    &&& final(self).spec_payload() == s@
                    &&& final(self).spec_can_send() == sendable_payload(s@)
                    &&& final(self).spec_can_clear() == old(self).spec_can_clear()
                    &&& final(self).spec_log() == old(self).spec_log()
                    &&& final(self).spec_session().same_as(old(self).spec_session())
                },
                KWP2000DiagSessionMsg::SendPayload => {
                    &&& final(self).same_screen(old(self))
                    &&& !(old(self).in_session() && sendable_payload(old(self).spec_payload()))
                        ==> final(self).spec_session().same_as(old(self).spec_session())
                        && final(self).spec_log() == old(self).spec_log()
                    &&& old(self).in_session() && sendable_payload(old(self).spec_payload()) ==> {
                        let bytes = hex_decoded(old(self).spec_payload());
                        exists|c: Result<Vec<u8>, SessionError>|
                            #[trigger] DiagnosticSession::<B>::run_effect(
                                old(self).spec_session(),
                                final(self).spec_session(),
                                bytes[0],
                                bytes.drop_first(),
                                c,
                            ) && final(self).spec_log().len() > 0 && final(self).spec_log() == old(
                                self).spec_log().push(final(self).spec_log().last()) && match final(
                                self).spec_log().last() {
                                LogEvent::CommandSent { request, response } => request@ == bytes
                                    && (c matches Ok(v) && v@ == response@),
                                LogEvent::CommandFailed { request, error } => request@ == bytes
                                    && c == Err::<Vec<u8>, SessionError>(error),
                                _ => false,
                            }
                    }
                },
                _ => {
                    &&& final(self).same_screen(old(self))
                    &&& final(self).spec_session().same_as(old(self).spec_session())
                    &&& final(self).spec_log() == old(self).spec_log()
                },
            },
    {
        match msg {
            KWP2000DiagSessionMsg::ConnectECU => {
                let s = self.session.start_session();
                match s {
                    Ok(()) => self.log.push(LogEvent::Connected),
                    Err(e) => self.log.push(LogEvent::ConnectFailed(e)),
                }
                assert(DiagnosticSession::<B>::start_effect(old(self).spec_session(), self.spec_session(), s));
            },
            KWP2000DiagSessionMsg::DisconnectECU => {
                self.session.end_session();
                self.log.push(LogEvent::Disconnected);
            },
            KWP2000DiagSessionMsg::PollServer(_) => {
                let k = self.session.keep_alive();
                if let Some(KeepAliveVerdict::Lost) = k {
                    let reason = self.session.last_error().clone();
                    self.log.push(LogEvent::ClosedUnexpectedly(reason));
                }
                assert(DiagnosticSession::<B>::keep_alive_effect(old(self).spec_session(), self.spec_session(), k));
            },
            KWP2000DiagSessionMsg::ClearLogs => {
                self.log.clear();
            },
            KWP2000DiagSessionMsg::ClearErrors => {
                if self.session.is_active() {
                    let c = self.session.clear_dtcs();
                    match c {
                        Ok(()) => self.log.push(LogEvent::Cleared),
                        Err(e) => self.log.push(LogEvent::ClearFailed(e)),
                    }
                    assert(DiagnosticSession::<B>::clear_effect(old(self).spec_session(), self.spec_session(), c));
                }
            },
            KWP2000DiagSessionMsg::ReadCodes => {
                if self.session.is_active() {
                    let d = self.session.read_dtcs();
                    let ghost dg = d;
                    let ghost mid = self.session;
                    assert(DiagnosticSession::<B>::read_effect(old(self).spec_session(), &mid, dg));
                    self.log_codes(d);
                } else {
                    self.can_clear_codes = false;
                }
            },
            KWP2000DiagSessionMsg::EnterPayload(s) => {
                self.payload_string = s.clone();
                self.can_send = parse_payload(s.as_str()).is_some();
            },
            KWP2000DiagSessionMsg::SendPayload => {
                if self.session.is_active() {
                    if let Some(cmd) = parse_payload(self.payload_string.as_str()) {
                        let ghost bytes = hex_decoded(self.payload_string@);
                        assert(cmd.args@ =~= bytes.drop_first());
                        let request = build_request(cmd.service, cmd.args.as_slice());
                        let c = self.session.run_command(cmd.service, cmd.args.as_slice());
                        let ghost cg = c;
                        match c {
                            Ok(response) => self.log.push(LogEvent::CommandSent { request, response }),
                            Err(error) => self.log.push(LogEvent::CommandFailed { request, error }),
                        }
                        assert(DiagnosticSession::<B>::run_effect(
                            old(self).spec_session(),
                            self.spec_session(),
                            bytes[0],
                            bytes.drop_first(),
                            cg,
                        ));
                    }
                }
            },
            _ => {},
        }
        None
    }
}

} // verus!
