//! The KWP2000 diagnostic session: opening and closing, request/response
//! commands, the keep-alive, and the trouble-code cache.
use vstd::prelude::*;
use crate::comm::{ChannelHandle, CommError, CommServer};
use crate::protocol::{
    build_request, check_response, dtc_frame_ok, dtcs_match, parse_dtcs, request_bytes,
    response_outcome, DtcDefinition, DtcRecord, MALFORMED_RESPONSE, SESSION_TYPE_EXTENDED, SID_CLEAR_DTC,
    SID_READ_DTC, SID_START_SESSION, SID_STOP_SESSION, SID_TESTER_PRESENT,
    TESTER_PRESENT_RESPONSE_REQUIRED,
};
use crate::transport::TransportConfig;

verus! {

/// How long the ECU has to accept the start of a session.
pub const START_TIMEOUT_MS: u32 = 2500;
/// How long a single request waits for its response.
pub const FRAME_TIMEOUT_MS: u32 = 1000;
/// Time between two keep-alive frames.
pub const KEEP_ALIVE_INTERVAL_MS: u32 = 250;
/// Consecutive unanswered keep-alives after which the session is lost.
pub const MAX_MISSED_KEEP_ALIVES: u32 = 2;

/// Where a session stands. `Connecting` and `Terminating` last only while a call
/// that opens or tears down the session runs; between calls a session is
/// `Closed` or `Active`.
#[derive(Clone, Copy, Debug, PartialEq, Eq, Structural)]
pub enum SessionState {
    Closed,
    Connecting,
    Active,
    Terminating,
}

/// The failures the diagnostic stack reports.
#[derive(Clone, Copy, Debug, PartialEq, Eq, Structural)]
pub enum SessionError {
    DriverLoadError,
    DriverInUseError,
    DeviceOpenError,
    ChannelError,
    TimeoutError,
    IOError,
    ProtocolError(u8),
    SessionStartError,
    ClearError,
    BusyError,
}

/// The session error for a backend failure.
pub open spec fn comm_error(e: CommError) -> SessionError {
    match e {
        CommError::Timeout => SessionError::TimeoutError,
        CommError::Io => SessionError::IOError,
        CommError::Rejected => SessionError::ChannelError,
    }
}

pub fn map_comm_error(e: CommError) -> (r: SessionError)
    ensures
        r == comm_error(e),
{
    match e {
        CommError::Timeout => SessionError::TimeoutError,
        CommError::Io => SessionError::IOError,
        CommError::Rejected => SessionError::ChannelError,
    }
}

/// A backend reply with the message as a sequence.
pub open spec fn reply_view(reply: Result<Vec<u8>, CommError>) -> Result<Seq<u8>, CommError> {
    match reply {
        Ok(v) => Ok(v@),
        Err(e) => Err(e),
    }
}

/// What a request to `service` returns, given what the backend handed back.
pub open spec fn reply_outcome(service: u8, reply: Result<Seq<u8>, CommError>) -> Result<
    Seq<u8>,
    SessionError,
> {
    match reply {
        Err(e) => Err(comm_error(e)),
        Ok(resp) => match response_outcome(service, resp) {
            Ok(s) => Ok(s),
            Err(c) => Err(SessionError::ProtocolError(c)),
        },
    }
}

/// `r` is the executable form of the outcome `o`.
pub open spec fn command_result_matches(r: Result<Vec<u8>, SessionError>, o: Result<Seq<u8>, SessionError>) -> bool {
    match (r, o) {
        (Ok(v), Ok(s)) => v@ == s,
        (Err(a), Err(b)) => a == b,
        _ => false,
    }
}

/// Reads the backend's reply to a request for `service`.
pub fn interpret_reply(service: u8, reply: Result<Vec<u8>, CommError>) -> (r: Result<
    Vec<u8>,
    SessionError,
>)
    ensures
        command_result_matches(r, reply_outcome(service, reply_view(reply))),
{
    match reply {
        Err(e) => Err(map_comm_error(e)),
        Ok(resp) => match check_response(service, resp) {
            Ok(v) => Ok(v),
            Err(c) => Err(SessionError::ProtocolError(c)),
        },
    }
}

/// `r` is what a trouble-code read returns when the backend handed back `reply`:
/// the backend's or the ECU's error, the decoded list, or `ProtocolError` with
/// `MALFORMED_RESPONSE` when a positive response is no well-formed list.
pub open spec fn dtc_result_matches(
    r: Result<Vec<DtcRecord>, SessionError>,
    reply: Result<Seq<u8>, CommError>,
    table: Seq<DtcDefinition>,
) -> bool {
    match reply_outcome(SID_READ_DTC, reply) {
        Err(e) => r == Err::<Vec<DtcRecord>, SessionError>(e),
        Ok(s) => if dtc_frame_ok(s) {
            r is Ok && dtcs_match(r.unwrap()@, s, table)
        } else {
            r == Err::<Vec<DtcRecord>, SessionError>(SessionError::ProtocolError(MALFORMED_RESPONSE))
        },
    }
}

/// Decodes the backend's reply to a trouble-code read.
pub fn decode_dtc_reply(reply: Result<Vec<u8>, CommError>, table: &Vec<DtcDefinition>) -> (r:
    Result<Vec<DtcRecord>, SessionError>)
    ensures
        dtc_result_matches(r, reply_view(reply), table@),
{
    match interpret_reply(SID_READ_DTC, reply) {
        Err(e) => Err(e),
        Ok(resp) => match parse_dtcs(resp.as_slice(), table) {
            Some(recs) => Ok(recs),
            None => Err(SessionError::ProtocolError(MALFORMED_RESPONSE)),
        },
    }
}

/// What a keep-alive exchange means for the session.
#[derive(Clone, Copy, Debug, PartialEq, Eq, Structural)]
pub enum KeepAliveVerdict {
    /// The ECU answered.
    Alive,
    /// No answer; the count of consecutive misses so far.
    Missed(u32),
    /// The session is lost.
    Lost,
}

/// The keep-alive rule: a positive answer clears the misses; a driver read or
/// write failure loses the session at once; any other failure is a miss, and
/// `MAX_MISSED_KEEP_ALIVES` misses in a row lose it.
pub open spec fn keep_alive_verdict(missed: u32, reply: Result<Seq<u8>, CommError>) -> KeepAliveVerdict {
    match reply_outcome(SID_TESTER_PRESENT, reply) {
        Ok(_) => KeepAliveVerdict::Alive,
        Err(SessionError::IOError) => KeepAliveVerdict::Lost,
        Err(_) => if missed as int + 1 >= MAX_MISSED_KEEP_ALIVES {
            KeepAliveVerdict::Lost
        } else {
            KeepAliveVerdict::Missed((missed + 1) as u32)
        },
    }
}

pub fn judge_keep_alive(missed: u32, reply: Result<Vec<u8>, CommError>) -> (r: KeepAliveVerdict)
    requires
        missed < MAX_MISSED_KEEP_ALIVES,
    ensures
        r == keep_alive_verdict(missed, reply_view(reply)),
{
    match interpret_reply(SID_TESTER_PRESENT, reply) {
        Ok(_) => KeepAliveVerdict::Alive,
        Err(SessionError::IOError) => KeepAliveVerdict::Lost,
        Err(_) => if missed + 1 >= MAX_MISSED_KEEP_ALIVES {
            KeepAliveVerdict::Lost
        } else {
            KeepAliveVerdict::Missed(missed + 1)
        },
    }
}

/// `a` and `b` hold the same trouble codes, in the same order.
pub open spec fn same_records(a: Seq<DtcRecord>, b: Seq<DtcRecord>) -> bool {
    &&& a.len() == b.len()
    &&& forall|i: int|
        0 <= i < a.len() ==> {
            &&& #[trigger] a[i].code == b[i].code
            &&& a[i].status == b[i].status
            &&& a[i].description@ == b[i].description@
        }
}

/// Copies a list of trouble codes.
pub fn copy_records(v: &Vec<DtcRecord>) -> (r: Vec<DtcRecord>)
    ensures
        same_records(r@, v@),
{
    let mut r: Vec<DtcRecord> = Vec::with_capacity(v.len());
    let mut i: usize = 0;
    while i < v.len()
        invariant
            i <= v@.len(),
            same_records(r@, v@.subrange(0, i as int)),
        decreases v@.len() - i,
    {
        let rec = DtcRecord {
            code: v[i].code,
            description: v[i].description.clone(),
            status: v[i].status,
        };
        r.push(rec);
        i = i + 1;
    }
    assert(v@.subrange(0, v@.len() as int) =~= v@);
    r
}

/// One exchange with the ECU: the request written and what the backend handed
/// back (the write's error when the write failed).
pub type Exchange = (Seq<u8>, Result<Seq<u8>, CommError>);

/// Writes `request` and, when that succeeds, reads the reply.
fn exchange<B: CommServer>(backend: &mut B, channel: &ChannelHandle, request: &[u8], timeout_ms: u32) -> (r:
    Result<Vec<u8>, CommError>) {
    match backend.write_frame(channel, request, timeout_ms) {
        Err(e) => Err(e),
        Ok(()) => backend.read_frame(channel, timeout_ms),
    }
}

/// The request that starts a session.
pub open spec fn start_request() -> Seq<u8> {
    seq![SID_START_SESSION, SESSION_TYPE_EXTENDED]
}

/// The request that stops a session.
pub open spec fn stop_request() -> Seq<u8> {
    seq![SID_STOP_SESSION]
}

/// The keep-alive request.
pub open spec fn tester_present_request() -> Seq<u8> {
    seq![SID_TESTER_PRESENT, TESTER_PRESENT_RESPONSE_REQUIRED]
}

/// The request that reads all trouble codes.
pub open spec fn read_dtc_request() -> Seq<u8> {
    seq![SID_READ_DTC, 0x00, 0xFF, 0x00]
}

/// The request that clears all diagnostic information.
pub open spec fn clear_dtc_request() -> Seq<u8> {
    seq![SID_CLEAR_DTC, 0xFF, 0x00]
}

/// `after` is `before` with one more exchange, which sent `request`.
pub open spec fn one_more(before: Seq<Exchange>, after: Seq<Exchange>, request: Seq<u8>) -> bool {
    &&& after.len() > 0
    &&& after == before.push((request, after.last().1))
}

/// One call that opened a channel: the configuration handed to the backend, and
/// its error when it failed.
pub type ConnectCall = (TransportConfig, Option<CommError>);

/// A KWP2000 diagnostic session over a backend. It owns its channel; the channel
/// is released when the session ends, is lost, or is dropped.
pub struct DiagnosticSession<B: CommServer> {
    backend: B,
    config: TransportConfig,
    table: Vec<DtcDefinition>,
    state: SessionState,
    channel: Option<ChannelHandle>,
    last_error: String,
    missed: u32,
    dtc_cache: Option<Vec<DtcRecord>>,
    transcript: Ghost<Seq<Exchange>>,
    connects: Ghost<Seq<ConnectCall>>,
    releases: Ghost<Seq<bool>>,
}

impl<B: CommServer> DiagnosticSession<B> {
    pub closed spec fn spec_state(&self) -> SessionState {
        self.state
    }

    /// Whether the session holds a channel.
    pub closed spec fn spec_open(&self) -> bool {
        self.channel is Some
    }

    pub closed spec fn spec_last_error(&self) -> Seq<char> {
        self.last_error@
    }

    /// Keep-alives missed in a row.
    pub closed spec fn spec_missed(&self) -> u32 {
        self.missed
    }

    /// The trouble codes last read, if any read since the last clear.
    pub closed spec fn spec_cache(&self) -> Option<Seq<DtcRecord>> {
        match self.dtc_cache {
            Some(v) => Some(v@),
            None => None,
        }
    }

    pub closed spec fn spec_config(&self) -> TransportConfig {
        self.config
    }

    /// The table that describes known trouble codes.
    pub closed spec fn spec_table(&self) -> Seq<DtcDefinition> {
        self.table@
    }

    /// Every exchange with the ECU so far, oldest first.
    pub closed spec fn spec_transcript(&self) -> Seq<Exchange> {
        self.transcript@
    }

    /// Every call that opened a channel so far, oldest first.
    pub closed spec fn spec_connects(&self) -> Seq<ConnectCall> {
        self.connects@
    }

    /// Every channel release so far, oldest first; `true` when the backend
    /// reported success.
    pub closed spec fn spec_releases(&self) -> Seq<bool> {
        self.releases@
    }

    /// The reply of the latest exchange.
    pub open spec fn last_reply(&self) -> Result<Seq<u8>, CommError> {
        self.spec_transcript().last().1
    }

    /// Between calls a session is closed without a channel, or active with one,
    /// and has missed fewer keep-alives than lose it (none while closed).
    pub closed spec fn wf(&self) -> bool {
        &&& (self.state == SessionState::Closed || self.state == SessionState::Active)
        &&& (self.state == SessionState::Active) == (self.channel is Some)
        &&& self.missed < MAX_MISSED_KEEP_ALIVES
        &&& (self.state == SessionState::Closed ==> self.missed == 0)
    }

    /// Between calls a session is closed without a channel or active with one;
    /// every well-formed session is settled.
    pub open spec fn settled(&self) -> bool {
        &&& (self.spec_state() == SessionState::Closed || self.spec_state() == SessionState::Active)
        &&& (self.spec_state() == SessionState::Active) == self.spec_open()
    }

    /// The session's own fields are the same in `self` and `other`.
    pub open spec fn same_fields(&self, other: &Self) -> bool {
        &&& self.spec_state() == other.spec_state()
        &&& self.spec_open() == other.spec_open()
        &&& self.spec_last_error() == other.spec_last_error()
        &&& self.spec_missed() == other.spec_missed()
        &&& self.spec_cache() == other.spec_cache()
        &&& self.spec_config() == other.spec_config()
        &&& self.spec_table() == other.spec_table()
    }

    /// No call reached the backend between `self` and `other`.
    pub open spec fn same_calls(&self, other: &Self) -> bool {
        &&& self.spec_transcript() == other.spec_transcript()
        &&& self.spec_connects() == other.spec_connects()
        &&& self.spec_releases() == other.spec_releases()
    }

    /// Everything a caller observes of the session is the same in `self` and `other`.
    pub open spec fn same_as(&self, other: &Self) -> bool {
        self.same_fields(other) && self.same_calls(other)
    }

    /// `new` released the channel once more than `old`, and a failed release
    /// left a non-empty last error.
    pub open spec fn released_once(old: &Self, new: &Self) -> bool {
        &&& new.spec_releases().len() > 0
        &&& new.spec_releases() == old.spec_releases().push(new.spec_releases().last())
        &&& !new.spec_releases().last() ==> new.spec_last_error().len() > 0
    }

    /// What `start_session` does, from `old` to `new`, returning `r`.
    pub open spec fn start_effect(old: &Self, new: &Self, r: Result<(), SessionError>) -> bool {
        &&& new.wf()
        &&& new.settled()
        &&& new.spec_config() == old.spec_config()
        &&& new.spec_table() == old.spec_table()
        &&& old.spec_state() != SessionState::Closed ==> r == Err::<(), SessionError>(
            SessionError::BusyError,
        ) && new.same_as(old)
        &&& old.spec_state() == SessionState::Closed && !old.spec_config().valid() ==> r == Err::<
            (),
            SessionError,
        >(SessionError::ChannelError) && new.same_as(old)
        &&& old.spec_state() == SessionState::Closed && old.spec_config().valid() ==> {
            &&& new.spec_connects().len() > 0
            &&& new.spec_connects() == old.spec_connects().push(
                (old.spec_config(), new.spec_connects().last().1),
            )
            &&& match new.spec_connects().last().1 {
                Some(e) => {
                    &&& r == Err::<(), SessionError>(comm_error(e))
                    &&& new.same_fields(old)
                    &&& new.spec_transcript() == old.spec_transcript()
                    &&& new.spec_releases() == old.spec_releases()
                },
                None => {
                    &&& one_more(old.spec_transcript(), new.spec_transcript(), start_request())
                    &&& (r is Ok) == (reply_outcome(SID_START_SESSION, new.last_reply()) is Ok)
                    &&& r is Ok ==> {
                        &&& new.spec_state() == SessionState::Active
                        &&& new.spec_open()
                        &&& new.spec_missed() == 0
                        &&& new.spec_cache() is None
                        &&& new.spec_last_error() == old.spec_last_error()
                        &&& new.spec_releases() == old.spec_releases()
                    }
                    &&& r is Err ==> {
                        &&& r == Err::<(), SessionError>(SessionError::SessionStartError)
                        &&& Self::released_once(old, new)
                        &&& new.spec_last_error().len() > 0
                        &&& new.spec_cache() == old.spec_cache()
                    }
                },
            }
        }
        &&& old.spec_state() == SessionState::Closed && r is Err ==> new.spec_state()
            == SessionState::Closed && !new.spec_open()
    }

    /// What `run_command(service, args)` does, from `old` to `new`, returning `r`.
    pub open spec fn run_effect(
        old: &Self,
        new: &Self,
        service: u8,
        args: Seq<u8>,
        r: Result<Vec<u8>, SessionError>,
    ) -> bool {
        &&& new.wf()
        &&& new.settled()
        &&& new.same_fields(old)
        &&& old.spec_state() != SessionState::Active ==> r == Err::<Vec<u8>, SessionError>(
            SessionError::ChannelError,
        ) && new.same_calls(old)
        &&& old.spec_state() == SessionState::Active ==> {
            &&& one_more(old.spec_transcript(), new.spec_transcript(), request_bytes(service, args))
            &&& command_result_matches(r, reply_outcome(service, new.last_reply()))
            &&& new.spec_connects() == old.spec_connects()
            &&& new.spec_releases() == old.spec_releases()
        }
    }

    /// How a keep-alive verdict `r` left the session, from `old` to `new`.
    pub open spec fn verdict_effect(old: &Self, new: &Self, r: Option<KeepAliveVerdict>) -> bool {
        &&& new.wf()
        &&& new.settled()
        &&& new.spec_config() == old.spec_config()
        &&& new.spec_table() == old.spec_table()
        &&& new.spec_cache() == old.spec_cache()
        &&& new.spec_connects() == old.spec_connects()
        &&& r == Some(KeepAliveVerdict::Alive) ==> new.spec_state() == SessionState::Active
            && new.spec_missed() == 0 && new.spec_last_error() == old.spec_last_error()
            && new.spec_releases() == old.spec_releases()
        &&& r matches Some(KeepAliveVerdict::Missed(n)) ==> new.spec_state() == SessionState::Active
            && new.spec_missed() == n && new.spec_last_error() == old.spec_last_error()
            && new.spec_releases() == old.spec_releases()
        &&& r == Some(KeepAliveVerdict::Lost) ==> new.spec_state() == SessionState::Closed
            && !new.spec_open() && new.spec_last_error().len() > 0 && Self::released_once(old, new)
    }

    /// What `keep_alive` does, from `old` to `new`, returning `r`.
    pub open spec fn keep_alive_effect(old: &Self, new: &Self, r: Option<KeepAliveVerdict>) -> bool {
        &&& Self::verdict_effect(old, new, r)
        &&& old.spec_state() != SessionState::Active ==> r is None && new.same_as(old)
        &&& old.spec_state() == SessionState::Active ==> {
            &&& one_more(old.spec_transcript(), new.spec_transcript(), tester_present_request())
            &&& r == Some(keep_alive_verdict(old.spec_missed(), new.last_reply()))
        }
    }

    /// What `read_dtcs` does, from `old` to `new`, returning `r`.
    pub open spec fn read_effect(old: &Self, new: &Self, r: Result<Vec<DtcRecord>, SessionError>) -> bool {
        &&& new.wf()
        &&& new.settled()
        &&& new.spec_state() == old.spec_state()
        &&& new.spec_open() == old.spec_open()
        &&& new.spec_last_error() == old.spec_last_error()
        &&& new.spec_missed() == old.spec_missed()
        &&& new.spec_config() == old.spec_config()
        &&& new.spec_table() == old.spec_table()
        &&& new.spec_connects() == old.spec_connects()
        &&& new.spec_releases() == old.spec_releases()
        &&& old.spec_state() != SessionState::Active ==> r == Err::<Vec<DtcRecord>, SessionError>(
            SessionError::ChannelError,
        ) && new.same_as(old)
        &&& old.spec_state() == SessionState::Active ==> {
            &&& one_more(old.spec_transcript(), new.spec_transcript(), read_dtc_request())
            &&& dtc_result_matches(r, new.last_reply(), old.spec_table())
        }
        &&& r is Err ==> new.spec_cache() == old.spec_cache()
        &&& r matches Ok(v) ==> (new.spec_cache() matches Some(c) && same_records(c, v@))
    }

    /// What `clear_dtcs` does, from `old` to `new`, returning `r`.
    pub open spec fn clear_effect(old: &Self, new: &Self, r: Result<(), SessionError>) -> bool {
        &&& new.wf()
        &&& new.settled()
        &&& new.spec_state() == old.spec_state()
        &&& new.spec_open() == old.spec_open()
        &&& new.spec_last_error() == old.spec_last_error()
        &&& new.spec_missed() == old.spec_missed()
        &&& new.spec_config() == old.spec_config()
        &&& new.spec_table() == old.spec_table()
        &&& new.spec_connects() == old.spec_connects()
        &&& new.spec_releases() == old.spec_releases()
        &&& old.spec_state() != SessionState::Active ==> r == Err::<(), SessionError>(
            SessionError::ChannelError,
        ) && new.same_as(old)
        &&& old.spec_state() == SessionState::Active ==> {
            &&& one_more(old.spec_transcript(), new.spec_transcript(), clear_dtc_request())
            &&& (r is Ok) == (reply_outcome(SID_CLEAR_DTC, new.last_reply()) is Ok)
            &&& r is Err ==> r == Err::<(), SessionError>(SessionError::ClearError)
        }
        &&& r is Err ==> new.spec_cache() == old.spec_cache()
        &&& r is Ok ==> new.spec_cache() is None
    }

    /// What `end_session` does, from `old` to `new`.
    pub open spec fn end_effect(old: &Self, new: &Self) -> bool {
        &&& new.wf()
        &&& new.settled()
        &&& new.spec_state() == SessionState::Closed
        &&& !new.spec_open()
        &&& new.spec_missed() == 0
        &&& new.spec_cache() == old.spec_cache()
        &&& new.spec_config() == old.spec_config()
        &&& new.spec_table() == old.spec_table()
        &&& new.spec_connects() == old.spec_connects()
        &&& old.spec_open() ==> {
            &&& one_more(old.spec_transcript(), new.spec_transcript(), stop_request())
            &&& Self::released_once(old, new)
            &&& reply_outcome(SID_STOP_SESSION, new.last_reply()) is Err || !new.spec_releases().last()
                ==> new.spec_last_error().len() > 0
            &&& reply_outcome(SID_STOP_SESSION, new.last_reply()) is Ok && new.spec_releases().last()
                ==> new.spec_last_error() == old.spec_last_error()
        }
        &&& !old.spec_open() ==> new.same_calls(old) && new.spec_last_error() == old.spec_last_error()
        &&& old.wf() && !old.spec_open() ==> new.same_as(old)
    }

    /// A closed session on `backend`, for the channel `config` describes; `table`
    /// describes the trouble codes the ECU may report.
    pub fn new(backend: B, config: TransportConfig, table: Vec<DtcDefinition>) -> (r: Self)
        ensures
            r.wf(),
            r.settled(),
            r.spec_state() == SessionState::Closed,
            !r.spec_open(),
            r.spec_last_error().len() == 0,
            r.spec_missed() == 0,
            r.spec_cache() is None,
            r.spec_config() == config,
            r.spec_table() == table@,
            r.spec_transcript().len() == 0,
            r.spec_connects().len() == 0,
            r.spec_releases().len() == 0,
    {
        DiagnosticSession {
            backend,
            config,
            table,
            state: SessionState::Closed,
            channel: None,
            last_error: String::new(),
            missed: 0,
            dtc_cache: None,
            transcript: Ghost(Seq::empty()),
            connects: Ghost(Seq::empty()),
            releases: Ghost(Seq::empty()),
        }
    }

    pub fn state(&self) -> (r: SessionState)
        ensures
            r == self.spec_state(),
    {
        self.state
    }

    pub fn is_active(&self) -> (r: bool)
        ensures
            r == (self.spec_state() == SessionState::Active),
    {
        self.state == SessionState::Active
    }

    /// The text of the last fault; empty when there was none.
    pub fn last_error(&self) -> (r: &String)
        ensures
            r@ == self.spec_last_error(),
    {
        &self.last_error
    }

    /// The trouble codes last read, if any were read since the session began or
    /// the codes were last cleared.
    pub fn cached_dtcs(&self) -> (r: Option<&Vec<DtcRecord>>)
        ensures
            match r {
                Some(v) => self.spec_cache() == Some(v@),
                None => self.spec_cache() is None,
            },
    {
        match &self.dtc_cache {
            Some(v) => Some(v),
            None => None,
        }
    }

    /// Releases the channel, if one is held, at the end of a session, after
    /// asking the ECU to stop the session when `stop_first` holds. A failed
    /// release is recorded in the last error and does not stop the teardown.
    fn release_channel(&mut self, stop_first: bool)
        ensures
            final(self).channel is None,
            final(self).state == old(self).state,
            final(self).missed == old(self).missed,
            final(self).config == old(self).config,
            final(self).table == old(self).table,
            final(self).dtc_cache == old(self).dtc_cache,
            final(self).connects == old(self).connects,
            old(self).channel is None ==> final(self).last_error == old(self).last_error
                && final(self).releases == old(self).releases,
            old(self).channel is Some ==> Self::released_once(old(self), final(self)),
            old(self).channel is Some && stop_first && (reply_outcome(
                SID_STOP_SESSION,
                final(self).transcript@.last().1,
            ) is Err || !final(self).releases@.last()) ==> final(self).last_error@.len() > 0,
            old(self).channel is Some && stop_first && reply_outcome(
                SID_STOP_SESSION,
                final(self).transcript@.last().1,
            ) is Ok && final(self).releases@.last() ==> final(self).last_error == old(self).last_error,
            old(self).channel is Some && !stop_first && final(self).releases@.last() ==> final(self).last_error
                == old(self).last_error,
            old(self).channel is Some && stop_first ==> one_more(
                old(self).transcript@,
                final(self).transcript@,
                stop_request(),
            ),
            !(old(self).channel is Some && stop_first) ==> final(self).transcript == old(self).transcript,
    {
        let taken = self.channel.take();
        match taken {
            None => {},
            Some(ch) => {
                if stop_first {
                    let stop: [u8; 1] = [SID_STOP_SESSION];
                    let reply = exchange(&mut self.backend, &ch, &stop, FRAME_TIMEOUT_MS);
                    self.transcript = Ghost(self.transcript@.push((stop@, reply_view(reply))));
                    assert(stop@ =~= stop_request());
                    if interpret_reply(SID_STOP_SESSION, reply).is_err() {
                        proof {
                            reveal_strlit("the ECU did not confirm the end of the session");
                        }
                        self.last_error = "the ECU did not confirm the end of the session".to_owned();
                    }
                }
                let released = self.backend.disconnect(ch);
                self.releases = Ghost(self.releases@.push(released is Ok));
                if released.is_err() {
                    proof {
                        reveal_strlit("channel release failed");
                    }
                    self.last_error = "channel release failed".to_owned();
                }
            },
        }
    }

    /// Tears the session down after a fault: the channel is released and
    /// `reason` becomes the last error.
    fn fail(&mut self, reason: String)
        requires
            reason@.len() > 0,
            old(self).channel is Some,
        ensures
            final(self).wf(),
            final(self).state == SessionState::Closed,
            final(self).channel is None,
            final(self).last_error@ == reason@,
            final(self).missed == 0,
            final(self).config == old(self).config,
            final(self).table == old(self).table,
            final(self).dtc_cache == old(self).dtc_cache,
            final(self).transcript == old(self).transcript,
            final(self).connects == old(self).connects,
            final(self).releases@.len() > 0,
            final(self).releases@ == old(self).releases@.push(final(self).releases@.last()),
    {
        self.state = SessionState::Terminating;
        self.release_channel(false);
        self.state = SessionState::Closed;
        self.missed = 0;
        self.last_error = reason;
    }

    /// Opens the channel and starts the diagnostic session. Refused with
    /// `BusyError` unless the session is closed, and with `ChannelError` when
    /// the configuration is invalid, before any call. When the backend cannot
    /// open the channel its error is returned. Once the channel is open the
    /// session starts exactly when the ECU answers the start request positively;
    /// otherwise the channel is released and the result is `SessionStartError`.
    pub fn start_session(&mut self) -> (r: Result<(), SessionError>)
        requires
            old(self).wf(),
        ensures
            Self::start_effect(old(self), final(self), r),
    {
        if self.state != SessionState::Closed {
            return Err(SessionError::BusyError);
        }
        if !self.config.is_valid() {
            return Err(SessionError::ChannelError);
        }
        self.state = SessionState::Connecting;
        let opened = self.backend.connect(&self.config);
        let ch = match opened {
            Ok(ch) => {
                self.connects = Ghost(self.connects@.push((self.config, None)));
                ch
            },
            Err(e) => {
                self.connects = Ghost(self.connects@.push((self.config, Some(e))));
                self.state = SessionState::Closed;
                return Err(map_comm_error(e));
            },
        };
        let request: [u8; 2] = [SID_START_SESSION, SESSION_TYPE_EXTENDED];
        let reply = exchange(&mut self.backend, &ch, &request, START_TIMEOUT_MS);
        self.transcript = Ghost(self.transcript@.push((request@, reply_view(reply))));
        assert(request@ =~= start_request());
        match interpret_reply(SID_START_SESSION, reply) {
            Ok(_) => {
                self.channel = Some(ch);
                self.state = SessionState::Active;
                self.missed = 0;
                self.dtc_cache = None;
                Ok(())
            },
            Err(_) => {
                self.channel = Some(ch);
                proof {
                    reveal_strlit("the ECU did not accept the diagnostic session");
                }
                self.fail("the ECU did not accept the diagnostic session".to_owned());
                Err(SessionError::SessionStartError)
            },
        }
    }

    /// Sends `service` with `args` and returns what the ECU answered: its
    /// positive response, whole, or `ProtocolError` for a negative or malformed
    /// response, or the backend's error. There is no retry.
    pub fn run_command(&mut self, service: u8, args: &[u8]) -> (r: Result<Vec<u8>, SessionError>)
        requires
            old(self).wf(),
            args@.len() < usize::MAX,
        ensures
            Self::run_effect(old(self), final(self), service, args@, r),
    {
        let request = build_request(service, args);
        match &self.channel {
            None => Err(SessionError::ChannelError),
            Some(ch) => {
                let reply = exchange(&mut self.backend, ch, request.as_slice(), FRAME_TIMEOUT_MS);
                self.transcript = Ghost(self.transcript@.push((request@, reply_view(reply))));
                interpret_reply(service, reply)
            },
        }
    }

    /// Applies the backend's reply to a keep-alive. `None` when no session is
    /// active; otherwise the verdict, and a lost session is torn down with a
    /// non-empty last error.
    pub fn apply_keep_alive(&mut self, reply: Result<Vec<u8>, CommError>) -> (r: Option<
        KeepAliveVerdict,
    >)
        requires
            old(self).wf(),
        ensures
            Self::verdict_effect(old(self), final(self), r),
            final(self).spec_transcript() == old(self).spec_transcript(),
            old(self).spec_state() != SessionState::Active ==> r is None && final(self).same_as(old(self)),
            old(self).spec_state() == SessionState::Active ==> r == Some(
                keep_alive_verdict(old(self).spec_missed(), reply_view(reply)),
            ),
            old(self).spec_state() == SessionState::Active && reply == Err::<Vec<u8>, CommError>(
                CommError::Io,
            ) ==> final(self).spec_state() == SessionState::Closed && !final(self).spec_open()
                && final(self).spec_last_error().len() > 0,
    {
        if self.state != SessionState::Active {
            return None;
        }
        let verdict = judge_keep_alive(self.missed, reply);
        match verdict {
            KeepAliveVerdict::Alive => {
                self.missed = 0;
            },
            KeepAliveVerdict::Missed(n) => {
                self.missed = n;
            },
            KeepAliveVerdict::Lost => {
                proof {
                    reveal_strlit("the ECU stopped answering the keep-alive");
                }
                self.fail("the ECU stopped answering the keep-alive".to_owned());
            },
        }
        Some(verdict)
    }

    /// Sends one keep-alive, meant to run every `KEEP_ALIVE_INTERVAL_MS`, and
    /// applies the reply as `apply_keep_alive` does.
    pub fn keep_alive(&mut self) -> (r: Option<KeepAliveVerdict>)
        requires
            old(self).wf(),
        ensures
            Self::keep_alive_effect(old(self), final(self), r),
    {
        let reply = match &self.channel {
            None => {
                return None;
            },
            Some(ch) => {
                let request: [u8; 2] = [SID_TESTER_PRESENT, TESTER_PRESENT_RESPONSE_REQUIRED];
                let reply = exchange(&mut self.backend, ch, &request, FRAME_TIMEOUT_MS);
                self.transcript = Ghost(self.transcript@.push((request@, reply_view(reply))));
                assert(request@ =~= tester_present_request());
                reply
            },
        };
        self.apply_keep_alive(reply)
    }

    /// Reads the ECU's trouble codes and replaces the cache with them. An empty
    /// list means no faults. On failure the cache is left as it was.
    pub fn read_dtcs(&mut self) -> (r: Result<Vec<DtcRecord>, SessionError>)
        requires
            old(self).wf(),
        ensures
            Self::read_effect(old(self), final(self), r),
    {
        let reply = match &self.channel {
            None => {
                return Err(SessionError::ChannelError);
            },
            Some(ch) => {
                let request: [u8; 4] = [SID_READ_DTC, 0x00, 0xFF, 0x00];
                let reply = exchange(&mut self.backend, ch, &request, FRAME_TIMEOUT_MS);
                self.transcript = Ghost(self.transcript@.push((request@, reply_view(reply))));
                assert(request@ =~= read_dtc_request());
                reply
            },
        };
        let decoded = decode_dtc_reply(reply, &self.table);
        match decoded {
            Ok(recs) => {
                let copy = copy_records(&recs);
                self.dtc_cache = Some(copy);
                assert(self.spec_cache() == Some(copy@));
                Ok(recs)
            },
            Err(e) => Err(e),
        }
    }

    /// Clears the ECU's diagnostic information. It succeeds exactly when the ECU
    /// answers positively, and success empties the cache until the codes are read
    /// again; any failure is a `ClearError` and leaves the cache as it was.
    pub fn clear_dtcs(&mut self) -> (r: Result<(), SessionError>)
        requires
            old(self).wf(),
        ensures
            Self::clear_effect(old(self), final(self), r),
    {
        let reply = match &self.channel {
            None => {
                return Err(SessionError::ChannelError);
            },
            Some(ch) => {
                let request: [u8; 3] = [SID_CLEAR_DTC, 0xFF, 0x00];
                let reply = exchange(&mut self.backend, ch, &request, FRAME_TIMEOUT_MS);
                self.transcript = Ghost(self.transcript@.push((request@, reply_view(reply))));
                assert(request@ =~= clear_dtc_request());
                reply
            },
        };
        match interpret_reply(SID_CLEAR_DTC, reply) {
            Ok(_) => {
                self.dtc_cache = None;
                Ok(())
            },
            Err(_) => Err(SessionError::ClearError),
        }
    }

    /// Ends the session: asks the ECU to stop it, whatever the answer, and
    /// releases the channel exactly once; a stop request that is not answered
    /// positively and a failed release are recorded in the last error. On a session that holds no channel it makes no backend call
    /// and changes nothing, so ending twice is the same as ending once.
    pub fn end_session(&mut self)
        ensures
            Self::end_effect(old(self), final(self)),
    {
        if self.channel.is_some() {
            self.state = SessionState::Terminating;
        }
        self.release_channel(true);
        self.state = SessionState::Closed;
        self.missed = 0;
    }
}

impl<B: CommServer> Drop for DiagnosticSession<B> {
    /// A session that is dropped while it holds a channel ends first, as
    /// `end_session` states. Verus holds a verified `drop` to never unwind,
    /// which it cannot show of the backend's calls; the body only calls the
    /// verified `end_session`.
    #[verifier::external_body]
    fn drop(&mut self)
        opens_invariants none
        no_unwind
    {
        self.end_session();
    }
}

} // verus!
