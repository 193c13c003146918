//! KWP2000 framing: request bytes, the reading of a response, and the decoding
//! of a trouble-code list.
use vstd::prelude::*;
use crate::hexfmt::{decode_hex, encode_hex_upper, hex_decoded, hex_upper, is_hex_text};

verus! {

/// Service that opens a diagnostic session.
pub const SID_START_SESSION: u8 = 0x10;
/// Session type asked for when a session opens (extended diagnostics).
pub const SESSION_TYPE_EXTENDED: u8 = 0x92;
/// Service that closes the diagnostic session.
pub const SID_STOP_SESSION: u8 = 0x20;
/// Service that keeps the session alive.
pub const SID_TESTER_PRESENT: u8 = 0x3E;
/// Argument of tester-present that asks for a response.
pub const TESTER_PRESENT_RESPONSE_REQUIRED: u8 = 0x01;
/// Service that reads trouble codes by status.
pub const SID_READ_DTC: u8 = 0x18;
/// Service that clears diagnostic information.
pub const SID_CLEAR_DTC: u8 = 0x14;
/// First byte of every negative response.
pub const NEGATIVE_RESPONSE: u8 = 0x7F;
/// Offset from a service identifier to its positive response identifier.
pub const POSITIVE_OFFSET: u8 = 0x40;
/// Code reported for a response that is neither positive nor a well-formed
/// negative response; no negative response uses it.
pub const MALFORMED_RESPONSE: u8 = 0x00;

/// The bytes of a request: the service identifier, then its arguments.
pub open spec fn request_bytes(service: u8, args: Seq<u8>) -> Seq<u8> {
    seq![service].add(args)
}

/// What a response to `service` means: the whole response when it is positive,
/// else the negative response code, or `MALFORMED_RESPONSE` when it is neither.
pub open spec fn response_outcome(service: u8, resp: Seq<u8>) -> Result<Seq<u8>, u8> {
    if resp.len() >= 1 && resp[0] as int == service as int + POSITIVE_OFFSET as int {
        Ok(resp)
    } else if resp.len() >= 3 && resp[0] == NEGATIVE_RESPONSE && resp[1] == service {
        Err(resp[2])
    } else {
        Err(MALFORMED_RESPONSE)
    }
}

/// Builds the bytes of a request.
pub fn build_request(service: u8, args: &[u8]) -> (r: Vec<u8>)
    requires
        args@.len() < usize::MAX,
    ensures
        r@ == request_bytes(service, args@),
{
    let mut r: Vec<u8> = Vec::with_capacity(args.len() + 1);
    r.push(service);
    let mut i: usize = 0;
    while i < args.len()
        invariant
            i <= args@.len(),
            r@ == request_bytes(service, args@.subrange(0, i as int)),
        decreases args@.len() - i,
    {
        r.push(args[i]);
        i = i + 1;
        assert(args@.subrange(0, i as int) == args@.subrange(0, i as int - 1).push(args@[i - 1]));
    }
    assert(args@.subrange(0, args@.len() as int) == args@);
    r
}

/// Reads a response to `service`: the whole response when it is positive, the
/// negative response code when the ECU refused, `MALFORMED_RESPONSE` otherwise.
pub fn check_response(service: u8, resp: Vec<u8>) -> (r: Result<Vec<u8>, u8>)
    ensures
        match (r, response_outcome(service, resp@)) {
            (Ok(v), Ok(s)) => v@ == s,
            (Err(c), Err(d)) => c == d,
            _ => false,
        },
{
    if resp.len() >= 1 && resp[0] as u16 == service as u16 + POSITIVE_OFFSET as u16 {
        Ok(resp)
    } else if resp.len() >= 3 && resp[0] == NEGATIVE_RESPONSE && resp[1] == service {
        Err(resp[2])
    } else {
        Err(MALFORMED_RESPONSE)
    }
}

/// A user-entered request: a service identifier and its arguments.
#[derive(Clone, Debug, PartialEq, Eq)]
pub struct Command {
    pub service: u8,
    pub args: Vec<u8>,
}

/// Fewest bytes a user-entered request may have: the service identifier and at
/// least one argument.
pub const MIN_COMMAND_BYTES: usize = 2;

/// Hex text that may be sent: it decodes, to at least `MIN_COMMAND_BYTES` bytes.
pub open spec fn sendable_payload(s: Seq<char>) -> bool {
    is_hex_text(s) && hex_decoded(s).len() >= MIN_COMMAND_BYTES
}

/// Parses user-entered hex text into a request; `None` unless the text decodes
/// to at least two bytes.
pub fn parse_payload(s: &str) -> (r: Option<Command>)
    ensures
        r.is_some() == sendable_payload(s@),
        r.is_some() ==> request_bytes(r.unwrap().service, r.unwrap().args@) == hex_decoded(s@),
        r.is_some() ==> r.unwrap().args@.len() < usize::MAX,
{
    match decode_hex(s) {
        None => None,
        Some(bytes) => {
            if bytes.len() < MIN_COMMAND_BYTES {
                None
            } else {
                let mut args = bytes;
                let len = args.len();
                let service = args.remove(0);
                assert(args@.len() == len - 1);
                assert(request_bytes(service, args@) =~= hex_decoded(s@));
                Some(Command { service, args })
            }
        },
    }
}

/// Service of the positive response to a trouble-code read.
pub const DTC_RESPONSE: u8 = 0x58;
/// Bytes of one trouble-code record: two of code, one of status.
pub const DTC_RECORD_BYTES: usize = 3;

/// A trouble-code list response: the positive response byte, a count, and that
/// many three-byte records.
pub open spec fn dtc_frame_ok(resp: Seq<u8>) -> bool {
    resp.len() >= 2 && resp[0] == DTC_RESPONSE && resp.len() == 2 + 3 * resp[1]
}

/// The code of the `i`th record, high byte first.
pub open spec fn dtc_code_at(resp: Seq<u8>, i: int) -> u16 {
    (resp[2 + 3 * i] as int * 256 + resp[3 + 3 * i] as int) as u16
}

/// The status byte of the `i`th record.
pub open spec fn dtc_status_at(resp: Seq<u8>, i: int) -> u8 {
    resp[4 + 3 * i]
}

/// The text a code is known by: four upper-case hex digits, high byte first.
pub open spec fn code_text(code: u16) -> Seq<char> {
    hex_upper(seq![(code / 256) as u8, (code % 256) as u8])
}

/// Renders a code as four upper-case hex digits.
pub fn format_code(code: u16) -> (r: String)
    ensures
        r@ == code_text(code),
{
    let bytes: [u8; 2] = [(code / 256) as u8, (code % 256) as u8];
    let r = encode_hex_upper(&bytes);
    assert(bytes@ =~= seq![(code / 256) as u8, (code % 256) as u8]);
    r
}

/// A known trouble code and what it means.
#[derive(Clone, Debug)]
pub struct DtcDefinition {
    pub code: u16,
    pub description: String,
}

/// The description of `code`: that of its first entry in `table`, or the code's
/// hex text when no entry has it.
pub open spec fn describe(table: Seq<DtcDefinition>, code: u16) -> Seq<char>
    decreases table.len(),
{
    if table.len() == 0 {
        code_text(code)
    } else if table[0].code == code {
        table[0].description@
    } else {
        describe(table.drop_first(), code)
    }
}

/// Looks `code` up in `table`; an unknown code is described by its hex text.
pub fn describe_code(table: &Vec<DtcDefinition>, code: u16) -> (r: String)
    ensures
        r@ == describe(table@, code),
{
    let mut i: usize = 0;
    assert(table@.subrange(0, table@.len() as int) =~= table@);
    while i < table.len()
        invariant
            i <= table@.len(),
            describe(table@.subrange(i as int, table@.len() as int), code) == describe(table@, code),
        decreases table@.len() - i,
    {
        let rest = Ghost(table@.subrange(i as int, table@.len() as int));
        assert(rest@.drop_first() =~= table@.subrange(i + 1, table@.len() as int));
        if table[i].code == code {
            return table[i].description.clone();
        }
        i = i + 1;
    }
    assert(table@.subrange(i as int, table@.len() as int).len() == 0);
    format_code(code)
}

/// One trouble code as read from the ECU.
#[derive(Clone, Debug)]
pub struct DtcRecord {
    pub code: u16,
    pub description: String,
    pub status: u8,
}

/// `recs` is the decoding of the trouble-code response `resp` against `table`.
pub open spec fn dtcs_match(recs: Seq<DtcRecord>, resp: Seq<u8>, table: Seq<DtcDefinition>) -> bool {
    &&& recs.len() == resp[1]
    &&& forall|i: int|
        0 <= i < recs.len() ==> {
            &&& #[trigger] recs[i].code == dtc_code_at(resp, i)
            &&& recs[i].status == dtc_status_at(resp, i)
            &&& recs[i].description@ == describe(table, recs[i].code)
        }
}

/// Decodes a trouble-code list response; `None` when it is not one.
pub fn parse_dtcs(resp: &[u8], table: &Vec<DtcDefinition>) -> (r: Option<Vec<DtcRecord>>)
    ensures
        r.is_some() == dtc_frame_ok(resp@),
        r.is_some() ==> dtcs_match(r.unwrap()@, resp@, table@),
{
    if resp.len() < 2 || resp[0] != DTC_RESPONSE || resp.len() != 2 + DTC_RECORD_BYTES * (resp[1] as usize) {
        return None;
    }
    let count = resp[1] as usize;
    let mut out: Vec<DtcRecord> = Vec::with_capacity(count);
    let mut i: usize = 0;
    while i < count
        invariant
            i <= count,
            count == resp@[1],
            resp@.len() == 2 + 3 * count,
            out@.len() == i,
            forall|j: int|
                0 <= j < i ==> {
                    &&& #[trigger] out@[j].code == dtc_code_at(resp@, j)
                    &&& out@[j].status == dtc_status_at(resp@, j)
                    &&& out@[j].description@ == describe(table@, out@[j].code)
                },
        decreases count - i,
    {
        let base = 2 + DTC_RECORD_BYTES * i;
        let code: u16 = (resp[base] as u16) * 256 + resp[base + 1] as u16;
        let status = resp[base + 2];
        let description = describe_code(table, code);
        out.push(DtcRecord { code, description, status });
        i = i + 1;
    }
    assert(dtcs_match(out@, resp@, table@));
    Some(out)
}

} // verus!
