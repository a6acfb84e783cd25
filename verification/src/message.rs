//! The decoded syslog message as the mutation builder sees it, and the
//! trusted shims around the outside decoder.
//!
//! The raw syslog grammar is an external collaborator: `syslog_loose`
//! turns the datagram text into a structured message.  The library keeps
//! its own plain-value picture of that message — text, optional fields,
//! structured-data elements — and all verified logic works on it.

use vstd::prelude::*;
use vstd::utf8::{decode_utf8, valid_utf8};
use syslog_loose::{parse_message, Variant};

verus! {

/// One structured-data element of a message: an element identifier and
/// its ordered key/value parameters.
#[derive(Debug, Clone, PartialEq, Eq)]
pub struct SdElement {
    pub id: String,
    pub params: Vec<(String, String)>,
}

/// A decoded syslog message, reduced to the plain values the mutation
/// builder reads.  Optional fields that the datagram did not carry are
/// `None`; the timestamp is seconds since the epoch.
#[derive(Debug, Clone, PartialEq, Eq)]
pub struct SyslogMessage {
    pub msg: String,
    pub msgid: Option<String>,
    pub timestamp: Option<i64>,
    pub hostname: Option<String>,
    pub facility: Option<String>,
    pub severity: Option<String>,
    pub appname: Option<String>,
    pub structured_data: Vec<SdElement>,
}

/// Relies on `core::str::from_utf8`: returns `Ok` exactly on valid
/// UTF-8 input, and the resulting string is the decoding of the bytes.
#[verifier::external_body]
pub(crate) fn bytes_as_str<'a>(b: &'a [u8]) -> (r: Option<&'a str>)
    ensures
        r is Some <==> valid_utf8(b@),
        r is Some ==> r.unwrap()@ == decode_utf8(b@),
{
    core::str::from_utf8(b).ok()
}

/// An owned copy of a borrowed string.
fn own(x: &str) -> (r: String)
    ensures
        r@ == x@,
{
    x.to_owned()
}

/// Relies on `syslog_loose::parse_message`: decodes any input text into
/// a structured message, never failing.  The decode is best-effort and
/// may consult the clock and local time zone for dates without a year
/// or zone, so nothing ties the result to the input: whatever comes
/// back, the builder escapes every string value of it.
#[verifier::external_body]
fn parse_syslog(s: &str) -> (m: SyslogMessage)
{
    let p = parse_message(s, Variant::Either);
    SyslogMessage {
        msg: own(p.msg),
        msgid: p.msgid.map(own),
        timestamp: p.timestamp.map(|t| t.timestamp()),
        hostname: p.hostname.map(own),
        facility: p.facility.map(|f| own(f.as_str())),
        severity: p.severity.map(|v| own(v.as_str())),
        appname: p.appname.map(own),
        structured_data: p.structured_data.into_iter().map(|e| SdElement { id: own(e.id), params: e.params.into_iter().map(|(k, v)| (own(k), own(v))).collect() }).collect(),
    }
}

/// Decode the text of one datagram: reject bytes that are not valid
/// UTF-8, otherwise hand the text to the syslog decoder.  `None` is
/// returned exactly on invalid UTF-8; the decoder itself never fails.
pub fn decode_datagram(buf: &[u8]) -> (r: Option<SyslogMessage>)
    ensures
        r is Some <==> valid_utf8(buf@),
{
    match bytes_as_str(buf) {
        None => None,
        Some(text) => Some(parse_syslog(text)),
    }
}

} // verus!
