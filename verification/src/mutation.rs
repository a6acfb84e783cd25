//! Building the graph mutation statement for one ingested message.
//!
//! One datagram becomes one mutation statement: merge the Address node
//! for the packet's source, create the Message node and its link,
//! merge-and-link each optional field that is present, create one node
//! per structured-data element, and close with a clause returning the
//! store-assigned identifier of the new Message node.  The spec
//! functions here give the exact text of that statement; the builder is
//! proved to produce it.  Every string value written into the
//! statement — the source address, the message text and identifier,
//! each optional field, and every structured-data id, key and value —
//! passes through the escaper before interpolation: an invariant of
//! the whole pipeline.

use vstd::prelude::*;
use vstd::utf8::valid_utf8;
use crate::escape::{escape, escape_seq};
use crate::message::{decode_datagram, SdElement, SyslogMessage};
use crate::numfmt::{dec_seq, dec_seq_signed, i64_to_dec, u64_to_dec};

verus! {

/// An optional free-text value as it appears inside the statement: the
/// escaped text in quotes when present, the null marker otherwise.
pub open spec fn opt_quoted(s: Option<String>) -> Seq<char> {
    match s {
        Some(v) => "'"@ + escape_seq(v@) + "'"@,
        None => "null"@,
    }
}

/// An optional timestamp as it appears inside the statement: decimal
/// seconds when present, the null marker otherwise.
pub open spec fn opt_timestamp(t: Option<i64>) -> Seq<char> {
    match t {
        Some(v) => dec_seq_signed(v as int),
        None => "null"@,
    }
}

/// The fragment merging the Address node for the packet's source.
pub open spec fn address_fragment(ip: Seq<char>) -> Seq<char> {
    "MERGE (addr:Address {ip: '"@ + escape_seq(ip) + "'})\n"@
}

/// The fragment creating the Message node and its "from" link.
pub open spec fn message_fragment(m: SyslogMessage, server_timestamp: u64) -> Seq<char> {
    "CREATE (msg:Message {id: "@ + opt_quoted(m.msgid) + ", msg: '"@ + escape_seq(m.msg@)
        + "', server_timestamp: "@ + dec_seq(server_timestamp as nat) + ", timestamp: "@
        + opt_timestamp(m.timestamp) + "})-[:from]->(addr)\n"@
}

/// The fragment merging the Hostname node and its link, when present.
pub open spec fn hostname_fragment(h: Option<String>) -> Seq<char> {
    match h {
        Some(v) => "MERGE (host:Hostname {name: '"@ + escape_seq(v@)
            + "'})\nMERGE (msg)-[:host]->(host)\n"@,
        None => Seq::empty(),
    }
}

/// The fragment merging the Facility node and its link, when present.
pub open spec fn facility_fragment(f: Option<String>) -> Seq<char> {
    match f {
        Some(v) => "MERGE (fac:Facility {name: '"@ + escape_seq(v@)
            + "'})\nMERGE (msg)-[:facility]->(fac)\n"@,
        None => Seq::empty(),
    }
}

/// The fragment merging the Severity node and its link, when present.
pub open spec fn severity_fragment(s: Option<String>) -> Seq<char> {
    match s {
        Some(v) => "MERGE (sev:Severity {name: '"@ + escape_seq(v@)
            + "'})\nMERGE (msg)-[:severity]->(sev)\n"@,
        None => Seq::empty(),
    }
}

/// The fragment merging the AppName node and its link, when present.
pub open spec fn appname_fragment(a: Option<String>) -> Seq<char> {
    match a {
        Some(v) => "MERGE (app:AppName {name: '"@ + escape_seq(v@)
            + "'})\nMERGE (msg)-[:appname]->(app)\n"@,
        None => Seq::empty(),
    }
}

/// One key/value parameter written as a two-element list.
pub open spec fn param_pair(p: (String, String)) -> Seq<char> {
    "['"@ + escape_seq(p.0@) + "','"@ + escape_seq(p.1@) + "']"@
}

/// The comma-separated parameter list of a structured-data element.
pub open spec fn params_list(ps: Seq<(String, String)>) -> Seq<char>
    decreases ps.len(),
{
    if ps.len() == 0 {
        Seq::empty()
    } else if ps.len() == 1 {
        param_pair(ps[0])
    } else {
        params_list(ps.drop_last()) + ","@ + param_pair(ps.last())
    }
}

/// The fragment creating one structured-data element node and its
/// "data" link to the Message node.
pub open spec fn sd_fragment(e: SdElement) -> Seq<char> {
    "CREATE (data:Data {id:'"@ + escape_seq(e.id@) + "', params:["@ + params_list(e.params@)
        + "]})-[:data]->(msg)\n"@
}

/// The fragments of all structured-data elements, in their original
/// order.
pub open spec fn sd_fragments(elems: Seq<SdElement>) -> Seq<char>
    decreases elems.len(),
{
    if elems.len() == 0 {
        Seq::empty()
    } else {
        sd_fragments(elems.drop_last()) + sd_fragment(elems.last())
    }
}

/// The clause asking the store to return the identifier it assigned to
/// the created Message node.
pub open spec fn return_clause() -> Seq<char> {
    "RETURN id(msg) as id"@
}

/// The whole mutation statement for one decoded message: address merge,
/// message create, the optional-field fragments in the fixed order
/// hostname, facility, severity, appname, the structured-data fragments
/// in their original order, and the return clause.
pub open spec fn mutation_spec(m: SyslogMessage, ip: Seq<char>, server_timestamp: u64) -> Seq<
    char,
> {
    address_fragment(ip) + message_fragment(m, server_timestamp) + hostname_fragment(m.hostname)
        + facility_fragment(m.facility) + severity_fragment(m.severity) + appname_fragment(
        m.appname,
    ) + sd_fragments(m.structured_data@) + return_clause()
}

/// The text of one structured-data element's parameter list.
fn params_text(ps: &Vec<(String, String)>) -> (r: String)
    ensures
        r@ == params_list(ps@),
{
    let mut r = String::new();
    let mut i: usize = 0;
    while i < ps.len()
        invariant
            i <= ps@.len(),
            r@ == params_list(ps@.take(i as int)),
        decreases ps@.len() - i,
    {
        if i > 0 {
            r.append(",");
        }
        r.append("['");
        r.append(escape(ps[i].0.as_str()).as_str());
        r.append("','");
        r.append(escape(ps[i].1.as_str()).as_str());
        r.append("']");
        proof {
            let taken = ps@.take(i + 1 as int);
            assert(taken.drop_last() =~= ps@.take(i as int));
            assert(taken.last() == ps@[i as int]);
            assert(r@ =~= params_list(taken));
        }
        i = i + 1;
    }
    proof {
        assert(ps@.take(ps@.len() as int) =~= ps@);
    }
    r
}

/// The text of one structured-data fragment.
fn sd_text(e: &SdElement) -> (r: String)
    ensures
        r@ == sd_fragment(*e),
{
    let mut r = String::new();
    r.append("CREATE (data:Data {id:'");
    r.append(escape(e.id.as_str()).as_str());
    r.append("', params:[");
    r.append(params_text(&e.params).as_str());
    r.append("]})-[:data]->(msg)\n");
    proof {
        assert(r@ =~= sd_fragment(*e));
    }
    r
}

/// Build the mutation statement for one decoded message.
///
/// The statement text is exactly [`mutation_spec`] of the message, the
/// packet's source address and the server receive timestamp: every
/// string value, the source address included, passes through the
/// escaper, absent optional fields contribute nothing, and the
/// statement closes by requesting the identifier of the created
/// Message node.
pub fn build_mutation(m: &SyslogMessage, ip: &str, server_timestamp: u64) -> (q: String)
    ensures
        q@ == mutation_spec(*m, ip@, server_timestamp),
{
    let mut q = String::new();
    q.append("MERGE (addr:Address {ip: '");
    q.append(escape(ip).as_str());
    q.append("'})\n");
    proof {
        assert(q@ =~= address_fragment(ip@));
    }

    q.append(message_text(m, server_timestamp).as_str());
    q.append(optionals_text(m).as_str());
    let ghost head = address_fragment(ip@) + message_fragment(*m, server_timestamp)
        + hostname_fragment(m.hostname) + facility_fragment(m.facility) + severity_fragment(
        m.severity,
    ) + appname_fragment(m.appname);
    proof {
        assert(q@ =~= head);
    }

    let mut i: usize = 0;
    while i < m.structured_data.len()
        invariant
            i <= m.structured_data@.len(),
            head == address_fragment(ip@) + message_fragment(*m, server_timestamp)
                + hostname_fragment(m.hostname) + facility_fragment(m.facility)
                + severity_fragment(m.severity) + appname_fragment(m.appname),
            q@ == head + sd_fragments(m.structured_data@.take(i as int)),
        decreases m.structured_data@.len() - i,
    {
        q.append(sd_text(&m.structured_data[i]).as_str());
        proof {
            let taken = m.structured_data@.take(i + 1 as int);
            assert(taken.drop_last() =~= m.structured_data@.take(i as int));
            assert(taken.last() == m.structured_data@[i as int]);
            assert(q@ =~= head + sd_fragments(taken));
        }
        i = i + 1;
    }
    proof {
        assert(m.structured_data@.take(m.structured_data@.len() as int) =~= m.structured_data@);
    }

    q.append("RETURN id(msg) as id");
    proof {
        assert(q@ =~= mutation_spec(*m, ip@, server_timestamp));
    }
    q
}

/// The text of the Message-create fragment.
fn message_text(m: &SyslogMessage, server_timestamp: u64) -> (q: String)
    ensures
        q@ == message_fragment(*m, server_timestamp),
{
    let mut q = String::new();
    q.append("CREATE (msg:Message {id: ");
    match &m.msgid {
        Some(id) => {
            q.append("'");
            q.append(escape(id.as_str()).as_str());
            q.append("'");
        },
        None => {
            q.append("null");
        },
    }
    q.append(", msg: '");
    q.append(escape(m.msg.as_str()).as_str());
    q.append("', server_timestamp: ");
    q.append(u64_to_dec(server_timestamp).as_str());
    q.append(", timestamp: ");
    match &m.timestamp {
        Some(t) => {
            q.append(i64_to_dec(*t).as_str());
        },
        None => {
            q.append("null");
        },
    }
    q.append("})-[:from]->(addr)\n");
    proof {
        assert(q@ =~= message_fragment(*m, server_timestamp));
    }
    q
}

/// The text of the four optional-field fragments, in the fixed order
/// hostname, facility, severity, appname; absent fields contribute
/// nothing.
fn optionals_text(m: &SyslogMessage) -> (q: String)
    ensures
        q@ == hostname_fragment(m.hostname) + facility_fragment(m.facility) + severity_fragment(
            m.severity,
        ) + appname_fragment(m.appname),
{
    let mut q = String::new();
    match &m.hostname {
        Some(h) => {
            q.append("MERGE (host:Hostname {name: '");
            q.append(escape(h.as_str()).as_str());
            q.append("'})\nMERGE (msg)-[:host]->(host)\n");
        },
        None => {},
    }
    match &m.facility {
        Some(f) => {
            q.append("MERGE (fac:Facility {name: '");
            q.append(escape(f.as_str()).as_str());
            q.append("'})\nMERGE (msg)-[:facility]->(fac)\n");
        },
        None => {},
    }
    match &m.severity {
        Some(s) => {
            q.append("MERGE (sev:Severity {name: '");
            q.append(escape(s.as_str()).as_str());
            q.append("'})\nMERGE (msg)-[:severity]->(sev)\n");
        },
        None => {},
    }
    match &m.appname {
        Some(a) => {
            q.append("MERGE (app:AppName {name: '");
            q.append(escape(a.as_str()).as_str());
            q.append("'})\nMERGE (msg)-[:appname]->(app)\n");
        },
        None => {},
    }
    q
}

/// Process the payload of one datagram: decode it and build the
/// mutation statement.
///
/// Returns the decoded message together with the statement built from
/// it; `None` exactly when the payload is not valid UTF-8 (a decode
/// failure is recovered locally — the packet is dropped and processing
/// continues).
pub fn process_datagram(buf: &[u8], ip: &str, server_timestamp: u64) -> (r: Option<
    (SyslogMessage, String),
>)
    ensures
        r is Some <==> valid_utf8(buf@),
        r is Some ==> r.unwrap().1@ == mutation_spec(r.unwrap().0, ip@, server_timestamp),
{
    match decode_datagram(buf) {
        None => None,
        Some(m) => {
            let q = build_mutation(&m, ip, server_timestamp);
            Some((m, q))
        },
    }
}

} // verus!
