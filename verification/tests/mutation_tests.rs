use ezsyslog::message::{SdElement, SyslogMessage};
use ezsyslog::mutation::{build_mutation, process_datagram};

fn bare_message(text: &str) -> SyslogMessage {
    SyslogMessage {
        msg: text.to_string(),
        msgid: None,
        timestamp: None,
        hostname: None,
        facility: None,
        severity: None,
        appname: None,
        structured_data: Vec::new(),
    }
}

#[test]
fn minimal_message_exact_query() {
    let m = bare_message("hi");
    let q = build_mutation(&m, "10.0.0.1", 1000);
    assert_eq!(
        q,
        "MERGE (addr:Address {ip: '10.0.0.1'})\n\
         CREATE (msg:Message {id: null, msg: 'hi', server_timestamp: 1000, timestamp: null})-[:from]->(addr)\n\
         RETURN id(msg) as id"
    );
}

#[test]
fn full_message_exact_query() {
    let m = SyslogMessage {
        msg: "disk 'sda' failed".to_string(),
        msgid: Some("ID47".to_string()),
        timestamp: Some(1704067200),
        hostname: Some("host1".to_string()),
        facility: Some("user".to_string()),
        severity: Some("info".to_string()),
        appname: Some("app1".to_string()),
        structured_data: vec![
            SdElement {
                id: "exampleSDID@32473".to_string(),
                params: vec![
                    ("iut".to_string(), "3".to_string()),
                    ("eventSource".to_string(), "Application".to_string()),
                ],
            },
            SdElement { id: "other".to_string(), params: vec![] },
        ],
    };
    let q = build_mutation(&m, "192.0.2.9", 99);
    assert_eq!(
        q,
        "MERGE (addr:Address {ip: '192.0.2.9'})\n\
         CREATE (msg:Message {id: 'ID47', msg: 'disk \\'sda\\' failed', server_timestamp: 99, timestamp: 1704067200})-[:from]->(addr)\n\
         MERGE (host:Hostname {name: 'host1'})\n\
         MERGE (msg)-[:host]->(host)\n\
         MERGE (fac:Facility {name: 'user'})\n\
         MERGE (msg)-[:facility]->(fac)\n\
         MERGE (sev:Severity {name: 'info'})\n\
         MERGE (msg)-[:severity]->(sev)\n\
         MERGE (app:AppName {name: 'app1'})\n\
         MERGE (msg)-[:appname]->(app)\n\
         CREATE (data:Data {id:'exampleSDID@32473', params:[['iut','3'],['eventSource','Application']]})-[:data]->(msg)\n\
         CREATE (data:Data {id:'other', params:[]})-[:data]->(msg)\n\
         RETURN id(msg) as id"
    );
}

#[test]
fn negative_timestamp_rendered_signed() {
    let mut m = bare_message("x");
    m.timestamp = Some(-1);
    let q = build_mutation(&m, "::1", 0);
    assert!(q.contains("timestamp: -1}"));
}

#[test]
fn structured_data_values_escaped() {
    let mut m = bare_message("x");
    m.structured_data = vec![SdElement {
        id: "a'b".to_string(),
        params: vec![("k'1".to_string(), "v\\2".to_string())],
    }];
    let q = build_mutation(&m, "::1", 0);
    assert!(q.contains("CREATE (data:Data {id:'a\\'b', params:[['k\\'1','v\\\\2']]})-[:data]->(msg)"));
}

#[test]
fn facility_severity_and_address_escaped() {
    // Every string value passes through the escaper, these three
    // included, even though well-formed addresses and decoder-table
    // names never hold a delimiter.
    let mut m = bare_message("x");
    m.facility = Some("us'er".to_string());
    m.severity = Some("in\\fo".to_string());
    let q = build_mutation(&m, "10.0.0.'1", 0);
    assert!(q.contains("MERGE (addr:Address {ip: '10.0.0.\\'1'})"));
    assert!(q.contains("MERGE (fac:Facility {name: 'us\\'er'})"));
    assert!(q.contains("MERGE (sev:Severity {name: 'in\\\\fo'})"));
}

#[test]
fn invalid_utf8_datagram_dropped() {
    let buf: Vec<u8> = vec![0xff, 0xfe, 0x80];
    assert!(process_datagram(&buf, "10.0.0.1", 5).is_none());
}

#[test]
fn end_to_end_scenario() {
    // A real RFC5424 datagram goes through the outside decoder and the
    // builder: the message text is escaped, the hostname, appname,
    // facility and severity are merged and linked, and the statement
    // asks for the created node's identifier.
    let payload = b"<14>1 2024-01-01T00:00:00Z host1 app1 - - - Hello 'World'";
    let (m, q) = process_datagram(payload, "203.0.113.7", 1234).expect("valid UTF-8");
    assert_eq!(m.msg, "Hello 'World'");
    assert_eq!(m.hostname.as_deref(), Some("host1"));
    assert_eq!(m.appname.as_deref(), Some("app1"));
    assert_eq!(m.facility.as_deref(), Some("user"));
    assert_eq!(m.severity.as_deref(), Some("info"));
    assert_eq!(m.timestamp, Some(1704067200));
    assert!(q.starts_with("MERGE (addr:Address {ip: '203.0.113.7'})\n"));
    assert!(q.contains("msg: 'Hello \\'World\\''"));
    assert!(q.contains("server_timestamp: 1234"));
    assert!(q.contains("timestamp: 1704067200"));
    assert!(q.contains("MERGE (host:Hostname {name: 'host1'})"));
    assert!(q.contains("MERGE (msg)-[:host]->(host)"));
    assert!(q.contains("MERGE (app:AppName {name: 'app1'})"));
    assert!(q.contains("MERGE (fac:Facility {name: 'user'})"));
    assert!(q.contains("MERGE (sev:Severity {name: 'info'})"));
    assert!(q.ends_with("RETURN id(msg) as id"));
}
