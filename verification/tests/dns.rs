use lan_play::dns::{a_query, answer_addresses, ResolveError};

#[test]
fn a_query_for_example_org() {
    let q = a_query("example.org").unwrap();
    let expected = b"\x00\x01\x01\x00\x00\x01\x00\x00\x00\x00\x00\x00\x07example\x03org\x00\x00\x01\x00\x01";
    assert_eq!(q, expected.to_vec());
}

#[test]
fn too_long_query_is_refused() {
    let label = "a".repeat(60);
    let mut name = label.clone();
    for _ in 0..8 {
        name.push('.');
        name.push_str(&label);
    }
    assert!(matches!(a_query(&name), Err(ResolveError::BuildQuery)));
}

fn answer_packet() -> Vec<u8> {
    let mut p = b"\x00\x01\x81\x80\x00\x01\x00\x03\x00\x00\x00\x00\x07example\x03org\x00\x00\x01\x00\x01".to_vec();
    // A 93.184.216.34
    p.extend_from_slice(b"\xc0\x0c\x00\x01\x00\x01\x00\x00\x0e\x10\x00\x04\x5d\xb8\xd8\x22");
    // AAAA ::1
    p.extend_from_slice(b"\xc0\x0c\x00\x1c\x00\x01\x00\x00\x0e\x10\x00\x10");
    p.extend_from_slice(&[0u8; 15]);
    p.push(1);
    // A 10.0.0.1
    p.extend_from_slice(b"\xc0\x0c\x00\x01\x00\x01\x00\x00\x0e\x10\x00\x04\x0a\x00\x00\x01");
    p
}

#[test]
fn answer_addresses_keep_a_records_in_order() {
    let addrs = answer_addresses(&answer_packet()).unwrap();
    assert_eq!(addrs, vec![u32::from_be_bytes([93, 184, 216, 34]), u32::from_be_bytes([10, 0, 0, 1])]);
}

#[test]
fn garbage_answer_is_refused() {
    let r = answer_addresses(&[1, 2, 3]);
    assert!(matches!(r, Err(ResolveError::ParseResponse(_))));
    assert_eq!(r.err().unwrap().message(), "Failed to parse dns response");
    assert_eq!(ResolveError::BuildQuery.message(), "Failed to build dns query");
}
