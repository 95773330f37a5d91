use ruuid::{
    ruuid_destroy, ruuid_generate_nil, ruuid_generate_version_4, ruuid_generate_version_5_sip,
    ruuid_get_braced, ruuid_get_hyphenated, ruuid_get_simple, ruuid_get_urn, ruuid_is_nil,
    ruuid_parse, Uuid,
};

const NAMESPACE_SIP_BYTES: [u8; 16] = [
    0xa5, 0x85, 0x87, 0xda, 0xc9, 0x3d, 0x11, 0xe2, 0xae, 0x90, 0xf4, 0xea, 0x67, 0x80, 0x1e, 0x29,
];

fn render_simple(u: &Uuid) -> Vec<u8> {
    let mut b = vec![0u8; 32];
    let n = ruuid_get_simple(u, &mut b);
    assert_eq!(n, 32);
    b
}

fn render_hyphenated(u: &Uuid) -> Vec<u8> {
    let mut b = vec![0u8; 36];
    let n = ruuid_get_hyphenated(u, &mut b);
    assert_eq!(n, 36);
    b
}

fn render_braced(u: &Uuid) -> Vec<u8> {
    let mut b = vec![0u8; 38];
    let n = ruuid_get_braced(u, &mut b);
    assert_eq!(n, 38);
    b
}

fn render_urn(u: &Uuid) -> Vec<u8> {
    let mut b = vec![0u8; 45];
    let n = ruuid_get_urn(u, &mut b);
    assert_eq!(n, 45);
    b
}

#[test]
fn nil_is_nil() {
    let u = ruuid_generate_nil();
    assert_eq!(ruuid_is_nil(&u), 1);
    ruuid_destroy(u);
}

#[test]
fn nil_renders_simple_zeros() {
    let u = ruuid_generate_nil();
    assert_eq!(render_simple(&u), b"00000000000000000000000000000000".to_vec());
}

#[test]
fn nil_renders_hyphenated_zeros() {
    let u = ruuid_generate_nil();
    assert_eq!(
        render_hyphenated(&u),
        b"00000000-0000-0000-0000-000000000000".to_vec()
    );
}

#[test]
fn v4_version_variant_and_not_nil() {
    let u = ruuid_generate_version_4();
    let s = render_simple(&u);
    assert_eq!(s[12], b'4');
    assert!(s[16] == b'8' || s[16] == b'9' || s[16] == b'a' || s[16] == b'b');
    assert_eq!(ruuid_is_nil(&u), 0);
}

#[test]
fn v4_two_values_differ() {
    let a = ruuid_generate_version_4();
    let b = ruuid_generate_version_4();
    assert_ne!(render_simple(&a), render_simple(&b));
}

#[test]
fn v5_deterministic() {
    let a = ruuid_generate_version_5_sip(b"example");
    let b = ruuid_generate_version_5_sip(b"example");
    assert_eq!(render_simple(&a), render_simple(&b));
}

#[test]
fn v5_version_variant_and_not_nil() {
    let u = ruuid_generate_version_5_sip(b"example");
    let s = render_simple(&u);
    assert_eq!(s[12], b'5');
    assert!(s[16] == b'8' || s[16] == b'9' || s[16] == b'a' || s[16] == b'b');
    assert_eq!(ruuid_is_nil(&u), 0);
}

#[test]
fn v5_matches_reference_implementation() {
    let ours = ruuid_generate_version_5_sip(b"example");
    let ns = uuid::Uuid::from_bytes(NAMESPACE_SIP_BYTES);
    let expected = uuid::Uuid::new_v5(&ns, b"example");
    let rendered = String::from_utf8(render_simple(&ours)).unwrap();
    assert_eq!(rendered, expected.simple().to_string());
}

#[test]
fn v5_differs_for_different_names() {
    let a = ruuid_generate_version_5_sip(b"example");
    let b = ruuid_generate_version_5_sip(b"other");
    assert_ne!(render_simple(&a), render_simple(&b));
}

#[test]
fn v5_empty_name_not_nil() {
    let u = ruuid_generate_version_5_sip(b"");
    assert_eq!(ruuid_is_nil(&u), 0);
}

#[test]
fn parse_sample_and_render_urn() {
    let u = ruuid_parse(b"550e8400-e29b-41d4-a716-446655440000").expect("well-formed");
    assert_eq!(
        render_urn(&u),
        b"urn:uuid:550e8400-e29b-41d4-a716-446655440000".to_vec()
    );
}

#[test]
fn parse_matches_reference_implementation() {
    let text = "550e8400-e29b-41d4-a716-446655440000";
    let ours = ruuid_parse(text.as_bytes()).expect("well-formed");
    let theirs = uuid::Uuid::try_parse(text).unwrap();
    let rendered = String::from_utf8(render_simple(&ours)).unwrap();
    assert_eq!(rendered, theirs.simple().to_string());
}

#[test]
fn round_trip_all_encodings() {
    let original = ruuid_generate_version_4();
    let reference = render_simple(&original);

    let from_simple = ruuid_parse(&render_simple(&original)).expect("simple parses");
    assert_eq!(render_simple(&from_simple), reference);

    let from_hyphenated = ruuid_parse(&render_hyphenated(&original)).expect("hyphenated parses");
    assert_eq!(render_simple(&from_hyphenated), reference);

    let from_braced = ruuid_parse(&render_braced(&original)).expect("braced parses");
    assert_eq!(render_simple(&from_braced), reference);

    let from_urn = ruuid_parse(&render_urn(&original)).expect("urn parses");
    assert_eq!(render_simple(&from_urn), reference);
}

#[test]
fn parse_all_encodings_of_sample() {
    let simple = ruuid_parse(b"550e8400e29b41d4a716446655440000").expect("simple");
    let hyphenated = ruuid_parse(b"550e8400-e29b-41d4-a716-446655440000").expect("hyphenated");
    let braced = ruuid_parse(b"{550e8400-e29b-41d4-a716-446655440000}").expect("braced");
    let urn = ruuid_parse(b"urn:uuid:550e8400-e29b-41d4-a716-446655440000").expect("urn");
    let reference = render_simple(&simple);
    assert_eq!(render_simple(&hyphenated), reference);
    assert_eq!(render_simple(&braced), reference);
    assert_eq!(render_simple(&urn), reference);
}

#[test]
fn parse_accepts_uppercase() {
    let lower = ruuid_parse(b"550e8400-e29b-41d4-a716-446655440000").expect("lower");
    let upper = ruuid_parse(b"550E8400-E29B-41D4-A716-446655440000").expect("upper");
    let urn_upper =
        ruuid_parse(b"URN:UUID:550e8400-e29b-41d4-a716-446655440000").expect("urn upper");
    assert_eq!(render_simple(&upper), render_simple(&lower));
    assert_eq!(render_simple(&urn_upper), render_simple(&lower));
}

#[test]
fn parse_rejects_malformed_text() {
    assert!(ruuid_parse(b"").is_none());
    assert!(ruuid_parse(b"550e8400").is_none());
    // one byte short and one byte long of the simple form
    assert!(ruuid_parse(b"550e8400e29b41d4a71644665544000").is_none());
    assert!(ruuid_parse(b"550e8400e29b41d4a7164466554400000").is_none());
    // a non-hex byte in each form
    assert!(ruuid_parse(b"g50e8400e29b41d4a716446655440000").is_none());
    assert!(ruuid_parse(b"550e8400-e29b-41d4-a716-44665544000g").is_none());
    // hyphens in the wrong places
    assert!(ruuid_parse(b"550e84-00e29b-41d4-a716-446655440000").is_none());
    assert!(ruuid_parse(b"550e8400e29b-41d4-a716-4466554400000").is_none());
    // broken wrappers
    assert!(ruuid_parse(b"[550e8400-e29b-41d4-a716-446655440000]").is_none());
    assert!(ruuid_parse(b"{550e8400-e29b-41d4-a716-446655440000)").is_none());
    assert!(ruuid_parse(b"urn:guid:550e8400-e29b-41d4-a716-446655440000").is_none());
}

#[test]
fn buffer_exactly_required_length_succeeds() {
    let u = ruuid_parse(b"550e8400-e29b-41d4-a716-446655440000").expect("well-formed");
    let mut b32 = vec![0u8; 32];
    assert_eq!(ruuid_get_simple(&u, &mut b32), 32);
    assert_eq!(b32, b"550e8400e29b41d4a716446655440000".to_vec());
    let mut b36 = vec![0u8; 36];
    assert_eq!(ruuid_get_hyphenated(&u, &mut b36), 36);
    assert_eq!(b36, b"550e8400-e29b-41d4-a716-446655440000".to_vec());
    let mut b38 = vec![0u8; 38];
    assert_eq!(ruuid_get_braced(&u, &mut b38), 38);
    assert_eq!(b38, b"{550e8400-e29b-41d4-a716-446655440000}".to_vec());
    let mut b45 = vec![0u8; 45];
    assert_eq!(ruuid_get_urn(&u, &mut b45), 45);
    assert_eq!(b45, b"urn:uuid:550e8400-e29b-41d4-a716-446655440000".to_vec());
}

#[test]
fn buffer_one_byte_short_fails_without_writing() {
    let u = ruuid_generate_version_4();
    let mut b31 = vec![0xeeu8; 31];
    assert_eq!(ruuid_get_simple(&u, &mut b31), -1);
    assert_eq!(b31, vec![0xeeu8; 31]);
    let mut b35 = vec![0xeeu8; 35];
    assert_eq!(ruuid_get_hyphenated(&u, &mut b35), -1);
    assert_eq!(b35, vec![0xeeu8; 35]);
    let mut b37 = vec![0xeeu8; 37];
    assert_eq!(ruuid_get_braced(&u, &mut b37), -1);
    assert_eq!(b37, vec![0xeeu8; 37]);
    let mut b44 = vec![0xeeu8; 44];
    assert_eq!(ruuid_get_urn(&u, &mut b44), -1);
    assert_eq!(b44, vec![0xeeu8; 44]);
}

#[test]
fn oversized_buffer_keeps_tail_untouched() {
    let u = ruuid_generate_nil();
    let mut b = vec![0xeeu8; 40];
    assert_eq!(ruuid_get_simple(&u, &mut b), 32);
    assert_eq!(&b[..32], b"00000000000000000000000000000000".as_slice());
    assert_eq!(&b[32..], [0xeeu8; 8].as_slice());
}

#[test]
fn single_destruction_of_each_constructor() {
    let nil = ruuid_generate_nil();
    ruuid_destroy(nil);
    let v4 = ruuid_generate_version_4();
    ruuid_destroy(v4);
    let v5 = ruuid_generate_version_5_sip(b"example");
    ruuid_destroy(v5);
    let parsed = ruuid_parse(b"550e8400-e29b-41d4-a716-446655440000").expect("well-formed");
    ruuid_destroy(parsed);
}
