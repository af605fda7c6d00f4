use shticker_book_unwritten::error::Error;
use shticker_book_unwritten::text::append_quoted;
use shticker_book_unwritten::hash::{
    same_digest, sha_from_hash_str, sha_of_bytes, sha_of_chunks, Digester,
};

const EMPTY: [u8; 20] = [
    0xda, 0x39, 0xa3, 0xee, 0x5e, 0x6b, 0x4b, 0x0d, 0x32, 0x55, 0xbf, 0xef, 0x95, 0x60, 0x18,
    0x90, 0xaf, 0xd8, 0x07, 0x09,
];
const ABC: [u8; 20] = [
    0xa9, 0x99, 0x3e, 0x36, 0x47, 0x06, 0x81, 0x6a, 0xba, 0x3e, 0x25, 0x71, 0x78, 0x50, 0xc2,
    0x6c, 0x9c, 0xd0, 0xd8, 0x9d,
];

#[test]
fn digest_of_empty_input_is_the_well_known_constant() {
    assert_eq!(sha_of_bytes(b""), EMPTY);
    assert_eq!(Digester::new().finish(), EMPTY);
    assert_eq!(sha_of_chunks(&vec![]), EMPTY);
}

#[test]
fn digest_of_abc() {
    assert_eq!(sha_of_bytes(b"abc"), ABC);
}

#[test]
fn digest_is_deterministic_and_sensitive() {
    let x = b"some asset bytes".to_vec();
    let mut y = x.clone();
    y[3] ^= 1;
    assert_eq!(sha_of_bytes(&x), sha_of_bytes(&x));
    assert_ne!(sha_of_bytes(&x), sha_of_bytes(&y));
}

#[test]
fn digest_does_not_depend_on_chunking() {
    let data: Vec<u8> = (0..50_000u32).map(|i| (i % 251) as u8).collect();
    let whole = sha_of_bytes(&data);
    for size in [1usize, 63, 64, 65, 8192, 49_999, 50_000] {
        let mut d = Digester::new();
        for chunk in data.chunks(size) {
            d.update(chunk);
        }
        assert_eq!(d.finish(), whole);
        let chunks: Vec<Vec<u8>> = data.chunks(size).map(|c| c.to_vec()).collect();
        assert_eq!(sha_of_chunks(&chunks), whole);
    }
}

#[test]
fn update_appends_to_what_was_fed() {
    let mut d = Digester::new();
    d.update(b"a");
    d.update(b"");
    d.update(b"bc");
    assert_eq!(d.finish(), ABC);
}

#[test]
fn hash_str_parses_both_cases() {
    assert_eq!(
        sha_from_hash_str("da39a3ee5e6b4b0d3255bfef95601890afd80709").unwrap(),
        EMPTY
    );
    assert_eq!(
        sha_from_hash_str("DA39A3EE5E6B4B0D3255BFEF95601890AFD80709").unwrap(),
        EMPTY
    );
    assert_eq!(
        sha_from_hash_str("a9993e364706816ABA3E25717850c26c9cd0d89d").unwrap(),
        ABC
    );
    assert_eq!(
        sha_from_hash_str("0000000000000000000000000000000000000000").unwrap(),
        [0u8; 20]
    );
    assert_eq!(
        sha_from_hash_str("ffffffffffffffffffffffffffffffffffffffff").unwrap(),
        [0xffu8; 20]
    );
    assert_eq!(
        sha_from_hash_str("0123456789abcdefABCDEF000000000000000010").unwrap(),
        [0x01, 0x23, 0x45, 0x67, 0x89, 0xab, 0xcd, 0xef, 0xab, 0xcd, 0xef, 0, 0, 0, 0, 0, 0, 0, 0, 0x10]
    );
}

fn format_message(r: Result<[u8; 20], Error>) -> String {
    match r {
        Err(Error::BadManifestFormat(m)) => m,
        other => panic!("{:?}", other),
    }
}

#[test]
fn hash_str_rejects_wrong_lengths() {
    assert_eq!(
        format_message(sha_from_hash_str("")),
        "SHA-1 hash string is not 40 characters long: "
    );
    let short = "da39a3ee5e6b4b0d3255bfef95601890afd8070";
    assert_eq!(
        format_message(sha_from_hash_str(short)),
        format!("SHA-1 hash string is not 40 characters long: {}", short)
    );
    let long = "da39a3ee5e6b4b0d3255bfef95601890afd807090";
    assert_eq!(
        format_message(sha_from_hash_str(long)),
        format!("SHA-1 hash string is not 40 characters long: {}", long)
    );
}

#[test]
fn hash_str_rejects_other_characters() {
    for (bad, shown) in [
        ("g000000000000000000000000000000000000000", "'g'"),
        ("ga39a3ee5e6b4b0d3255bfef95601890afd80709", "'g'"),
        ("da39a3ee5e6b4b0d3255bfef95601890afd8070g", "'g'"),
        ("da39a3ee5e6b4b0d3255 fef95601890afd80709", "' '"),
        ("da39a3ee5e6b4b0d3255/fef95601890afd80709", "'/'"),
        ("da39a3ee5e6b4b0d3255:fef95601890afd80709", "':'"),
        ("da39a3ee5e6b4b0d3255@fef95601890afd80709", "'@'"),
        ("da39a3ee5e6b4b0d3255Gfef95601890afd80709", "'G'"),
        ("da39a3ee5e6b4b0d3255`fef95601890afd80709", "'`'"),
        ("da39a3ee5e6b4b0d3255'fef95601890afd80709", "'\\''"),
        ("da39a3ee5e6b4b0d3255\\fef95601890afd80709", "'\\\\'"),
        ("da39a3ee5e6b4b0d3255\nfef95601890afd80709", "'\\n'"),
        ("da39a3ee5e6b4b0d3255\u{1}fef95601890afd80709", "'\\u{1}'"),
        ("da39a3ee5e6b4b0d3255\u{7f}fef95601890afd80709", "'\\u{7f}'"),
    ] {
        assert_eq!(
            format_message(sha_from_hash_str(bad)),
            format!("Unexpected character in SHA-1 hash string: {}", shown)
        );
    }
}

#[test]
fn hash_str_reports_the_first_bad_character() {
    assert_eq!(
        format_message(sha_from_hash_str("da39a3ee5e6b4b0d3255xfef95601890afd8070y")),
        "Unexpected character in SHA-1 hash string: 'x'"
    );
    // A bad character is reported whatever the length is.
    assert_eq!(
        format_message(sha_from_hash_str("xyz")),
        "Unexpected character in SHA-1 hash string: 'x'"
    );
    assert_eq!(
        format_message(sha_from_hash_str("da39a3ee5e6b4b0d3255bfef95601890afd80709da39!")),
        "Unexpected character in SHA-1 hash string: '!'"
    );
}

#[test]
fn bytes_are_quoted_as_characters_are_shown() {
    for b in 0..=255u8 {
        let mut text = String::from("x");
        append_quoted(&mut text, b);
        assert_eq!(text, format!("x{:?}", b as char), "byte {}", b);
    }
}

#[test]
fn hash_str_counts_bytes_not_characters() {
    // 39 characters, 40 bytes: each byte counts, and the first byte of the
    // last character is the one that is shown.
    let s = "da39a3ee5e6b4b0d3255bfef95601890afd807\u{e9}";
    assert_eq!(s.len(), 40);
    assert_eq!(
        format_message(sha_from_hash_str(s)),
        format!("Unexpected character in SHA-1 hash string: {:?}", 0xc3u8 as char)
    );
}

#[test]
fn same_digest_is_byte_exact() {
    let mut other = ABC;
    assert!(same_digest(&ABC, &other));
    other[19] ^= 1;
    assert!(!same_digest(&ABC, &other));
    other[19] ^= 1;
    other[0] ^= 0x80;
    assert!(!same_digest(&ABC, &other));
}
