use bytebeam::compression::Compression;
use bytebeam::front::{done_message, parse_usize};
use bytebeam::text::decimal_string;
use bytebeam::token::{generate_challenge, generate_token};

fn no_words() -> Vec<String> {
    Vec::new()
}

fn is_uuid_char(c: char) -> bool {
    c.is_ascii_digit() || ('a'..='f').contains(&c) || c == '-'
}

#[test]
fn uuid_template_mints_a_uuid() {
    let t = generate_token("{uuid}", &no_words());
    assert_eq!(t.chars().count(), 36);
    assert!(t.chars().all(is_uuid_char));
    assert_ne!(t, "{uuid}");
}

#[test]
fn literal_template_is_kept() {
    let t = generate_token("plain-text", &no_words());
    assert_eq!(t, "plain-text");
}

#[test]
fn number_template_mints_a_number_below_100() {
    let t = generate_token("{number}", &no_words());
    let n: usize = t.parse().expect("a decimal number");
    assert!(n < 100);
}

#[test]
fn word_template_draws_from_the_list() {
    let words = vec!["crane".to_string()];
    let t = generate_token("{word}", &words);
    assert_eq!(t, "crane");
}

#[test]
fn mixed_template_keeps_structure() {
    let words = vec!["crane".to_string(), "slate".to_string()];
    let t = generate_token("x-{number}-{word}-y", &words);
    let parts: Vec<&str> = t.split('-').collect();
    assert_eq!(parts.len(), 4);
    assert_eq!(parts[0], "x");
    let n: usize = parts[1].parse().expect("a decimal number");
    assert!(n < 100);
    assert!(parts[2] == "crane" || parts[2] == "slate");
    assert_eq!(parts[3], "y");
}

#[test]
fn independent_draws_differ() {
    let a = generate_token("{uuid}", &no_words());
    let b = generate_token("{uuid}", &no_words());
    assert_ne!(a, b);
}

#[test]
fn challenges_are_uuid_shaped() {
    let c = generate_challenge();
    assert_eq!(c.chars().count(), 36);
    assert!(c.chars().all(is_uuid_char));
}

#[test]
fn compression_names_round_trip() {
    for (name, value) in [
        ("none", Compression::Plain),
        ("gzip", Compression::Gzip),
        ("deflate", Compression::Deflate),
        ("br", Compression::Brotli),
        ("zstd", Compression::Zstd),
    ] {
        assert_eq!(Compression::from_str(name).unwrap(), value);
        assert_eq!(value.to_string(), name);
    }
}

#[test]
fn compression_parse_ignores_ascii_case() {
    assert_eq!(Compression::from_str("ZSTD").unwrap(), Compression::Zstd);
    assert_eq!(Compression::from_str("Gzip").unwrap(), Compression::Gzip);
}

#[test]
fn unknown_compression_is_refused() {
    let err = Compression::from_str("lzma").unwrap_err();
    assert_eq!(err, "Unknown compression type: lzma");
}

#[test]
fn compression_default_is_plain() {
    assert_eq!(Compression::default(), Compression::Plain);
}

#[test]
fn decimal_rendering_is_exact() {
    assert_eq!(decimal_string(0), "0");
    assert_eq!(decimal_string(6), "6");
    assert_eq!(decimal_string(40960), "40960");
}

#[test]
fn parse_usize_accepts_digit_strings() {
    assert_eq!(parse_usize("0"), Some(0));
    assert_eq!(parse_usize("4096"), Some(4096));
    assert_eq!(parse_usize(""), None);
    assert_eq!(parse_usize("12x"), None);
    assert_eq!(parse_usize("-3"), None);
    assert_eq!(parse_usize("99999999999999999999999999"), None);
}

#[test]
fn done_message_counts_bytes() {
    assert_eq!(done_message(6), "Done! Sent 6 bytes");
    assert_eq!(done_message(0), "Done! Sent 0 bytes");
}

#[test]
fn parse_usize_accepts_the_machine_limit() {
    let max = usize::MAX.to_string();
    assert_eq!(parse_usize(&max), Some(usize::MAX));
    let over = format!("{}0", max);
    assert_eq!(parse_usize(&over), None);
}
