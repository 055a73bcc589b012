use websnap::naming::{default_name, name_from_digest, resolve_output_path, timestamp_text, Timestamp};
use websnap::params::{build, ImageFormat, RawArgs};

fn at(year: i32, month: u32, day: u32, hour: u32, minute: u32, second: u32) -> Timestamp {
    Timestamp { year, month, day, hour, minute, second }
}

fn is_default_shape(name: &str, ext: &str) -> bool {
    let (hex, rest) = name.split_at(32.min(name.len()));
    hex.len() == 32
        && hex.chars().all(|c| c.is_ascii_digit() || ('a'..='f').contains(&c))
        && rest == format!(".{}", ext)
}

#[test]
fn timestamp_text_is_fourteen_digits() {
    assert_eq!(timestamp_text(&at(2024, 1, 2, 3, 4, 5)), "20240102030405");
    assert_eq!(timestamp_text(&at(2026, 12, 31, 23, 59, 59)), "20261231235959");
}

#[test]
fn timestamp_text_pads_and_signs_years() {
    assert_eq!(timestamp_text(&at(950, 1, 1, 0, 0, 0)), "09500101000000");
    assert_eq!(timestamp_text(&at(0, 1, 1, 0, 0, 0)), "00000101000000");
    assert_eq!(timestamp_text(&at(-5, 1, 1, 0, 0, 0)), "-00050101000000");
    assert_eq!(timestamp_text(&at(12345, 1, 1, 0, 0, 0)), "+123450101000000");
}

#[test]
fn name_from_digest_is_hex_then_extension() {
    assert_eq!(name_from_digest(&[0xab, 0x05], ImageFormat::Webp), "ab05.webp");
    assert_eq!(name_from_digest(&[0x00, 0xff, 0x10], ImageFormat::Png), "00ff10.png");
    assert_eq!(name_from_digest(&[], ImageFormat::Jpg), ".jpg");
}

#[test]
fn default_name_is_md5_of_timestamp_text() {
    assert_eq!(
        default_name(&at(2024, 1, 2, 3, 4, 5), ImageFormat::Png),
        "a0736fbe7eeef8832a70f5b2260bc53d.png"
    );
}

#[test]
fn names_an_hour_apart_differ() {
    let a = default_name(&at(2024, 1, 2, 3, 4, 5), ImageFormat::Png);
    let b = default_name(&at(2024, 1, 2, 4, 4, 5), ImageFormat::Png);
    assert_eq!(b, "c89e632a36d4db0420750a4562ab854b.png");
    assert_ne!(a, b);
}

#[test]
fn webp_name_ends_in_webp() {
    let n = default_name(&at(2026, 10, 18, 12, 0, 0), ImageFormat::Webp);
    assert_eq!(n, "ff5e0c797342cca7ab5d5f3224021f4b.webp");
    assert!(n.ends_with(".webp"));
    assert!(is_default_shape(&n, "webp"));
}

#[test]
fn explicit_output_path_is_kept() {
    let mut r = RawArgs {
        target: Some("https://example.com".to_string()),
        output: Some("out/shot.png".to_string()),
        width: None,
        height: None,
        sleep: None,
        user_agent: None,
        format: None,
        debug: false,
    };
    let now = at(2024, 1, 2, 3, 4, 5);
    let p = build(r.clone()).unwrap();
    assert_eq!(resolve_output_path(&p, &now), "out/shot.png");
    r.output = None;
    r.format = Some("jpg".to_string());
    let p = build(r).unwrap();
    let name = resolve_output_path(&p, &now);
    assert_eq!(name, "a0736fbe7eeef8832a70f5b2260bc53d.jpg");
    assert!(is_default_shape(&name, "jpg"));
}
