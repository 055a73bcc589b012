use websnap::text::{push_hex, push_padded};

fn padded(n: u64, w: u64) -> String {
    let mut s = String::new();
    push_padded(&mut s, n, w);
    s
}

#[test]
fn padded_decimal_text() {
    assert_eq!(padded(0, 0), "0");
    assert_eq!(padded(0, 1), "0");
    assert_eq!(padded(7, 2), "07");
    assert_eq!(padded(42, 2), "42");
    assert_eq!(padded(123, 2), "123");
    assert_eq!(padded(5, 4), "0005");
    assert_eq!(padded(1920, 1), "1920");
    assert_eq!(padded(u64::MAX, 1), "18446744073709551615");
}

#[test]
fn padded_appends_to_existing_text() {
    let mut s = String::from("--x=");
    push_padded(&mut s, 800, 1);
    assert_eq!(s, "--x=800");
}

#[test]
fn hex_text_of_bytes() {
    let mut s = String::from(">");
    push_hex(&mut s, &[0x00, 0x0f, 0xa0, 0xff]);
    assert_eq!(s, ">000fa0ff");
    let mut e = String::new();
    push_hex(&mut e, &[]);
    assert_eq!(e, "");
}
