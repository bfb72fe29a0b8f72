use mona::text::utf16_nt_to_string;

fn units(s: &str) -> Vec<u16> {
    s.encode_utf16().collect()
}

#[test]
fn utf16_stops_at_first_null() {
    let mut buf = units("DELL U2415");
    buf.push(0);
    buf.extend(units("garbage"));
    buf.push(0);
    assert_eq!(utf16_nt_to_string(&buf), "DELL U2415");
}

#[test]
fn utf16_without_null_takes_everything() {
    assert_eq!(utf16_nt_to_string(&units("LG ULTRAWIDE")), "LG ULTRAWIDE");
}

#[test]
fn utf16_empty_and_leading_null() {
    assert_eq!(utf16_nt_to_string(&[]), "");
    assert_eq!(utf16_nt_to_string(&[0, 65, 66]), "");
}

#[test]
fn utf16_fixed_buffer() {
    let mut buf = [0u16; 32];
    let name = units(r"\\.\DISPLAY1");
    buf[..name.len()].copy_from_slice(&name);
    assert_eq!(utf16_nt_to_string(&buf), r"\\.\DISPLAY1");
}

#[test]
fn utf16_non_ascii_and_surrogate_pairs() {
    let mut buf = units("Écran 😀");
    buf.push(0);
    assert_eq!(utf16_nt_to_string(&buf), "Écran 😀");
}

#[test]
fn utf16_unpaired_surrogate_is_replaced() {
    assert_eq!(utf16_nt_to_string(&[0x41, 0xd800, 0x42, 0]), "A\u{fffd}B");
}
