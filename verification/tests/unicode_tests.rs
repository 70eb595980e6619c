use rdpclient::unicode::{
    le_bytes_to_utf16, scalars_to_utf16, scalars_to_utf8_bytes, utf16_to_le_bytes,
    utf16_to_scalars, utf8_to_scalars,
};

fn utf8_to_utf16le(text: &[u8]) -> Vec<u8> {
    let scalars = utf8_to_scalars(&text.to_vec());
    let units = scalars_to_utf16(&scalars);
    utf16_to_le_bytes(&units)
}

fn utf16le_to_utf8(data: &[u8]) -> Vec<u8> {
    let units = le_bytes_to_utf16(&data.to_vec());
    let scalars = utf16_to_scalars(&units);
    scalars_to_utf8_bytes(&scalars)
}

#[test]
fn ascii_encodes_to_utf16le() {
    assert_eq!(
        utf8_to_utf16le(b"hello"),
        vec![0x68, 0, 0x65, 0, 0x6C, 0, 0x6C, 0, 0x6F, 0]
    );
}

#[test]
fn ascii_decodes_from_utf16le() {
    let data = vec![0x68, 0, 0x65, 0, 0x6C, 0, 0x6C, 0, 0x6F, 0];
    assert_eq!(utf16le_to_utf8(&data), b"hello".to_vec());
}

#[test]
fn two_byte_sequence_round_trips() {
    // U+00E9, e with acute accent.
    let text = "h\u{e9}llo".as_bytes();
    let wire = utf8_to_utf16le(text);
    assert_eq!(wire[2], 0xE9);
    assert_eq!(wire[3], 0);
    assert_eq!(utf16le_to_utf8(&wire), text.to_vec());
}

#[test]
fn supplementary_scalar_uses_surrogate_pair() {
    // U+1F600 encodes as the pair D83D DE00.
    let text = "\u{1f600}".as_bytes();
    let wire = utf8_to_utf16le(text);
    assert_eq!(wire, vec![0x3D, 0xD8, 0x00, 0xDE]);
    assert_eq!(utf16le_to_utf8(&wire), text.to_vec());
}

#[test]
fn lone_surrogate_decodes_to_replacement() {
    // A high surrogate with no partner.
    let wire = vec![0x3D, 0xD8];
    assert_eq!(utf16le_to_utf8(&wire), "\u{fffd}".as_bytes().to_vec());
}

#[test]
fn invalid_utf8_byte_becomes_replacement() {
    let wire = utf8_to_utf16le(&[0xFF]);
    assert_eq!(wire, vec![0xFD, 0xFF]);
}

#[test]
fn truncated_utf8_sequence_becomes_replacement() {
    // A two-byte leading byte with no continuation.
    let wire = utf8_to_utf16le(&[0xC3]);
    assert_eq!(wire, vec![0xFD, 0xFF]);
}

#[test]
fn odd_trailing_byte_is_dropped() {
    let wire = vec![0x68, 0, 0x65];
    assert_eq!(utf16le_to_utf8(&wire), b"h".to_vec());
}

#[test]
fn overlong_encoding_becomes_replacement() {
    // The two-byte overlong form of NUL must not smuggle a NUL through.
    let wire = utf8_to_utf16le(&[0xC0, 0x80]);
    assert_eq!(wire, vec![0xFD, 0xFF]);
    // The three-byte overlong form of '/' is equally replaced.
    let wire = utf8_to_utf16le(&[0xE0, 0x80, 0xAF]);
    assert_eq!(wire, vec![0xFD, 0xFF]);
    // The shortest forms still decode.
    let wire = utf8_to_utf16le("\u{80}".as_bytes());
    assert_eq!(wire, vec![0x80, 0x00]);
}
