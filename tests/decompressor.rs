use ovba::{decompress, Error};

#[test]
fn copy_token_decoder() {
    // CompressedContainer with first CopyToken at position 31.
    const CONTAINER_1: &[u8] = b"\x01\x27\xB0\x00\x41\x74\x74\x72\x69\x62\x75\x74\x00\x65\x20\x56\x42\x5F\x4E\x61\x6D\x00\x65\x20\x3D\x20\x22\x61\x22\x0D\x80\x0A\x61\x62\x63\x64\x65\x66\x06\xF0\x00\x0D\x0A";
    const CONTENTS_1: &[u8] = b"Attribute VB_Name = \"a\"\x0D\x0AabcdefAttribute\x0D\x0A";
    let contents = decompress(CONTAINER_1).unwrap();
    assert_eq!(contents, CONTENTS_1);

    // CompressedContainer with first CopyToken at position 32.
    const CONTAINER_2: &[u8] = b"\x01\x28\xB0\x00\x41\x74\x74\x72\x69\x62\x75\x74\x00\x65\x20\x56\x42\x5F\x4E\x61\x6D\x00\x65\x20\x3D\x20\x22\x61\x22\x0D\x00\x0A\x61\x62\x63\x64\x65\x66\x67\x01\x06\xF8\x0D\x0A";
    const CONTENTS_2: &[u8] = b"Attribute VB_Name = \"a\"\x0D\x0AabcdefgAttribute\x0D\x0A";
    let contents = decompress(CONTAINER_2).unwrap();
    assert_eq!(contents, CONTENTS_2);

    // CompressedContainer with first CopyToken at position 33.
    const CONTAINER_3: &[u8] = b"\x01\x29\xB0\x00\x41\x74\x74\x72\x69\x62\x75\x74\x00\x65\x20\x56\x42\x5F\x4E\x61\x6D\x00\x65\x20\x3D\x20\x22\x61\x22\x0D\x00\x0A\x61\x62\x63\x64\x65\x66\x67\x02\x68\x06\x80\x0D\x0A";
    const CONTENTS_3: &[u8] = b"Attribute VB_Name = \"a\"\x0D\x0AabcdefghAttribute\x0D\x0A";
    let contents = decompress(CONTAINER_3).unwrap();
    assert_eq!(contents, CONTENTS_3);
}

const CONTAINER_1: &[u8] = b"\x01\x27\xB0\x00\x41\x74\x74\x72\x69\x62\x75\x74\x00\x65\x20\x56\x42\x5F\x4E\x61\x6D\x00\x65\x20\x3D\x20\x22\x61\x22\x0D\x80\x0A\x61\x62\x63\x64\x65\x66\x06\xF0\x00\x0D\x0A";

#[test]
fn bad_signature_fails() {
    let mut data = CONTAINER_1.to_vec();
    data[0] = 0x02;
    assert!(matches!(decompress(&data), Err(Error::Decompressor)));
    assert!(matches!(decompress(&[]), Err(Error::Decompressor)));
    assert!(matches!(decompress(&[0x01]), Err(Error::Decompressor)));
}

#[test]
fn trailing_byte_fails() {
    let mut data = CONTAINER_1.to_vec();
    data.push(0x00);
    assert!(matches!(decompress(&data), Err(Error::Decompressor)));
}

#[test]
fn trailing_bad_header_fails() {
    let mut data = CONTAINER_1.to_vec();
    data.extend_from_slice(&[0x00, 0x00, 0x41]);
    assert!(matches!(decompress(&data), Err(Error::Decompressor)));
}

#[test]
fn raw_chunk_is_copied() {
    // Header 0x3002: magic 0b011, not compressed, body of three bytes.
    let data = [0x01, 0x02, 0x30, b'a', b'b', b'c'];
    assert_eq!(decompress(&data).unwrap(), b"abc".to_vec());
}

#[test]
fn two_chunks_are_concatenated() {
    let data = [0x01, 0x01, 0x30, b'a', b'b', 0x00, 0x30, b'c'];
    assert_eq!(decompress(&data).unwrap(), b"abc".to_vec());
}

#[test]
fn bad_chunk_magic_fails() {
    let data = [0x01, 0x02, 0x20, b'a', b'b', b'c'];
    assert!(matches!(decompress(&data), Err(Error::Decompressor)));
}

#[test]
fn truncated_chunk_fails() {
    let data = [0x01, 0x05, 0x30, b'a', b'b', b'c'];
    assert!(matches!(decompress(&data), Err(Error::Decompressor)));
}

#[test]
fn self_overlapping_copy() {
    // Compressed chunk: flag byte 0b10, literal 'a', copy token with offset 1
    // and length 5 (raw 0x0002: bit count 4, length bits 2, offset bits 0).
    let data = [0x01, 0x03, 0xB0, 0x02, b'a', 0x02, 0x00];
    assert_eq!(decompress(&data).unwrap(), b"aaaaaa".to_vec());
}

#[test]
fn copy_before_chunk_start_fails() {
    // A copy token as the very first token reaches before the chunk's start.
    let data = [0x01, 0x02, 0xB0, 0x01, 0x00, 0x00];
    assert!(matches!(decompress(&data), Err(Error::Decompressor)));
}

#[test]
fn copy_token_missing_byte_fails() {
    let data = [0x01, 0x02, 0xB0, 0x02, b'a', 0x00];
    assert!(matches!(decompress(&data), Err(Error::Decompressor)));
}

#[test]
fn input_ends_inside_flag_group() {
    // Two literal tokens, then the body ends although the flag byte announces more.
    let data = [0x01, 0x02, 0xB0, 0x00, b'x', b'y'];
    assert_eq!(decompress(&data).unwrap(), b"xy".to_vec());
}

#[test]
fn chunk_longer_than_4096_fails() {
    // Literal 'a', then a copy of 4098 bytes: the chunk would hold 4099 bytes.
    let data = [0x01, 0x03, 0xB0, 0x02, b'a', 0xFF, 0x0F];
    assert!(matches!(decompress(&data), Err(Error::Decompressor)));
    // Literal 'a' and a copy of 4095 bytes fill the chunk exactly.
    let data = [0x01, 0x03, 0xB0, 0x02, b'a', 0xFC, 0x0F];
    assert_eq!(decompress(&data).unwrap(), vec![b'a'; 4096]);
}
