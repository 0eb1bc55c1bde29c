use qoi_decode::operator::{Operator, OperatorIter};
use qoi_decode::pixel::{calculate_index, process_operators, Rgb, Rgba};
use qoi_decode::{process_qoi, split_header, QoiChannels, QoiError};

const END_MARKER: [u8; 8] = [0, 0, 0, 0, 0, 0, 0, 1];

/// A full QOI byte buffer: magic, big-endian dimensions, channel byte,
/// colorspace 0, the given body, and the end marker.
fn qoi_bytes(width: u32, height: u32, channels: u8, body: &[u8]) -> Vec<u8> {
    let mut v = Vec::new();
    v.extend_from_slice(b"qoif");
    v.extend_from_slice(&width.to_be_bytes());
    v.extend_from_slice(&height.to_be_bytes());
    v.push(channels);
    v.push(0);
    v.extend_from_slice(body);
    v.extend_from_slice(&END_MARKER);
    v
}

#[test]
fn header_too_short() {
    assert_eq!(process_qoi(b"qoif"), Err(QoiError::TooShort));
    assert_eq!(process_qoi(&[]), Err(QoiError::TooShort));
    assert_eq!(process_qoi(&[0u8; 13]), Err(QoiError::TooShort));
}

#[test]
fn header_bad_magic() {
    let mut input = qoi_bytes(1, 1, 3, &[0xFE, 0, 0, 0]);
    input[0] = b'Q';
    assert_eq!(process_qoi(&input), Err(QoiError::BadMagic));
    assert_eq!(process_qoi(&[0u8; 14]), Err(QoiError::BadMagic));
}

#[test]
fn header_invalid_channels() {
    let input = qoi_bytes(1, 1, 5, &[]);
    assert_eq!(process_qoi(&input), Err(QoiError::InvalidChannels(5)));
    let input = qoi_bytes(1, 1, 0, &[]);
    assert_eq!(process_qoi(&input), Err(QoiError::InvalidChannels(0)));
}

#[test]
fn header_fields_parsed() {
    let input = qoi_bytes(0x01020304, 0x05060708, 4, &[]);
    let (header, body) = split_header(&input).unwrap();
    assert_eq!(header.width, 0x01020304);
    assert_eq!(header.height, 0x05060708);
    assert_eq!(header.channels, QoiChannels::Rgba);
    assert_eq!(header.colorspace, 0);
    assert_eq!(body, &input[14..]);
}

#[test]
fn colorspace_passed_through() {
    let mut input = qoi_bytes(1, 1, 3, &[0xFE, 0, 0, 0]);
    input[13] = 7;
    let (header, _) = process_qoi(&input).unwrap();
    assert_eq!(header.colorspace, 7);
}

#[test]
fn channels_from_byte() {
    assert_eq!(QoiChannels::from_byte(3), Ok(QoiChannels::Rgb));
    assert_eq!(QoiChannels::from_byte(4), Ok(QoiChannels::Rgba));
    assert_eq!(QoiChannels::from_byte(2), Err(QoiError::InvalidChannels(2)));
    assert_eq!(QoiChannels::Rgb.count(), 3);
    assert_eq!(QoiChannels::Rgba.count(), 4);
}

#[test]
fn run_tag_bounds() {
    let mut bytes = vec![0xC0u8];
    bytes.extend_from_slice(&END_MARKER);
    let mut it = OperatorIter::new(&bytes);
    assert_eq!(it.next_op(), Ok(Some(Operator::Run(1))));
    assert_eq!(it.next_op(), Ok(None));

    let mut bytes = vec![0xFDu8];
    bytes.extend_from_slice(&END_MARKER);
    let mut it = OperatorIter::new(&bytes);
    assert_eq!(it.next_op(), Ok(Some(Operator::Run(62))));
}

#[test]
fn tags_fe_ff_are_not_runs() {
    let mut bytes = vec![0xFEu8, 1, 2, 3];
    bytes.extend_from_slice(&END_MARKER);
    let mut it = OperatorIter::new(&bytes);
    assert_eq!(it.next_op(), Ok(Some(Operator::Rgb(1, 2, 3))));

    let mut bytes = vec![0xFFu8, 1, 2, 3, 4];
    bytes.extend_from_slice(&END_MARKER);
    let mut it = OperatorIter::new(&bytes);
    assert_eq!(it.next_op(), Ok(Some(Operator::Rgba(1, 2, 3, 4))));
}

#[test]
fn truncated_rgb_operator() {
    // RGB tag with only two trailing bytes and no earlier end marker.
    let mut input = Vec::new();
    input.extend_from_slice(b"qoif");
    input.extend_from_slice(&1u32.to_be_bytes());
    input.extend_from_slice(&1u32.to_be_bytes());
    input.push(3);
    input.push(0);
    input.extend_from_slice(&[0xFE, 0, 0]);
    assert_eq!(process_qoi(&input), Err(QoiError::TruncatedOperatorStream));
}

#[test]
fn truncated_rgba_operator() {
    let bytes = [0xFFu8, 0, 0, 0];
    let mut it = OperatorIter::new(&bytes);
    assert_eq!(it.next_op(), Err(QoiError::TruncatedOperatorStream));
}

#[test]
fn truncated_luma_operator() {
    let bytes = [0x80u8];
    let mut it = OperatorIter::new(&bytes);
    assert_eq!(it.next_op(), Err(QoiError::TruncatedOperatorStream));
}

#[test]
fn unterminated_stream() {
    // A complete RGB operator but no end marker anywhere.
    let mut input = Vec::new();
    input.extend_from_slice(b"qoif");
    input.extend_from_slice(&1u32.to_be_bytes());
    input.extend_from_slice(&1u32.to_be_bytes());
    input.push(3);
    input.push(0);
    input.extend_from_slice(&[0xFE, 0, 0, 0]);
    assert_eq!(process_qoi(&input), Err(QoiError::UnterminatedStream));
}

#[test]
fn size_mismatch() {
    // 1x1 image whose body ends before any pixel is produced.
    let input = qoi_bytes(1, 1, 3, &[]);
    assert_eq!(process_qoi(&input), Err(QoiError::SizeMismatch));
}

#[test]
fn dimensions_too_large() {
    let input = qoi_bytes(0xFFFF_FFFF, 0xFFFF_FFFF, 4, &[]);
    assert_eq!(process_qoi(&input), Err(QoiError::DimensionsTooLarge));
}

#[test]
fn one_by_one_rgb_black() {
    // The concrete 1x1 RGB scenario: one explicit black pixel.
    let input = qoi_bytes(1, 1, 3, &[0xFE, 0x00, 0x00, 0x00]);
    let (header, pixels) = process_qoi(&input).unwrap();
    assert_eq!(header.width, 1);
    assert_eq!(header.height, 1);
    assert_eq!(header.channels, QoiChannels::Rgb);
    assert_eq!(header.colorspace, 0);
    assert_eq!(pixels, vec![0x00, 0x00, 0x00]);
}

#[test]
fn index_reuse_on_fresh_state() {
    // Tag 0x05 is Index(5); a fresh RGBA cache holds transparent black.
    let input = qoi_bytes(1, 1, 4, &[0x05]);
    let (_, pixels) = process_qoi(&input).unwrap();
    assert_eq!(pixels, vec![0, 0, 0, 0]);
}

#[test]
fn diff_identity_keeps_current() {
    // 0x6A (0b01_10_10_10): all three two-bit fields are 2, so every delta
    // is zero and the initial RGBA current pixel (0,0,0,255) is emitted
    // unchanged.
    let input = qoi_bytes(1, 1, 4, &[0x6A]);
    let (_, pixels) = process_qoi(&input).unwrap();
    assert_eq!(pixels, vec![0, 0, 0, 255]);
}

#[test]
fn diff_wraps_below_zero() {
    // 0x4A: red delta -2, green and blue 0, applied to (0,0,0).
    let input = qoi_bytes(1, 1, 3, &[0x4A]);
    let (_, pixels) = process_qoi(&input).unwrap();
    assert_eq!(pixels, vec![254, 0, 0]);
}

#[test]
fn luma_decodes_exactly() {
    // Tag 0xA8: green delta 40 - 32 = 8. Next byte 0xC2: red delta
    // 12 - 8 + 8 = 12, blue delta 2 - 8 + 8 = 2, applied to (10,20,30).
    let input = qoi_bytes(2, 1, 3, &[0xFE, 10, 20, 30, 0xA8, 0xC2]);
    let (_, pixels) = process_qoi(&input).unwrap();
    assert_eq!(pixels, vec![10, 20, 30, 22, 28, 32]);
}

#[test]
fn index_reuses_stored_pixel() {
    // (10,20,30) hashes to slot 9 with alpha taken as 255.
    assert_eq!(calculate_index(10, 20, 30, 255), 9);
    let input = qoi_bytes(2, 1, 3, &[0xFE, 10, 20, 30, 0x09]);
    let (_, pixels) = process_qoi(&input).unwrap();
    assert_eq!(pixels, vec![10, 20, 30, 10, 20, 30]);
}

#[test]
fn run_repeats_current_pixel() {
    let input = qoi_bytes(3, 1, 3, &[0xFE, 1, 2, 3, 0xC1]);
    let (_, pixels) = process_qoi(&input).unwrap();
    assert_eq!(pixels, vec![1, 2, 3, 1, 2, 3, 1, 2, 3]);
}

#[test]
fn rgb_op_keeps_alpha() {
    // In RGBA mode an RGB operator leaves the alpha channel alone.
    let input = qoi_bytes(2, 1, 4, &[0xFF, 1, 2, 3, 9, 0xFE, 4, 5, 6]);
    let (_, pixels) = process_qoi(&input).unwrap();
    assert_eq!(pixels, vec![1, 2, 3, 9, 4, 5, 6, 9]);
}

#[test]
fn output_length_matches_header() {
    let input = qoi_bytes(2, 3, 3, &[0xFE, 1, 2, 3, 0xC4]);
    let (header, pixels) = process_qoi(&input).unwrap();
    assert_eq!(
        pixels.len(),
        header.width as usize * header.height as usize * header.channels.count() as usize
    );
    assert_eq!(pixels.len(), 18);
}

#[test]
fn decode_is_deterministic() {
    let input = qoi_bytes(2, 1, 4, &[0xFF, 7, 8, 9, 10, 0xC0]);
    let first = process_qoi(&input);
    let second = process_qoi(&input);
    assert_eq!(first, second);
    let (_, pixels) = first.unwrap();
    assert_eq!(pixels, vec![7, 8, 9, 10, 7, 8, 9, 10]);
}

#[test]
fn process_operators_direct() {
    // The reconstructor alone, driven over a body stream in both modes.
    let mut body = vec![0xFEu8, 5, 6, 7];
    body.extend_from_slice(&END_MARKER);
    let out = process_operators::<Rgb>(OperatorIter::new(&body)).unwrap();
    assert_eq!(out, vec![5, 6, 7]);
    let out = process_operators::<Rgba>(OperatorIter::new(&body)).unwrap();
    assert_eq!(out, vec![5, 6, 7, 255]);
}

#[test]
fn trailing_bytes_after_marker_ignored() {
    let mut input = qoi_bytes(1, 1, 3, &[0xFE, 11, 12, 13]);
    input.extend_from_slice(&[0xAB, 0xCD]);
    let (_, pixels) = process_qoi(&input).unwrap();
    assert_eq!(pixels, vec![11, 12, 13]);
}
