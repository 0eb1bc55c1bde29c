//! Decoder for the QOI ("Quite OK Image") compressed pixel format.
//!
//! A QOI stream is a fixed 14-byte header followed by a tagged operator
//! stream and an 8-byte end marker. Decoding parses the header, turns the
//! body into a sequence of operators, and replays those operators through a
//! stateful pixel-reconstruction engine (a current pixel plus a 64-entry
//! rolling color cache) into a raw, interleaved pixel byte buffer.

use vstd::prelude::*;

pub mod operator;
pub mod pixel;

verus! {

/// Reduction of a (possibly negative) delta computation to one byte:
/// arithmetic in the QOI operator stream is modulo 256.
pub open spec fn wrap_byte(x: int) -> u8 {
    (x % 256) as u8
}

/// How `wrap_byte` relates to plain arithmetic on the ranges the decoder
/// produces: one wraparound at most, in either direction.
pub proof fn lemma_wrap_byte(x: int)
    requires
        -256 <= x < 512,
    ensures
        0 <= x < 256 ==> wrap_byte(x) == x,
        -256 <= x < 0 ==> wrap_byte(x) == x + 256,
        256 <= x < 512 ==> wrap_byte(x) == x - 256,
{
    if 0 <= x < 256 {
        vstd::arithmetic::div_mod::lemma_small_mod(x as nat, 256nat);
    } else if -256 <= x < 0 {
        vstd::arithmetic::div_mod::lemma_mod_add_multiples_vanish(x, 256);
        vstd::arithmetic::div_mod::lemma_small_mod((x + 256) as nat, 256nat);
    } else {
        vstd::arithmetic::div_mod::lemma_mod_sub_multiples_vanish(x, 256);
        vstd::arithmetic::div_mod::lemma_small_mod((x - 256) as nat, 256nat);
    }
}

/// Everything that can go wrong while decoding a QOI stream.
#[derive(Clone, Copy, Debug, PartialEq, Eq, Structural)]
pub enum QoiError {
    /// The buffer is shorter than the 14-byte header.
    TooShort,
    /// The first four bytes are not the ASCII magic `qoif`.
    BadMagic,
    /// The channel byte of the header is neither 3 nor 4.
    InvalidChannels(u8),
    /// An operator declares more payload bytes than remain in the buffer.
    TruncatedOperatorStream,
    /// The buffer ran out without the 8-byte end marker.
    UnterminatedStream,
    /// The reconstructed output does not have `width * height * channels` bytes.
    SizeMismatch,
    /// The header dimensions would force an unreasonably large allocation.
    DimensionsTooLarge,
}

/// Channel mode of an image: 3 bytes per pixel (RGB) or 4 (RGBA).
#[derive(Clone, Copy, Debug, PartialEq, Eq, Structural)]
pub enum QoiChannels {
    Rgb,
    Rgba,
}

/// Result of reading the channel byte of a header: 3 and 4 are the only
/// accepted values.
pub open spec fn spec_channels_from_byte(value: u8) -> Result<QoiChannels, QoiError> {
    if value == 3 {
        Ok(QoiChannels::Rgb)
    } else if value == 4 {
        Ok(QoiChannels::Rgba)
    } else {
        Err(QoiError::InvalidChannels(value))
    }
}

impl QoiChannels {
    /// Bytes per pixel in this mode.
    pub open spec fn spec_count(self) -> int {
        match self {
            QoiChannels::Rgb => 3,
            QoiChannels::Rgba => 4,
        }
    }

    /// Bytes per pixel in this mode.
    pub fn count(&self) -> (n: u8)
        ensures
            n == self.spec_count(),
    {
        match self {
            QoiChannels::Rgb => 3,
            QoiChannels::Rgba => 4,
        }
    }

    /// Reads the channel byte of a header; only 3 and 4 are valid.
    pub fn from_byte(value: u8) -> (r: Result<QoiChannels, QoiError>)
        ensures
            r == spec_channels_from_byte(value),
    {
        match value {
            3 => Ok(QoiChannels::Rgb),
            4 => Ok(QoiChannels::Rgba),
            _ => Err(QoiError::InvalidChannels(value)),
        }
    }
}

/// The fixed 14-byte QOI header: magic, big-endian dimensions, channel
/// mode and an opaque colorspace byte.
#[derive(Clone, Copy, Debug, PartialEq, Eq, Structural)]
pub struct QoiHeader {
    pub width: u32,
    pub height: u32,
    pub channels: QoiChannels,
    pub colorspace: u8,
}

/// A big-endian unsigned 32-bit integer read from four bytes.
pub open spec fn be_u32(b0: u8, b1: u8, b2: u8, b3: u8) -> u32 {
    (b0 * 0x1000000 + b1 * 0x10000 + b2 * 0x100 + b3) as u32
}

/// The header a byte buffer parses to, or the validation that fails:
/// `TooShort` below 14 bytes, then `BadMagic`, then `InvalidChannels`.
/// The colorspace byte is passed through unvalidated.
pub open spec fn spec_split_header(b: Seq<u8>) -> Result<QoiHeader, QoiError> {
    if b.len() < 14 {
        Err(QoiError::TooShort)
    } else if !(b[0] == 0x71u8 && b[1] == 0x6fu8 && b[2] == 0x69u8 && b[3] == 0x66u8) {
        Err(QoiError::BadMagic)
    } else if b[12] != 3u8 && b[12] != 4u8 {
        Err(QoiError::InvalidChannels(b[12]))
    } else {
        Ok(QoiHeader {
            width: be_u32(b[4], b[5], b[6], b[7]),
            height: be_u32(b[8], b[9], b[10], b[11]),
            channels: if b[12] == 3u8 {
                QoiChannels::Rgb
            } else {
                QoiChannels::Rgba
            },
            colorspace: b[13],
        })
    }
}

/// Validates and extracts the fixed 14-byte header, returning it together
/// with the body bytes that follow it. Pure over the input slice.
pub fn split_header(input: &[u8]) -> (r: Result<(QoiHeader, &[u8]), QoiError>)
    ensures
        match r {
            Ok((h, body)) => spec_split_header(input@) == Ok::<QoiHeader, QoiError>(h)
                && body@ == input@.skip(14),
            Err(e) => spec_split_header(input@) == Err::<QoiHeader, QoiError>(e),
        },
{
    let len = input.len();
    if len < 14 {
        return Err(QoiError::TooShort);
    }
    if !(input[0] == 0x71 && input[1] == 0x6f && input[2] == 0x69 && input[3] == 0x66) {
        return Err(QoiError::BadMagic);
    }
    let channels = match QoiChannels::from_byte(input[12]) {
        Ok(c) => c,
        Err(e) => {
            return Err(e);
        },
    };
    let width = (input[4] as u32) * 0x1000000 + (input[5] as u32) * 0x10000 + (input[6] as u32)
        * 0x100 + (input[7] as u32);
    let height = (input[8] as u32) * 0x1000000 + (input[9] as u32) * 0x10000 + (input[10] as u32)
        * 0x100 + (input[11] as u32);
    let colorspace = input[13];
    let header = QoiHeader { width, height, channels, colorspace };
    let body = vstd::slice::slice_subrange(input, 14, len);
    Ok((header, body))
}

/// The largest pixel buffer a decode call is willing to allocate, in
/// bytes. A header whose `width * height * channels` exceeds this is
/// rejected with `DimensionsTooLarge` before any allocation.
pub const MAX_PIXEL_BYTES: u64 = 0x4000_0000;

/// The whole decode, as a function of the input bytes alone: header
/// validation, the dimension cap, operator decoding, reconstruction, and
/// the hard check that the output has `width * height * channels` bytes.
pub open spec fn spec_process_qoi(input: Seq<u8>) -> Result<(QoiHeader, Seq<u8>), QoiError> {
    match spec_split_header(input) {
        Err(e) => Err(e),
        Ok(h) => {
            if h.width * h.height * h.channels.spec_count() > MAX_PIXEL_BYTES {
                Err(QoiError::DimensionsTooLarge)
            } else {
                match operator::decode_ops(input.skip(14)) {
                    Err(e) => Err(e),
                    Ok(ops) => {
                        let pix = pixel::reconstruct(ops, h.channels);
                        if pix.len() == h.width * h.height * h.channels.spec_count() {
                            Ok((h, pix))
                        } else {
                            Err(QoiError::SizeMismatch)
                        }
                    },
                }
            }
        },
    }
}

/// Decodes one QOI byte buffer into its header and the raw, row-major,
/// interleaved pixel bytes. On success the output holds exactly
/// `width * height * channels` bytes; every failure is one of the named
/// errors, as `spec_process_qoi` lays down.
pub fn process_qoi(input: &[u8]) -> (r: Result<(QoiHeader, Vec<u8>), QoiError>)
    ensures
        match r {
            Ok((h, pix)) => spec_process_qoi(input@) matches Ok(sp) && sp.0 == h && sp.1 == pix@
                && pix@.len() == h.width * h.height * h.channels.spec_count(),
            Err(e) => spec_process_qoi(input@) == Err::<(QoiHeader, Seq<u8>), QoiError>(e),
        },
{
    let (header, body) = match split_header(input) {
        Ok(p) => p,
        Err(e) => {
            return Err(e);
        },
    };
    let count = header.channels.count();
    proof {
        vstd::arithmetic::mul::lemma_mul_upper_bound(
            header.width as int,
            0xFFFF_FFFF,
            header.height as int,
            0xFFFF_FFFF,
        );
        vstd::arithmetic::mul::lemma_mul_upper_bound(
            header.width as int * header.height as int,
            0xFFFF_FFFFint * 0xFFFF_FFFFint,
            count as int,
            4,
        );
    }
    let total: u128 = (header.width as u128) * (header.height as u128) * (count as u128);
    if total > MAX_PIXEL_BYTES as u128 {
        return Err(QoiError::DimensionsTooLarge);
    }
    let expected: usize = total as usize;
    let decoded = match header.channels {
        QoiChannels::Rgb => pixel::process_operators::<pixel::Rgb>(operator::OperatorIter::new(
            body,
        )),
        QoiChannels::Rgba => pixel::process_operators::<pixel::Rgba>(operator::OperatorIter::new(
            body,
        )),
    };
    let output = match decoded {
        Ok(o) => o,
        Err(e) => {
            return Err(e);
        },
    };
    if output.len() != expected {
        return Err(QoiError::SizeMismatch);
    }
    Ok((header, output))
}

/// Determinism: the decode result is a function of the input bytes alone,
/// so two decodes of one buffer agree in header and pixel bytes alike.
/// `process_qoi` pins its result to `spec_process_qoi`, so this covers
/// repeated calls of the executable decoder too.
pub proof fn lemma_decode_deterministic(
    input: Seq<u8>,
    r1: Result<(QoiHeader, Seq<u8>), QoiError>,
    r2: Result<(QoiHeader, Seq<u8>), QoiError>,
)
    requires
        r1 == spec_process_qoi(input),
        r2 == spec_process_qoi(input),
    ensures
        r1 == r2,
{
}

} // verus!
