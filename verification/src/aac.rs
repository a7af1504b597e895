use vstd::prelude::*;
use vstd::bytes::{spec_u64_from_le_bytes, spec_u64_to_le_bytes, lemma_auto_spec_u64_to_from_le_bytes};
use vstd::endian::{endianness, Endian};

verus! {

/// Number of layers the decoder is opened with.
pub const LAYER_COUNT: u32 = 1;

/// `AACDEC_FLUSH` of the FDK AAC decoder: discard input and flush the filter banks.
pub const AACDEC_FLUSH: u32 = 2;

/// Length in bytes of the raw configuration handed to the decoder: one `i64`.
pub const CONFIG_LENGTH: u32 = 8;

/// The word that the stream-info query hands back to Java: the sample rate
/// in the upper 32 bits, the frame size shifted by 16, the channel count in
/// the low bits, all combined with a bitwise or on 64-bit signed integers.
pub open spec fn packed_stream_info(sample_rate: i32, frame_size: i32, num_channels: i32) -> i64 {
    ((sample_rate as i64) << 32u64) | ((frame_size as i64) << 16u64) | (num_channels as i64)
}

/// Packs the decoder's stream info into one `i64`.
pub fn stream_info_word(sample_rate: i32, frame_size: i32, num_channels: i32) -> (word: i64)
    ensures
        word == packed_stream_info(sample_rate, frame_size, num_channels),
{
    let sr: i64 = sample_rate as i64;
    let fs: i64 = frame_size as i64;
    let nc: i64 = num_channels as i64;
    (sr << 32u64) | (fs << 16u64) | nc
}

/// Stream info with a non-negative sample rate and a frame size and channel
/// count below 2^16 is packed without loss: the word is
/// `sample_rate * 2^32 + frame_size * 2^16 + num_channels`, and shifting and
/// masking it gives each field back.
pub proof fn stream_info_unpacks(sample_rate: i32, frame_size: i32, num_channels: i32)
    requires
        0 <= sample_rate,
        0 <= frame_size < 0x10000,
        0 <= num_channels < 0x10000,
    ensures
        packed_stream_info(sample_rate, frame_size, num_channels) == sample_rate * 0x1_0000_0000
            + frame_size * 0x10000 + num_channels,
        packed_stream_info(sample_rate, frame_size, num_channels) >> 32u64 == sample_rate as i64,
        (packed_stream_info(sample_rate, frame_size, num_channels) >> 16u64) & 0xffff
            == frame_size as i64,
        packed_stream_info(sample_rate, frame_size, num_channels) & 0xffff == num_channels as i64,
{
    let sr: i64 = sample_rate as i64;
    let fs: i64 = frame_size as i64;
    let nc: i64 = num_channels as i64;
    assert((sr << 32u64) | (fs << 16u64) | nc == sr * 0x1_0000_0000 + fs * 0x10000 + nc)
        by (bit_vector)
        requires
            0 <= sr < 0x8000_0000,
            0 <= fs < 0x10000,
            0 <= nc < 0x10000,
    ;
    assert(((sr << 32u64) | (fs << 16u64) | nc) >> 32u64 == sr) by (bit_vector)
        requires
            0 <= sr < 0x8000_0000,
            0 <= fs < 0x10000,
            0 <= nc < 0x10000,
    ;
    assert((((sr << 32u64) | (fs << 16u64) | nc) >> 16u64) & 0xffff == fs) by (bit_vector)
        requires
            0 <= sr < 0x8000_0000,
            0 <= fs < 0x10000,
            0 <= nc < 0x10000,
    ;
    assert(((sr << 32u64) | (fs << 16u64) | nc) & 0xffff == nc) by (bit_vector)
        requires
            0 <= sr < 0x8000_0000,
            0 <= fs < 0x10000,
            0 <= nc < 0x10000,
    ;
}

/// What the decoder's `Fill` call is given for one input buffer: the buffer's
/// size and how many bytes at its end (from the caller's offset on) are
/// still to be read.
pub struct FillRequest {
    pub buffer_size: u32,
    pub bytes_valid: u32,
}

impl FillRequest {
    /// Builds the request for a buffer of `buffer_length` bytes whose unread
    /// part starts at `buffer_offset`. Both are reinterpreted as `u32`; an
    /// offset past the length is refused by the `requires`, as the
    /// subtraction of the two would overflow.
    pub fn new(buffer_offset: i32, buffer_length: i32) -> (req: FillRequest)
        requires
            buffer_offset as u32 <= buffer_length as u32,
        ensures
            req.buffer_size == buffer_length as u32,
            req.bytes_valid == buffer_length as u32 - buffer_offset as u32,
    {
        let length: u32 = buffer_length as u32;
        let offset: u32 = buffer_offset as u32;
        FillRequest { buffer_size: length, bytes_valid: length - offset }
    }

    /// How many bytes the decoder took, given how many it left unread.
    pub fn bytes_consumed(&self, bytes_left: u32) -> (used: i32)
        requires
            bytes_left <= self.bytes_valid,
        ensures
            used == (self.bytes_valid - bytes_left) as i32,
    {
        (self.bytes_valid - bytes_left) as i32
    }
}

/// What the decoder takes from a fill and what it leaves add up to the bytes
/// that were offered, as long as the offered bytes fit in an `i32`.
pub proof fn fill_accounts_for_every_byte(req: FillRequest, bytes_left: u32, used: i32)
    requires
        bytes_left <= req.bytes_valid <= i32::MAX,
        used == (req.bytes_valid - bytes_left) as i32,
    ensures
        used + bytes_left == req.bytes_valid,
        0 <= used <= req.bytes_valid,
        bytes_left == req.bytes_valid ==> used == 0,
{
}

/// The flags of one decode call: `AACDEC_FLUSH` when Java asks for a flush,
/// none otherwise. A JNI boolean other than 0 or 1 is no valid `bool`.
pub fn decode_flags(flush: u8) -> (flags: u32)
    requires
        flush <= 1,
    ensures
        flags == (if flush == 1 { AACDEC_FLUSH } else { 0 }),
{
    if flush == 1 {
        AACDEC_FLUSH
    } else {
        0
    }
}

/// The bytes of a value in the machine's byte order: its little-endian
/// encoding on a little-endian machine, the reverse on a big-endian one.
/// `endianness()` is vstd's name for the byte order of the executing machine.
pub open spec fn machine_order_bytes(value: i64) -> Seq<u8> {
    if endianness() is Little {
        spec_u64_to_le_bytes(value as u64)
    } else {
        spec_u64_to_le_bytes(value as u64).reverse()
    }
}

/// The bytes of `i64::to_ne_bytes`: the value's memory in the machine's byte
/// order, which std documents as `to_le_bytes` on a little-endian machine and
/// `to_be_bytes` (the reverse) on a big-endian one. Which order the machine
/// has is left to vstd's `endianness()`; the same order holds for every value.
#[verifier::external_body]
fn native_order_bytes(value: i64) -> (bytes: [u8; 8])
    ensures
        bytes@ == spec_u64_to_le_bytes(value as u64) || bytes@ == spec_u64_to_le_bytes(
            value as u64,
        ).reverse(),
        bytes@ == machine_order_bytes(value),
{
    value.to_ne_bytes()
}

/// The raw configuration handed to the decoder: the memory of the Java
/// `long`, `CONFIG_LENGTH` bytes in the machine's byte order.
pub fn config_bytes(buffer_data: i64) -> (bytes: [u8; 8])
    ensures
        bytes@.len() == CONFIG_LENGTH,
        bytes@ == spec_u64_to_le_bytes(buffer_data as u64) || bytes@ == spec_u64_to_le_bytes(
            buffer_data as u64,
        ).reverse(),
        bytes@ == machine_order_bytes(buffer_data),
{
    native_order_bytes(buffer_data)
}

/// The configuration bytes of any two values are in one and the same byte
/// order: both little-endian on a little-endian machine, both big-endian on a
/// big-endian one. No value gets the other order.
pub proof fn config_bytes_share_one_order(v1: i64, b1: Seq<u8>, v2: i64, b2: Seq<u8>)
    requires
        b1 == machine_order_bytes(v1),
        b2 == machine_order_bytes(v2),
    ensures
        (endianness() is Little) ==> b1 == spec_u64_to_le_bytes(v1 as u64) && b2
            == spec_u64_to_le_bytes(v2 as u64),
        !(endianness() is Little) ==> b1 == spec_u64_to_le_bytes(v1 as u64).reverse() && b2
            == spec_u64_to_le_bytes(v2 as u64).reverse(),
{
}

/// Reading the configuration bytes back in the machine's order gives the
/// value: on a little-endian machine the bytes themselves are its
/// little-endian encoding, on a big-endian machine their reverse is, and the
/// first byte is the value's lowest byte, respectively its highest.
pub proof fn config_bytes_read_back(value: i64, bytes: Seq<u8>)
    requires
        bytes == machine_order_bytes(value),
    ensures
        bytes.len() == 8,
        (endianness() is Little) ==> spec_u64_from_le_bytes(bytes) == value as u64,
        !(endianness() is Little) ==> spec_u64_from_le_bytes(bytes.reverse()) == value as u64,
        (endianness() is Little) ==> bytes[0] == (value as u64 & 0xff) as u8,
        !(endianness() is Little) ==> bytes[0] == ((value as u64 >> 56u64) & 0xff) as u8,
{
    lemma_auto_spec_u64_to_from_le_bytes();
    let le = spec_u64_to_le_bytes(value as u64);
    assert(le.reverse().reverse() =~= le);
    vstd::bytes::spec_u64_to_le_bytes_to_open(value as u64);
}

} // verus!
