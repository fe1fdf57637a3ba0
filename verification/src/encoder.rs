//! IR signal encoding and decoding for Panasonic AC protocol

use vstd::prelude::*;
use vstd::string::StringExecFns;

use crate::constants::{
    PANASONIC_AC_CHECKSUM_INIT, PANASONIC_BIT_MARK, PANASONIC_END_GAP, PANASONIC_FREQ,
    PANASONIC_HDR_MARK, PANASONIC_HDR_SPACE, PANASONIC_ONE_SPACE, PANASONIC_ZERO_SPACE,
};
use crate::error::{Error, Result};
use crate::protocol::bit_of;
use crate::text::{decimal, prefixed_decimal};
use crate::utils::{byte_sum, sum_bytes, summed_len};

verus! {

/// The checksum of a frame of `length` bytes held at the start of `data`:
/// the sum, modulo 256, of its bytes before the last one (and `0` for an
/// empty frame).
pub open spec fn frame_checksum(data: Seq<u8>, length: int) -> u8 {
    if length == 0 {
        PANASONIC_AC_CHECKSUM_INIT
    } else {
        ((PANASONIC_AC_CHECKSUM_INIT as nat + byte_sum(data.take(summed_len(data, length - 1))))
            % 256) as u8
    }
}

/// Whether `data` starts with a frame of `length` bytes (at least two) whose
/// last byte is its checksum.
pub open spec fn checksum_valid(data: Seq<u8>, length: int) -> bool {
    &&& 2 <= length <= data.len()
    &&& data[length - 1] == frame_checksum(data, length)
}

/// The space that encodes bit `7 - k` of `byte` (bits go out most significant first).
pub open spec fn bit_space(byte: u8, k: int) -> u16 {
    if bit_of(byte, (7 - k) as u8) {
        PANASONIC_ONE_SPACE
    } else {
        PANASONIC_ZERO_SPACE
    }
}

/// The timing at position `i` of the data section: every bit is a mark followed
/// by a space, eight bits per byte, most significant bit first. Position `i`
/// counts from the start of the signal, after the two header timings.
pub open spec fn data_timing(data: Seq<u8>, i: int) -> u16 {
    let p = (i - 2) / 2;
    if (i - 2) % 2 == 0 {
        PANASONIC_BIT_MARK
    } else {
        bit_space(data[p / 8], p % 8)
    }
}

/// The full timing sequence of `data`: header mark and space, the data
/// section, then the footer mark and end gap.
pub open spec fn timings_of(data: Seq<u8>) -> Seq<u16> {
    let n = 16 * data.len() + 4;
    Seq::new(
        n as nat,
        |i: int|
            if i == 0 {
                PANASONIC_HDR_MARK
            } else if i == 1 {
                PANASONIC_HDR_SPACE
            } else if i == n - 2 {
                PANASONIC_BIT_MARK
            } else if i == n - 1 {
                PANASONIC_END_GAP
            } else {
                data_timing(data, i)
            },
    )
}

/// The signal that `encode` produces for `data`.
pub open spec fn encoded_signal(data: Seq<u8>, signal: IrSignal) -> bool {
    &&& signal.data@ == data
    &&& signal.carrier_frequency == PANASONIC_FREQ
    &&& signal.timings matches Some(t) && t@ == timings_of(data)
}

/// Whether `value` lies within 25% (rounded down) of `expected`.
pub open spec fn timing_close(value: u16, expected: u16) -> bool {
    let tolerance: u16 = expected / 4;
    expected - tolerance <= value <= expected + tolerance
}

/// Whether the timings open with a valid header (and hold at least a footer).
pub open spec fn header_valid(t: Seq<u16>) -> bool {
    &&& t.len() >= 4
    &&& timing_close(t[0], PANASONIC_HDR_MARK)
    &&& timing_close(t[1], PANASONIC_HDR_SPACE)
}

/// The number of data bits that a timing sequence carries.
pub open spec fn data_bit_count(t: Seq<u16>) -> int {
    (t.len() - 4) / 2
}

/// Whether data bit `i` of the timings reads as a one: its mark is a bit mark
/// and its space is a one-space.
pub open spec fn decoded_bit(t: Seq<u16>, i: int) -> bool {
    timing_close(t[2 + 2 * i], PANASONIC_BIT_MARK) && timing_close(t[3 + 2 * i], PANASONIC_ONE_SPACE)
}

/// `data` is what the timings decode to: one byte per eight data bits, bit
/// `7 - k` of byte `j` set exactly when data bit `8 * j + k` reads as a one.
pub open spec fn decodes_to(t: Seq<u16>, data: Seq<u8>) -> bool {
    &&& data.len() == data_bit_count(t) / 8
    &&& forall|j: int, k: int|
        0 <= j < data.len() && 0 <= k < 8 ==> #[trigger] bit_of(data[j], (7 - k) as u8)
            == decoded_bit(t, 8 * j + k)
}

/// The big-endian bytes of a 32-bit command.
pub open spec fn command_bytes(command: u32) -> Seq<u8> {
    seq![(command >> 24) as u8, (command >> 16) as u8, (command >> 8) as u8, command as u8]
}

/// The 32-bit command read big-endian from the first four bytes of `data`.
pub open spec fn command_of(data: Seq<u8>) -> u32 {
    ((data[0] as u32) << 24) | ((data[1] as u32) << 16) | ((data[2] as u32) << 8) | (data[3] as u32)
}

/// The 48-bit Panasonic command: manufacturer, device, subdevice and function
/// codes followed by the XOR of the three codes.
pub open spec fn panasonic64(manufacturer: u16, device: u8, subdevice: u8, function: u8) -> u64 {
    ((manufacturer as u64) << 32) | ((device as u64) << 24) | ((subdevice as u64) << 16) | ((
    function as u64) << 8) | ((device ^ subdevice ^ function) as u64)
}

/// Represents an IR signal with timing information
#[derive(Debug, Clone)]
pub struct IrSignal {
    /// Raw data bytes
    pub data: Vec<u8>,
    /// Carrier frequency in Hz
    pub carrier_frequency: u32,
    /// Timing information for marks and spaces
    pub timings: Option<Vec<u16>>,
}

/// Trait for encoding data into IR signals
pub trait Encoder {
    /// Encode data into an IR signal (the timings of a signal take 16 entries
    /// per byte, so their count must fit in memory)
    fn encode(&self, data: &[u8]) -> Result<IrSignal>
        requires
            16 * data@.len() + 4 <= usize::MAX,
    ;

    /// Encode a specific command into an IR signal
    fn encode_command(&self, command: u32) -> Result<IrSignal>;
}

/// Trait for decoding IR signals into data
pub trait Decoder {
    /// Decode an IR signal into data
    fn decode(&self, signal: &IrSignal) -> Result<Vec<u8>>;

    /// Extract a command from a decoded signal
    fn extract_command(&self, data: &[u8]) -> Result<u32>;
}

/// Implementation of Panasonic IR protocol encoder
pub struct PanasonicEncoder;

impl Default for PanasonicEncoder {
    fn default() -> (r: Self)
        ensures
            r == PanasonicEncoder,
    {
        PanasonicEncoder
    }
}

impl PanasonicEncoder {
    /// Create a new PanasonicEncoder
    pub fn new() -> (r: Self)
        ensures
            r == PanasonicEncoder,
    {
        PanasonicEncoder
    }

    /// Calculate the checksum for a Panasonic AC data block
    pub fn calculate_checksum(data: &[u8], length: usize) -> (r: u8)
        ensures
            r == frame_checksum(data@, length as int),
    {
        if length == 0 {
            return PANASONIC_AC_CHECKSUM_INIT;
        }
        sum_bytes(data, length - 1, PANASONIC_AC_CHECKSUM_INIT)
    }

    /// Verify if the checksum in the data is valid
    pub fn verify_checksum(data: &[u8], length: usize) -> (r: bool)
        ensures
            r == checksum_valid(data@, length as int),
    {
        if length < 2 || data.len() < length {
            return false;
        }
        data[length - 1] == Self::calculate_checksum(data, length)
    }

    /// Encode a 48-bit Panasonic command
    pub fn encode_panasonic64(manufacturer: u16, device: u8, subdevice: u8, function: u8) -> (r:
        u64)
        ensures
            r == panasonic64(manufacturer, device, subdevice, function),
    {
        let checksum: u8 = device ^ subdevice ^ function;

        ((manufacturer as u64) << 32) | ((device as u64) << 24) | ((subdevice as u64) << 16) | ((
        function as u64) << 8) | (checksum as u64)
    }

    /// Generate the timing sequence for a Panasonic IR signal
    fn generate_timings(&self, data: &[u8]) -> (r: Vec<u16>)
        requires
            16 * data@.len() + 4 <= usize::MAX,
        ensures
            r@ == timings_of(data@),
    {
        let mut timings: Vec<u16> = Vec::with_capacity(2 + data.len() * 16 + 2);

        // Header
        timings.push(PANASONIC_HDR_MARK);
        timings.push(PANASONIC_HDR_SPACE);

        // Data
        let mut i: usize = 0;
        while i < data.len()
            invariant
                i <= data@.len(),
                timings@.len() == 2 + 16 * i,
                timings@[0] == PANASONIC_HDR_MARK,
                timings@[1] == PANASONIC_HDR_SPACE,
                forall|x: int| 2 <= x < timings@.len() ==> #[trigger] timings@[x] == data_timing(data@, x),
            decreases data@.len() - i,
        {
            let byte: u8 = data[i];
            let mut k: usize = 0;
            while k < 8
                invariant
                    i < data@.len(),
                    byte == data@[i as int],
                    k <= 8,
                    timings@.len() == 2 + 16 * i + 2 * k,
                    timings@[0] == PANASONIC_HDR_MARK,
                    timings@[1] == PANASONIC_HDR_SPACE,
                    forall|x: int| 2 <= x < timings@.len() ==> #[trigger] timings@[x] == data_timing(data@, x),
                decreases 8 - k,
            {
                let bit: u32 = (7 - k) as u32;
                let ghost x: int = 2 + 16 * i + 2 * k;
                assert(((x - 2) / 2) / 8 == i && ((x - 2) / 2) % 8 == k && (x - 2) % 2 == 0);
                assert(((x + 1 - 2) / 2) / 8 == i && ((x + 1 - 2) / 2) % 8 == k && (x + 1 - 2) % 2 == 1);
                timings.push(PANASONIC_BIT_MARK);
                assert((byte & (1u8 << bit)) != 0 <==> bit_of(byte, bit as u8)) by (bit_vector)
                    requires
                        bit < 8,
                ;
                if (byte & (1u8 << bit)) != 0 {
                    timings.push(PANASONIC_ONE_SPACE);
                } else {
                    timings.push(PANASONIC_ZERO_SPACE);
                }
                k = k + 1;
            }
            i = i + 1;
        }

        // Footer
        timings.push(PANASONIC_BIT_MARK);
        timings.push(PANASONIC_END_GAP);

        assert(timings@ =~= timings_of(data@));
        timings
    }
}

impl Encoder for PanasonicEncoder {
    fn encode(&self, data: &[u8]) -> (r: Result<IrSignal>)
        ensures
            r matches Ok(signal) && encoded_signal(data@, signal),
    {
        let timings = self.generate_timings(data);

        Ok(IrSignal {
            data: vstd::slice::slice_to_vec(data),
            carrier_frequency: PANASONIC_FREQ,
            timings: Some(timings),
        })
    }

    fn encode_command(&self, command: u32) -> (r: Result<IrSignal>)
        ensures
            r matches Ok(signal) && encoded_signal(command_bytes(command), signal),
    {
        let bytes: [u8; 4] = [
            (command >> 24) as u8,
            (command >> 16) as u8,
            (command >> 8) as u8,
            command as u8,
        ];
        assert(bytes@ =~= command_bytes(command));
        self.encode(&bytes)
    }
}

/// Implementation of Panasonic IR protocol decoder
pub struct PanasonicDecoder;

impl Default for PanasonicDecoder {
    fn default() -> (r: Self)
        ensures
            r == PanasonicDecoder,
    {
        PanasonicDecoder
    }
}

/// Setting bit `p` of `b` leaves every other bit as it was.
proof fn lemma_or_bit(b: u8, p: u8, q: u8)
    requires
        p < 8,
        q < 8,
    ensures
        bit_of(b | (1u8 << p), q) == (bit_of(b, q) || p == q),
{
    assert(bit_of(b | (1u8 << p), q) == (bit_of(b, q) || p == q)) by (bit_vector)
        requires
            p < 8,
            q < 8,
    ;
}

/// The bits of the zero byte are all clear.
proof fn lemma_zero_bits(q: u8)
    requires
        q < 8,
    ensures
        !bit_of(0u8, q),
{
    assert(!bit_of(0u8, q)) by (bit_vector)
        requires
            q < 8,
    ;
}

impl PanasonicDecoder {
    /// Create a new PanasonicDecoder
    pub fn new() -> (r: Self)
        ensures
            r == PanasonicDecoder,
    {
        PanasonicDecoder
    }

    /// Parse timings into data
    fn parse_timings(&self, timings: &[u16]) -> (r: Result<Vec<u8>>)
        ensures
            !header_valid(timings@) ==> (r matches Err(Error::ProtocolError(msg))
                && msg@ == "Invalid header timing"@),
            header_valid(timings@) && data_bit_count(timings@) % 8 != 0 ==> (r matches Err(
                Error::ProtocolError(msg),
            ) && msg@ == "Bit count "@ + decimal(data_bit_count(timings@) as nat)
                + " is not a multiple of 8"@),
            header_valid(timings@) && data_bit_count(timings@) % 8 == 0 ==> (r matches Ok(data)
                && decodes_to(timings@, data@)),
    {
        // Header validation
        if timings.len() < 4 || !Self::validate_timing(timings[0], PANASONIC_HDR_MARK)
            || !Self::validate_timing(timings[1], PANASONIC_HDR_SPACE) {
            return Err(Error::ProtocolError(String::from_str("Invalid header timing")));
        }

        let bit_count: usize = (timings.len() - 4) / 2;  // Subtract header and footer
        if bit_count % 8 != 0 {
            let mut msg = prefixed_decimal("Bit count ", bit_count as u64);
            msg.append(" is not a multiple of 8");
            return Err(Error::ProtocolError(msg));
        }

        let byte_count: usize = bit_count / 8;
        let mut data: Vec<u8> = vec![0u8; byte_count];
        assert forall|j: int| 0 <= j < data@.len() implies data@[j] == 0u8 by {
            assert(vstd::pervasive::cloned(0u8, data@[j]));
        }

        proof {
            assert forall|j: int, k: int| 0 <= j < byte_count && 0 <= k < 8 implies !#[trigger] bit_of(
                data@[j],
                (7 - k) as u8,
            ) by {
                lemma_zero_bits((7 - k) as u8);
            }
        }

        // Parse data
        let mut i: usize = 0;
        while i < bit_count
            invariant
                timings@.len() >= 4,
                bit_count == data_bit_count(timings@),
                bit_count % 8 == 0,
                byte_count == bit_count / 8,
                data@.len() == byte_count,
                i <= bit_count,
                forall|j: int, k: int|
                    0 <= j < byte_count && 0 <= k < 8 ==> #[trigger] bit_of(data@[j], (7 - k) as u8)
                        == (8 * j + k < i && decoded_bit(timings@, 8 * j + k)),
            ensures
                i == bit_count,
            decreases bit_count - i,
        {
            assert(timings@.len() == timings.len());
            assert(2 + 2 * i + 1 < timings@.len()) by {
                assert(bit_count == (timings@.len() - 4) / 2);
                assert(2 * bit_count <= timings@.len() - 4);
            }
            let timing_idx: usize = 2 + i * 2;  // Skip header
            if timing_idx + 1 >= timings.len() {
                break;
            }

            let byte_idx: usize = i / 8;
            let bit_pos: usize = 7 - (i % 8);
            let mark_ok = Self::validate_timing(timings[timing_idx], PANASONIC_BIT_MARK);
            // Check space to determine bit value
            let bit_value: u8 = if mark_ok && Self::validate_timing(
                timings[timing_idx + 1],
                PANASONIC_ONE_SPACE,
            ) {
                1  // One bit

            } else {
                0  // Zero bit

            };
            assert(bit_value == 1 <==> decoded_bit(timings@, i as int));

            let ghost old_data = data@;
            // Set bit in data
            if byte_idx < data.len() && bit_value == 1 {
                let b: u8 = data[byte_idx] | (1u8 << bit_pos as u8);
                data.set(byte_idx, b);
            }
            proof {
                assert forall|j: int, k: int| 0 <= j < byte_count && 0 <= k < 8 implies #[trigger] bit_of(
                    data@[j],
                    (7 - k) as u8,
                ) == (8 * j + k < i + 1 && decoded_bit(timings@, 8 * j + k)) by {
                    assert(bit_of(old_data[j], (7 - k) as u8) == (8 * j + k < i && decoded_bit(
                        timings@,
                        8 * j + k,
                    )));
                    if j == byte_idx && bit_value == 1 {
                        lemma_or_bit(old_data[j], bit_pos as u8, (7 - k) as u8);
                    }
                }
            }
            i = i + 1;
        }
        proof {
            assert forall|j: int, k: int| 0 <= j < byte_count && 0 <= k < 8 implies #[trigger] bit_of(
                data@[j],
                (7 - k) as u8,
            ) == decoded_bit(timings@, 8 * j + k) by {
                assert(bit_of(data@[j], (7 - k) as u8) == (8 * j + k < i && decoded_bit(
                    timings@,
                    8 * j + k,
                )));
            }
        }
        Ok(data)
    }

    /// Validate if a timing value is within tolerance
    fn validate_timing(value: u16, expected: u16) -> (r: bool)
        requires
            expected + expected / 4 <= u16::MAX,
        ensures
            r == timing_close(value, expected),
    {
        let tolerance: u16 = expected / 4;  // 25% tolerance
        (value >= expected - tolerance) && (value <= expected + tolerance)
    }
}

impl Decoder for PanasonicDecoder {
    fn decode(&self, signal: &IrSignal) -> (r: Result<Vec<u8>>)
        ensures
            signal.timings matches Some(t) ==> {
                &&& !header_valid(t@) ==> (r matches Err(Error::ProtocolError(msg)) && msg@
                    == "Invalid header timing"@)
                &&& header_valid(t@) && data_bit_count(t@) % 8 != 0 ==> (r matches Err(
                    Error::ProtocolError(msg),
                ) && msg@ == "Bit count "@ + decimal(data_bit_count(t@) as nat)
                    + " is not a multiple of 8"@)
                &&& header_valid(t@) && data_bit_count(t@) % 8 == 0 ==> (r matches Ok(data)
                    && decodes_to(t@, data@))
            },
            signal.timings is None ==> (r matches Ok(data) && data@ == signal.data@),
    {
        // If we have timings, parse them
        if let Some(timings) = &signal.timings {
            return self.parse_timings(timings.as_slice());
        }
        // Otherwise, just return the data

        let data = signal.data.clone();
        assert(data@ =~= signal.data@);
        Ok(data)
    }

    fn extract_command(&self, data: &[u8]) -> (r: Result<u32>)
        ensures
            data@.len() < 4 ==> (r matches Err(Error::InvalidData(msg))
                && msg@ == "Data too short to extract command"@),
            data@.len() >= 4 ==> r == Ok::<u32, Error>(command_of(data@)),
    {
        if data.len() < 4 {
            return Err(Error::InvalidData(String::from_str("Data too short to extract command")));
        }
        // The first four bytes, most significant first
        let command: u32 = ((data[0] as u32) << 24u32) | ((data[1] as u32) << 16u32) | ((
        data[2] as u32) << 8u32) | (data[3] as u32);
        Ok(command)
    }
}

/// Two bytes that agree on all eight bits are equal.
proof fn lemma_bits_determine_byte(a: u8, b: u8)
    requires
        forall|q: u8| q < 8 ==> #[trigger] bit_of(a, q) == bit_of(b, q),
    ensures
        a == b,
{
    assert(bit_of(a, 0) == bit_of(b, 0));
    assert(bit_of(a, 1) == bit_of(b, 1));
    assert(bit_of(a, 2) == bit_of(b, 2));
    assert(bit_of(a, 3) == bit_of(b, 3));
    assert(bit_of(a, 4) == bit_of(b, 4));
    assert(bit_of(a, 5) == bit_of(b, 5));
    assert(bit_of(a, 6) == bit_of(b, 6));
    assert(bit_of(a, 7) == bit_of(b, 7));
    assert(a == b) by (bit_vector)
        requires
            bit_of(a, 0) == bit_of(b, 0),
            bit_of(a, 1) == bit_of(b, 1),
            bit_of(a, 2) == bit_of(b, 2),
            bit_of(a, 3) == bit_of(b, 3),
            bit_of(a, 4) == bit_of(b, 4),
            bit_of(a, 5) == bit_of(b, 5),
            bit_of(a, 6) == bit_of(b, 6),
            bit_of(a, 7) == bit_of(b, 7),
    ;
}

/// Encode/decode round trip: the timings that `encode` produces for `data`
/// carry a valid header and a whole number of bytes, and the bytes that
/// `decode` reads from them (see `decodes_to`) are `data` itself.
pub proof fn law_encode_decode_roundtrip(data: Seq<u8>, decoded: Seq<u8>)
    ensures
        header_valid(timings_of(data)),
        data_bit_count(timings_of(data)) % 8 == 0,
        decodes_to(timings_of(data), decoded) ==> decoded == data,
{
    let t = timings_of(data);
    let n = data.len();
    assert(data_bit_count(t) == 8 * n);
    if decodes_to(t, decoded) {
        assert forall|j: int| 0 <= j < n implies decoded[j] == data[j] by {
            assert forall|q: u8| q < 8 implies #[trigger] bit_of(decoded[j], q) == bit_of(
                data[j],
                q,
            ) by {
                let k: int = 7 - q;
                let i: int = 8 * j + k;
                assert(bit_of(decoded[j], (7 - k) as u8) == decoded_bit(t, i));
                assert(t[2 + 2 * i] == data_timing(data, 2 + 2 * i));
                assert(t[3 + 2 * i] == data_timing(data, 3 + 2 * i));
                assert((3 + 2 * i - 2) / 2 == i && (3 + 2 * i - 2) % 2 == 1);
                assert(i / 8 == j && i % 8 == k);
            }
            lemma_bits_determine_byte(decoded[j], data[j]);
        }
        assert(decoded =~= data);
    }
}

/// Command round trip: reading a command back from its big-endian bytes
/// gives the command.
pub proof fn law_command_roundtrip(command: u32)
    ensures
        command_of(command_bytes(command)) == command,
{
    let b = command_bytes(command);
    assert(((((command >> 24) as u8) as u32) << 24) | ((((command >> 16) as u8) as u32) << 16) | ((
    ((command >> 8) as u8) as u32) << 8) | ((command as u8) as u32) == command) by (bit_vector);
}

} // verus!
