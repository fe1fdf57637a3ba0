//! What the command-line controller reads and writes: the names of models and
//! settings that it accepts on the command line, and its preset files.

use vstd::prelude::*;
use vstd::string::{StrSliceExecFns, StringExecFns, StringSliceAdditionalSpecFns};
use vstd::utf8::{decode_utf8, encode_utf8, is_char_boundary};

use crate::constants::{PANASONIC_AC_STATE_LENGTH, PANASONIC_FREQ};
use crate::device::{PanasonicAc, PanasonicAcModel};
use crate::encoder::checksum_valid;
use crate::error::{Error, Result};
use crate::protocol::{bit_of, with_bit, AcDevice, Device};
use crate::state::{
    clamp_temp, detect_model_of, fan_field, fan_of, law_fan_roundtrip, law_mode_roundtrip,
    law_power_roundtrip, law_raw_state_roundtrip, law_swing_h_roundtrip, law_swing_v_roundtrip,
    mode_field, model_frame, power_of, powerful_offset, quiet_offset, received_frame, sent_frame,
    supports_swing_h, swing_h_of, swing_v_field, with_fan, with_mode, with_power, with_powerful,
    with_quiet, with_swing_h, with_swing_v, with_temp, AcStateView,
};
use crate::text::{decimal, push_char, u64_to_decimal};
use crate::types::{AcMode, FanSpeed, SwingH, SwingV};

verus! {

/// The lowercase form of a string that holds a character outside ASCII, as
/// `str::to_lowercase` computes it from the Unicode lowercase mappings.
pub uninterp spec fn lowercase(s: Seq<char>) -> Seq<char>;

/// The lowercase form of an ASCII character: `'A'..='Z'` become `'a'..='z'`,
/// every other character stays.
pub open spec fn ascii_lower(c: char) -> char {
    if 'A' <= c <= 'Z' {
        ((c as u32) + 32) as char
    } else {
        c
    }
}

/// The lowercase form of a string: for an ASCII string each uppercase letter
/// replaced by its lowercase letter, otherwise what the Unicode lowercase
/// mappings give (named by `lowercase`).
pub open spec fn text_lowercase(s: Seq<char>) -> Seq<char> {
    if vstd::utf8::is_ascii_chars(s) {
        s.map_values(|c: char| ascii_lower(c))
    } else {
        lowercase(s)
    }
}

/// Lowercases a string with `str::to_lowercase`. On ASCII text the Unicode
/// lowercase mapping is the ASCII one, which the contract states; for other
/// text the result follows the Unicode mappings, which it does not spell out
/// but names (`lowercase`).
#[verifier::external_body]
fn to_lowercase(s: &str) -> (r: String)
    ensures
        vstd::utf8::is_ascii_chars(s@) ==> r@ == s@.map_values(|c: char| ascii_lower(c)),
        !vstd::utf8::is_ascii_chars(s@) ==> r@ == lowercase(s@),
{
    s.to_lowercase()
}

/// Whether a string spells `keyword`.
fn is_keyword(s: &String, keyword: &str) -> (r: bool)
    ensures
        r == (s@ == keyword@),
{
    let k = String::from_str(keyword);
    *s == k
}

/// The model that a lowercase name selects.
pub open spec fn model_keyword(k: Seq<char>) -> Option<PanasonicAcModel> {
    if k == "dke"@ {
        Some(PanasonicAcModel::Dke)
    } else if k == "jke"@ {
        Some(PanasonicAcModel::Jke)
    } else if k == "lke"@ {
        Some(PanasonicAcModel::Lke)
    } else if k == "nke"@ {
        Some(PanasonicAcModel::Nke)
    } else if k == "ckp"@ {
        Some(PanasonicAcModel::Ckp)
    } else if k == "rkr"@ {
        Some(PanasonicAcModel::Rkr)
    } else {
        None
    }
}

/// The model for an already lowercased name `lower`; the error names the
/// name as it was given, `model_str`.
pub fn model_of_keyword(lower: &String, model_str: &str) -> (r: Result<PanasonicAcModel>)
    ensures
        model_keyword(lower@) matches Some(m) ==> r == Ok::<PanasonicAcModel, Error>(m),
        model_keyword(lower@) is None ==> (r matches Err(Error::InvalidValue(msg)) && msg@
            == "Invalid AC model: "@ + model_str@ + ". Valid models are: dke, jke, lke, nke, ckp, rkr"@),
{
    if is_keyword(lower, "dke") {
        Ok(PanasonicAcModel::Dke)
    } else if is_keyword(lower, "jke") {
        Ok(PanasonicAcModel::Jke)
    } else if is_keyword(lower, "lke") {
        Ok(PanasonicAcModel::Lke)
    } else if is_keyword(lower, "nke") {
        Ok(PanasonicAcModel::Nke)
    } else if is_keyword(lower, "ckp") {
        Ok(PanasonicAcModel::Ckp)
    } else if is_keyword(lower, "rkr") {
        Ok(PanasonicAcModel::Rkr)
    } else {
        let mut msg = String::from_str("Invalid AC model: ");
        msg.append(model_str);
        msg.append(". Valid models are: dke, jke, lke, nke, ckp, rkr");
        Err(Error::InvalidValue(msg))
    }
}

/// Parse AC model from string (case-insensitive)
pub fn parse_model(model_str: &str) -> (r: Result<PanasonicAcModel>)
    ensures
        model_keyword(text_lowercase(model_str@)) matches Some(m) ==> r == Ok::<
            PanasonicAcModel,
            Error,
        >(m),
        model_keyword(text_lowercase(model_str@)) is None ==> (r matches Err(Error::InvalidValue(msg))
            && msg@ == "Invalid AC model: "@ + model_str@
            + ". Valid models are: dke, jke, lke, nke, ckp, rkr"@),
{
    let lower = to_lowercase(model_str);
    model_of_keyword(&lower, model_str)
}

/// The mode that a lowercase name selects.
pub open spec fn mode_keyword(k: Seq<char>) -> Option<AcMode> {
    if k == "auto"@ {
        Some(AcMode::Auto)
    } else if k == "cool"@ {
        Some(AcMode::Cool)
    } else if k == "heat"@ {
        Some(AcMode::Heat)
    } else if k == "dry"@ {
        Some(AcMode::Dry)
    } else if k == "fan"@ {
        Some(AcMode::Fan)
    } else {
        None
    }
}

/// The mode for an already lowercased name `lower`; the error names the name
/// as it was given, `mode_str`.
pub fn mode_of_keyword(lower: &String, mode_str: &str) -> (r: Result<AcMode>)
    ensures
        mode_keyword(lower@) matches Some(m) ==> r == Ok::<AcMode, Error>(m),
        mode_keyword(lower@) is None ==> (r matches Err(Error::InvalidValue(msg)) && msg@
            == "Invalid mode: "@ + mode_str@ + ". Valid modes are: auto, cool, heat, dry, fan"@),
{
    if is_keyword(lower, "auto") {
        Ok(AcMode::Auto)
    } else if is_keyword(lower, "cool") {
        Ok(AcMode::Cool)
    } else if is_keyword(lower, "heat") {
        Ok(AcMode::Heat)
    } else if is_keyword(lower, "dry") {
        Ok(AcMode::Dry)
    } else if is_keyword(lower, "fan") {
        Ok(AcMode::Fan)
    } else {
        let mut msg = String::from_str("Invalid mode: ");
        msg.append(mode_str);
        msg.append(". Valid modes are: auto, cool, heat, dry, fan");
        Err(Error::InvalidValue(msg))
    }
}

/// Parse AC mode from string (case-insensitive)
pub fn parse_mode(mode_str: &str) -> (r: Result<AcMode>)
    ensures
        mode_keyword(text_lowercase(mode_str@)) matches Some(m) ==> r == Ok::<AcMode, Error>(m),
        mode_keyword(text_lowercase(mode_str@)) is None ==> (r matches Err(Error::InvalidValue(msg))
            && msg@ == "Invalid mode: "@ + mode_str@ + ". Valid modes are: auto, cool, heat, dry, fan"@),
{
    let lower = to_lowercase(mode_str);
    mode_of_keyword(&lower, mode_str)
}

/// The fan speed that a lowercase name selects (several names for the lowest,
/// medium and highest speeds).
pub open spec fn fan_speed_keyword(k: Seq<char>) -> Option<FanSpeed> {
    if k == "auto"@ {
        Some(FanSpeed::Auto)
    } else if k == "min"@ || k == "lowest"@ {
        Some(FanSpeed::Min)
    } else if k == "low"@ {
        Some(FanSpeed::Low)
    } else if k == "med"@ || k == "medium"@ {
        Some(FanSpeed::Medium)
    } else if k == "high"@ {
        Some(FanSpeed::High)
    } else if k == "max"@ || k == "highest"@ {
        Some(FanSpeed::Max)
    } else {
        None
    }
}

/// The fan speed for an already lowercased name `lower`; the error names the
/// name as it was given, `fan_str`.
pub fn fan_speed_of_keyword(lower: &String, fan_str: &str) -> (r: Result<FanSpeed>)
    ensures
        fan_speed_keyword(lower@) matches Some(f) ==> r == Ok::<FanSpeed, Error>(f),
        fan_speed_keyword(lower@) is None ==> (r matches Err(Error::InvalidValue(msg)) && msg@
            == "Invalid fan speed: "@ + fan_str@ + ". Valid speeds are: auto, min, low, med, high, max"@),
{
    if is_keyword(lower, "auto") {
        Ok(FanSpeed::Auto)
    } else if is_keyword(lower, "min") || is_keyword(lower, "lowest") {
        Ok(FanSpeed::Min)
    } else if is_keyword(lower, "low") {
        Ok(FanSpeed::Low)
    } else if is_keyword(lower, "med") || is_keyword(lower, "medium") {
        Ok(FanSpeed::Medium)
    } else if is_keyword(lower, "high") {
        Ok(FanSpeed::High)
    } else if is_keyword(lower, "max") || is_keyword(lower, "highest") {
        Ok(FanSpeed::Max)
    } else {
        let mut msg = String::from_str("Invalid fan speed: ");
        msg.append(fan_str);
        msg.append(". Valid speeds are: auto, min, low, med, high, max");
        Err(Error::InvalidValue(msg))
    }
}

/// Parse fan speed from string (case-insensitive)
pub fn parse_fan_speed(fan_str: &str) -> (r: Result<FanSpeed>)
    ensures
        fan_speed_keyword(text_lowercase(fan_str@)) matches Some(f) ==> r == Ok::<FanSpeed, Error>(f),
        fan_speed_keyword(text_lowercase(fan_str@)) is None ==> (r matches Err(Error::InvalidValue(msg))
            && msg@ == "Invalid fan speed: "@ + fan_str@
            + ". Valid speeds are: auto, min, low, med, high, max"@),
{
    let lower = to_lowercase(fan_str);
    fan_speed_of_keyword(&lower, fan_str)
}

/// The vertical swing that a lowercase name selects.
pub open spec fn swing_v_keyword(k: Seq<char>) -> Option<SwingV> {
    if k == "auto"@ {
        Some(SwingV::Auto)
    } else if k == "highest"@ {
        Some(SwingV::Highest)
    } else if k == "high"@ {
        Some(SwingV::High)
    } else if k == "middle"@ {
        Some(SwingV::Middle)
    } else if k == "low"@ {
        Some(SwingV::Low)
    } else if k == "lowest"@ {
        Some(SwingV::Lowest)
    } else {
        None
    }
}

/// The vertical swing for an already lowercased name `lower`; the error names
/// the name as it was given, `swing_str`.
pub fn swing_v_of_keyword(lower: &String, swing_str: &str) -> (r: Result<SwingV>)
    ensures
        swing_v_keyword(lower@) matches Some(s) ==> r == Ok::<SwingV, Error>(s),
        swing_v_keyword(lower@) is None ==> (r matches Err(Error::InvalidValue(msg)) && msg@
            == "Invalid vertical swing: "@ + swing_str@
            + ". Valid values are: auto, highest, high, middle, low, lowest"@),
{
    if is_keyword(lower, "auto") {
        Ok(SwingV::Auto)
    } else if is_keyword(lower, "highest") {
        Ok(SwingV::Highest)
    } else if is_keyword(lower, "high") {
        Ok(SwingV::High)
    } else if is_keyword(lower, "middle") {
        Ok(SwingV::Middle)
    } else if is_keyword(lower, "low") {
        Ok(SwingV::Low)
    } else if is_keyword(lower, "lowest") {
        Ok(SwingV::Lowest)
    } else {
        let mut msg = String::from_str("Invalid vertical swing: ");
        msg.append(swing_str);
        msg.append(". Valid values are: auto, highest, high, middle, low, lowest");
        Err(Error::InvalidValue(msg))
    }
}

/// Parse vertical swing from string (case-insensitive)
pub fn parse_swing_v(swing_str: &str) -> (r: Result<SwingV>)
    ensures
        swing_v_keyword(text_lowercase(swing_str@)) matches Some(s) ==> r == Ok::<SwingV, Error>(s),
        swing_v_keyword(text_lowercase(swing_str@)) is None ==> (r matches Err(Error::InvalidValue(msg))
            && msg@ == "Invalid vertical swing: "@ + swing_str@
            + ". Valid values are: auto, highest, high, middle, low, lowest"@),
{
    let lower = to_lowercase(swing_str);
    swing_v_of_keyword(&lower, swing_str)
}

/// The horizontal swing that a lowercase name selects (`left_mid` selects the
/// middle and `right_mid` the right position).
pub open spec fn swing_h_keyword(k: Seq<char>) -> Option<SwingH> {
    if k == "auto"@ {
        Some(SwingH::Auto)
    } else if k == "left"@ {
        Some(SwingH::Left)
    } else if k == "left_mid"@ || k == "middle"@ {
        Some(SwingH::Middle)
    } else if k == "right_mid"@ || k == "right"@ {
        Some(SwingH::Right)
    } else {
        None
    }
}

/// The horizontal swing for an already lowercased name `lower`; the error
/// names the name as it was given, `swing_str`.
pub fn swing_h_of_keyword(lower: &String, swing_str: &str) -> (r: Result<SwingH>)
    ensures
        swing_h_keyword(lower@) matches Some(s) ==> r == Ok::<SwingH, Error>(s),
        swing_h_keyword(lower@) is None ==> (r matches Err(Error::InvalidValue(msg)) && msg@
            == "Invalid horizontal swing: "@ + swing_str@
            + ". Valid values are: auto, left, left_mid, middle, right_mid, right"@),
{
    if is_keyword(lower, "auto") {
        Ok(SwingH::Auto)
    } else if is_keyword(lower, "left") {
        Ok(SwingH::Left)
    } else if is_keyword(lower, "left_mid") {
        // Using Middle as replacement
        Ok(SwingH::Middle)
    } else if is_keyword(lower, "middle") {
        Ok(SwingH::Middle)
    } else if is_keyword(lower, "right_mid") {
        // Using Right as replacement
        Ok(SwingH::Right)
    } else if is_keyword(lower, "right") {
        Ok(SwingH::Right)
    } else {
        let mut msg = String::from_str("Invalid horizontal swing: ");
        msg.append(swing_str);
        msg.append(". Valid values are: auto, left, left_mid, middle, right_mid, right");
        Err(Error::InvalidValue(msg))
    }
}

/// Parse horizontal swing from string (case-insensitive)
pub fn parse_swing_h(swing_str: &str) -> (r: Result<SwingH>)
    ensures
        swing_h_keyword(text_lowercase(swing_str@)) matches Some(s) ==> r == Ok::<SwingH, Error>(s),
        swing_h_keyword(text_lowercase(swing_str@)) is None ==> (r matches Err(Error::InvalidValue(msg))
            && msg@ == "Invalid horizontal swing: "@ + swing_str@
            + ". Valid values are: auto, left, left_mid, middle, right_mid, right"@),
{
    let lower = to_lowercase(swing_str);
    swing_h_of_keyword(&lower, swing_str)
}

/// The uppercase hex digit for `d` (`0 <= d < 16`).
pub open spec fn hex_digit_char(d: u8) -> char {
    if d < 10 {
        (d + 48) as char
    } else {
        (d + 55) as char
    }
}

/// Bytes written as hex: two uppercase digits per byte, high nibble first.
pub open spec fn hex_text(bytes: Seq<u8>) -> Seq<char> {
    Seq::new(
        2 * bytes.len(),
        |i: int|
            if i % 2 == 0 {
                hex_digit_char(bytes[i / 2] / 16)
            } else {
                hex_digit_char(bytes[i / 2] % 16)
            },
    )
}

/// The uppercase hex digit for a nibble.
fn hex_digit(d: u8) -> (c: char)
    requires
        d < 16,
    ensures
        c == hex_digit_char(d),
{
    if d < 10 {
        (d + 48) as char
    } else {
        (d + 55) as char
    }
}

/// Writes bytes as hex, two uppercase digits per byte.
pub fn hex_string(bytes: &[u8]) -> (r: String)
    requires
        2 * bytes@.len() <= usize::MAX,
    ensures
        r@ == hex_text(bytes@),
{
    let mut r = String::new();
    let mut i: usize = 0;
    while i < bytes.len()
        invariant
            i <= bytes@.len(),
            2 * bytes@.len() <= usize::MAX,
            r@ == hex_text(bytes@.take(i as int)),
        decreases bytes@.len() - i,
    {
        let b = bytes[i];
        push_char(&mut r, hex_digit(b / 16));
        push_char(&mut r, hex_digit(b % 16));
        proof {
            let t = bytes@.take(i as int + 1);
            assert(t.take(i as int) =~= bytes@.take(i as int));
            assert forall|k: int| 0 <= k < 2 * i implies #[trigger] hex_text(t)[k] == hex_text(
                bytes@.take(i as int),
            )[k] by {
                assert(k / 2 < i);
            }
            assert(r@ =~= hex_text(t));
        }
        i = i + 1;
    }
    assert(bytes@.take(bytes@.len() as int) =~= bytes@);
    r
}

/// What a preset file holds for a device: the model's name on the first line,
/// then the bytes that the device sends, written as hex.
pub open spec fn preset_text(model: PanasonicAcModel, frame: Seq<u8>) -> Seq<char> {
    model.label() + seq!['\n'] + hex_text(sent_frame(frame))
}

/// The text of a preset file for the device's current state.
pub fn preset_contents<F: Fn(&[u8], u32, u16) -> Result<()>>(ac: &PanasonicAc<F>) -> (r: String)
    ensures
        r@ == preset_text(ac@.model, ac@.frame),
{
    let raw_state = ac.get_raw();
    proof {
        crate::device::lemma_device_frame_len(*ac);
    }
    let mut r = ac.get_model().to_string();
    push_char(&mut r, '\n');
    let hex = hex_string(raw_state.as_slice());
    r.append(hex.as_str());
    r
}

/// The value of a hex digit character (`0-9`, `a-f`, `A-F`), if it is one.
pub open spec fn hex_digit_value(c: char) -> Option<nat> {
    if '0' <= c <= '9' {
        Some(((c as u32) - 48) as nat)
    } else if 'a' <= c <= 'f' {
        Some(((c as u32) - 87) as nat)
    } else if 'A' <= c <= 'F' {
        Some(((c as u32) - 55) as nat)
    } else {
        None
    }
}

/// The value of a sequence of hex digits, most significant first.
pub open spec fn hex_digits_value(d: Seq<char>) -> nat
    decreases d.len(),
{
    if d.len() == 0 {
        0
    } else {
        hex_digits_value(d.drop_last()) * 16 + match hex_digit_value(d.last()) {
            Some(v) => v,
            None => 0,
        }
    }
}

/// The byte that `s` denotes in hex, if it denotes one: an optional `+`, then
/// one or more hex digits whose value fits in a byte.
pub open spec fn hex_parsed(s: Seq<char>) -> Option<u8> {
    let d = if s.len() > 0 && s[0] == '+' {
        s.drop_first()
    } else {
        s
    };
    if d.len() > 0 && (forall|i: int| 0 <= i < d.len() ==> #[trigger] hex_digit_value(d[i]) is Some)
        && hex_digits_value(d) <= 255 {
        Some(hex_digits_value(d) as u8)
    } else {
        None
    }
}

/// Parses a byte written in hex with `u8::from_str_radix(s, 16)`. Its
/// documentation states the accepted form: an optional `+` followed by only
/// hex digits (either case), at least one, whose value fits in a `u8`;
/// anything else is an error.
#[verifier::external_body]
fn parse_hex_u8(s: &str) -> (r: Option<u8>)
    ensures
        r == hex_parsed(s@),
{
    u8::from_str_radix(s, 16).ok()
}

/// The byte that the two bytes of a hex string from byte `i` stand for, if
/// any: what `u8::from_str_radix` reads from that piece of the string.
pub open spec fn hex_chunk(b: Seq<u8>, i: int) -> Option<u8> {
    hex_parsed(decode_utf8(b.subrange(i, i + 2)))
}

/// Whether every two-byte piece of `b` that starts before byte `i` stands for
/// a byte.
pub open spec fn hex_chunks_valid_before(b: Seq<u8>, i: int) -> bool {
    forall|j: int| 0 <= j < i && j % 2 == 0 ==> #[trigger] hex_chunk(b, j) is Some
}

/// Where the whole two-byte pieces of `b` end: its length, rounded down to even.
pub open spec fn hex_pieces_end(b: Seq<u8>) -> int {
    2 * (b.len() as int / 2)
}

/// Whether every two-byte piece that `parse_hex_string` reads from `b` (every
/// piece up to the first one that stands for no byte) starts and ends on a
/// character boundary; cutting the string elsewhere would panic.
pub open spec fn hex_pieces_on_boundaries(b: Seq<u8>) -> bool {
    forall|i: int|
        0 <= i && i % 2 == 0 && i + 2 <= b.len() && #[trigger] hex_chunks_valid_before(b, i)
            ==> is_char_boundary(b, i) && is_char_boundary(b, i + 2)
}

/// In an ASCII string every byte starts a character, so `parse_hex_string`
/// can cut every piece it reads.
pub proof fn lemma_ascii_hex_pieces(s: Seq<char>)
    requires
        vstd::utf8::is_ascii_chars(s),
    ensures
        hex_pieces_on_boundaries(encode_utf8(s)),
{
    let b = encode_utf8(s);
    vstd::utf8::is_ascii_chars_encode_utf8(s);
    vstd::utf8::encode_utf8_valid_utf8(s);
    vstd::utf8::is_char_boundary_start_end_of_seq(b);
    assert forall|i: int| 0 <= i <= b.len() implies #[trigger] is_char_boundary(b, i) by {
        if i < b.len() {
            vstd::utf8::is_char_boundary_iff_not_is_continuation_byte(b, i);
            assert(b[i] == s[i] as u8);
        }
    }
}

/// Parse hex string to u8 vector: each two bytes of the string stand for one
/// byte (a last odd byte is ignored)
pub fn parse_hex_string(s: &str) -> (r: Result<Vec<u8>>)
    requires
        hex_pieces_on_boundaries(s.spec_bytes()),
    ensures
        hex_chunks_valid_before(s.spec_bytes(), hex_pieces_end(s.spec_bytes())) ==> (r matches Ok(v)
            && v@.len() == s.spec_bytes().len() / 2 && forall|k: int|
            0 <= k < v@.len() ==> hex_chunk(s.spec_bytes(), 2 * k) == Some(#[trigger] v@[k])),
        !hex_chunks_valid_before(s.spec_bytes(), hex_pieces_end(s.spec_bytes())) ==> (r matches Err(
            Error::InvalidData(msg),
        ) && msg@ == "Invalid hex string: "@ + s@),
{
    let ghost b = s.spec_bytes();
    let bytes = s.as_bytes();
    let n: usize = bytes.len();
    let mut result: Vec<u8> = Vec::new();
    let mut i: usize = 0;
    proof {
        broadcast use vstd::utf8::encode_utf8_valid_utf8;
    }
    while i < n && n - i >= 2
        invariant
            b == s.spec_bytes(),
            b.len() == n,
            hex_pieces_on_boundaries(b),
            i % 2 == 0,
            i <= n,
            hex_chunks_valid_before(b, i as int),
            result@.len() == i / 2,
            forall|k: int| 0 <= k < result@.len() ==> hex_chunk(b, 2 * k) == Some(#[trigger] result@[k]),
        decreases n - i,
    {
        proof {
            assert(is_char_boundary(b, i as int) && is_char_boundary(b, i + 2));
            vstd::utf8::encode_utf8_valid_utf8(s@);
        }
        let (_, rest) = s.split_at(i);
        proof {
            let rb = rest.spec_bytes();
            assert(rb =~= b.subrange(i as int, n as int));
            vstd::utf8::valid_utf8_split(b, i as int);
            if i + 2 < n {
                vstd::utf8::is_char_boundary_iff_not_is_continuation_byte(b, i + 2);
                vstd::utf8::is_char_boundary_iff_not_is_continuation_byte(rb, 2);
                assert(rb[2] == b[i + 2]);
            } else {
                vstd::utf8::is_char_boundary_start_end_of_seq(rb);
            }
        }
        let (chunk, _) = rest.split_at(2);
        proof {
            assert(chunk.spec_bytes() =~= b.subrange(i as int, i + 2));
            vstd::utf8::encode_utf8_decode_utf8(chunk@);
        }
        match parse_hex_u8(chunk) {
            Some(byte) => result.push(byte),
            None => {
                let mut msg = String::from_str("Invalid hex string: ");
                msg.append(s);
                proof {
                    assert(hex_chunk(b, i as int) is None);
                    assert(i < hex_pieces_end(b));
                }
                return Err(Error::InvalidData(msg));
            },
        }
        proof {
            assert(hex_chunk(b, i as int) == Some(result@[(i / 2) as int]));
            assert forall|j: int| 0 <= j < i + 2 && j % 2 == 0 implies #[trigger] hex_chunk(b, j) is Some by {
                if j < i {
                    assert(hex_chunks_valid_before(b, i as int));
                }
            }
        }
        i = i + 2;
    }
    Ok(result)
}

/// Whether `k` is the position of the first `'\n'` in `s`.
pub open spec fn is_first_newline(s: Seq<char>, k: int) -> bool {
    &&& 0 <= k < s.len()
    &&& s[k] == '\n'
    &&& forall|j: int| 0 <= j < k ==> #[trigger] s[j] != '\n'
}

/// The position of the first `'\n'` in `s`, if there is one.
pub open spec fn first_newline(s: Seq<char>) -> Option<int> {
    if exists|k: int| is_first_newline(s, k) {
        Some(choose|k: int| is_first_newline(s, k))
    } else {
        None
    }
}

/// A line without the `'\r'` of a `"\r\n"` line ending.
pub open spec fn strip_cr(t: Seq<char>) -> Seq<char> {
    if t.len() > 0 && t.last() == '\r' {
        t.drop_last()
    } else {
        t
    }
}

/// The first two lines of a text, as `str::lines` gives them (split at `"\n"`
/// or `"\r\n"`, the last line ending being optional), when it has two.
pub open spec fn two_lines(s: Seq<char>) -> Option<(Seq<char>, Seq<char>)> {
    match first_newline(s) {
        None => None,
        Some(k) => {
            let rest = s.skip(k + 1);
            if rest.len() == 0 {
                None
            } else {
                let second = match first_newline(rest) {
                    Some(k2) => strip_cr(rest.take(k2)),
                    None => rest,
                };
                Some((strip_cr(s.take(k)), second))
            }
        },
    }
}

/// The position of the first `'\n'` in `s` at or after `from`, or the length
/// of `s` when there is none.
fn find_newline(s: &str, from: usize) -> (r: usize)
    requires
        from <= s@.len(),
    ensures
        from <= r <= s@.len(),
        r < s@.len() ==> s@[r as int] == '\n',
        forall|j: int| from <= j < r ==> #[trigger] s@[j] != '\n',
{
    let n = s.unicode_len();
    let mut i = from;
    while i < n
        invariant
            n == s@.len(),
            from <= i <= n,
            forall|j: int| from <= j < i ==> #[trigger] s@[j] != '\n',
        decreases n - i,
    {
        if s.get_char(i) == '\n' {
            return i;
        }
        i = i + 1;
    }
    i
}

/// The part of `s` from `from` to `to`, without a `'\r'` that ends it when
/// the line ends with `"\r\n"` (`terminated`).
fn line_between<'a>(s: &'a str, from: usize, to: usize, terminated: bool) -> (r: &'a str)
    requires
        from <= to <= s@.len(),
    ensures
        terminated ==> r@ == strip_cr(s@.subrange(from as int, to as int)),
        !terminated ==> r@ == s@.subrange(from as int, to as int),
{
    if terminated && to > from && s.get_char(to - 1) == '\r' {
        s.substring_char(from, to - 1)
    } else {
        s.substring_char(from, to)
    }
}

/// The first two lines of a text, when it has two.
pub fn preset_lines<'a>(content: &'a str) -> (r: Option<(&'a str, &'a str)>)
    ensures
        two_lines(content@) is None ==> r is None,
        two_lines(content@) matches Some((l0, l1)) ==> (r matches Some((a, b)) && a@ == l0 && b@
            == l1),
{
    let n = content.unicode_len();
    let k = find_newline(content, 0);
    proof {
        if k < n {
            assert(is_first_newline(content@, k as int));
            let q = choose|q: int| is_first_newline(content@, q);
            assert(q == k) by {
                if q < k {
                    assert(content@[q] != '\n');
                } else if k < q {
                    assert(content@[k as int] != '\n');
                }
            }
        } else {
            assert forall|q: int| !is_first_newline(content@, q) by {
                if is_first_newline(content@, q) {
                    assert(content@[q] != '\n');
                }
            }
        }
    }
    if k == n || k + 1 == n {
        proof {
            if k < n {
                assert(content@.skip(k + 1).len() == 0);
            }
        }
        return None;
    }
    let first = line_between(content, 0, k, true);
    let k2 = find_newline(content, k + 1);
    let ghost rest = content@.skip(k + 1);
    proof {
        assert(content@.subrange(0, k as int) =~= content@.take(k as int));
        if k2 < n {
            let m = (k2 - k - 1) as int;
            assert(is_first_newline(rest, m)) by {
                assert forall|j: int| 0 <= j < m implies #[trigger] rest[j] != '\n' by {
                    assert(rest[j] == content@[k + 1 + j]);
                }
            }
            let q = choose|q: int| is_first_newline(rest, q);
            assert(q == m) by {
                if q < m {
                    assert(rest[q] == content@[k + 1 + q]);
                } else if m < q {
                    assert(rest[m] != '\n');
                }
            }
            assert(content@.subrange(k + 1, k2 as int) =~= rest.take(m));
        } else {
            assert forall|q: int| !is_first_newline(rest, q) by {
                if is_first_newline(rest, q) {
                    assert(rest[q] == content@[k + 1 + q]);
                }
            }
            assert(content@.subrange(k + 1, k2 as int) =~= rest);
        }
    }
    let second = line_between(content, k + 1, k2, k2 < n);
    Some((first, second))
}

/// The bytes that a hex string stands for, when every two-byte piece of it
/// stands for a byte.
pub open spec fn hex_decoded(b: Seq<u8>) -> Option<Seq<u8>> {
    if hex_chunks_valid_before(b, hex_pieces_end(b)) {
        Some(Seq::new((b.len() / 2) as nat, |k: int| hex_chunk(b, 2 * k)->0))
    } else {
        None
    }
}

/// Whether raw state data is accepted: 27 bytes with a valid checksum.
pub open spec fn raw_accepted(data: Seq<u8>) -> bool {
    data.len() == PANASONIC_AC_STATE_LENGTH && checksum_valid(data, PANASONIC_AC_STATE_LENGTH as int)
}

/// Whether `r` and the device state `after` are what loading preset text
/// `content` into a device in state `before` gives: the model named on the
/// first line is set, then the state written in hex on the second line.
pub open spec fn preset_loaded(
    content: Seq<char>,
    before: AcStateView,
    after: AcStateView,
    r: Result<()>,
) -> bool {
    match two_lines(content) {
        None => after == before && (r matches Err(Error::InvalidData(msg)) && msg@
            == "Invalid preset file format"@),
        Some((l0, l1)) => match model_keyword(text_lowercase(l0)) {
            None => after == before && (r matches Err(Error::InvalidValue(msg)) && msg@
                == "Invalid AC model: "@ + l0 + ". Valid models are: dke, jke, lke, nke, ckp, rkr"@),
            Some(m) => {
                let set = AcStateView { frame: model_frame(before.frame, m), model: m };
                match hex_decoded(encode_utf8(l1)) {
                    None => after == set && (r matches Err(Error::InvalidData(msg)) && msg@
                        == "Invalid hex string: "@ + l1),
                    Some(data) => if data.len() != PANASONIC_AC_STATE_LENGTH {
                        after == set && (r matches Err(Error::InvalidData(msg)) && msg@
                            == "Expected "@ + decimal(PANASONIC_AC_STATE_LENGTH as nat)
                            + " bytes, got "@ + decimal(data.len()))
                    } else if !raw_accepted(data) {
                        after == set && r matches Err(Error::InvalidChecksum)
                    } else {
                        r is Ok && after == AcStateView {
                            frame: received_frame(data),
                            model: detect_model_of(data),
                        }
                    },
                }
            },
        },
    }
}

/// Loads preset text into a device: the model named on the first line, then
/// the raw state written in hex on the second line.
pub fn load_preset_contents<F: Fn(&[u8], u32, u16) -> Result<()>>(
    ac: &mut PanasonicAc<F>,
    content: &str,
) -> (r: Result<()>)
    requires
        two_lines(content@) matches Some((l0, l1)) ==> hex_pieces_on_boundaries(encode_utf8(l1)),
    ensures
        preset_loaded(content@, old(ac)@, final(ac)@, r),
        final(ac).sender() == old(ac).sender(),
{
    let (first, second) = match preset_lines(content) {
        Some(lines) => lines,
        None => {
            return Err(Error::InvalidData(String::from_str("Invalid preset file format")));
        },
    };

    // First line is the model
    let model = match parse_model(first) {
        Ok(m) => m,
        Err(e) => {
            return Err(e);
        },
    };
    let _ = ac.set_model(model);

    // Second line is the raw state
    let raw_state = match parse_hex_string(second) {
        Ok(v) => v,
        Err(e) => {
            return Err(e);
        },
    };
    proof {
        let b = second.spec_bytes();
        assert(raw_state@ =~= hex_decoded(b)->0);
    }

    // Set the raw state
    ac.set_raw(raw_state.as_slice())
}

/// A byte written as two hex digits reads back as that byte.
proof fn lemma_hex_pair(x: u8)
    ensures
        hex_parsed(seq![hex_digit_char(x / 16), hex_digit_char(x % 16)]) == Some(x),
{
    let s = seq![hex_digit_char(x / 16), hex_digit_char(x % 16)];
    let hi = x / 16;
    let lo = x % 16;
    assert(hex_digit_value(hex_digit_char(hi)) == Some(hi as nat));
    assert(hex_digit_value(hex_digit_char(lo)) == Some(lo as nat));
    assert(s[0] != '+');
    assert(s.drop_last() =~= seq![hex_digit_char(hi)]);
    assert(s.drop_last().drop_last() =~= Seq::<char>::empty());
    reveal_with_fuel(hex_digits_value, 3);
    assert(hex_digits_value(s.drop_last()) == hi as nat);
    assert(hex_digits_value(s) == hi as nat * 16 + lo as nat);
}

/// Hex text, encoded as UTF-8, decodes back to the bytes it was written for.
proof fn lemma_hex_text_decodes(bytes: Seq<u8>)
    ensures
        hex_decoded(encode_utf8(hex_text(bytes))) == Some(bytes),
{
    let t = hex_text(bytes);
    assert(vstd::utf8::is_ascii_chars(t)) by {
        assert forall|i: int| 0 <= i < t.len() implies '\0' <= #[trigger] t[i] <= '\u{7f}' by {
            let x = bytes[i / 2];
            let d = if i % 2 == 0 {
                x / 16
            } else {
                x % 16
            };
            assert(t[i] == hex_digit_char(d));
        }
    }
    vstd::utf8::is_ascii_chars_encode_utf8(t);
    let b = encode_utf8(t);
    assert forall|k: int| 0 <= k < bytes.len() implies #[trigger] hex_chunk(b, 2 * k) == Some(
        bytes[k],
    ) by {
        let pair = seq![t[2 * k], t[2 * k + 1]];
        assert(vstd::utf8::is_ascii_chars(pair)) by {
            assert forall|i: int| 0 <= i < pair.len() implies '\0' <= #[trigger] pair[i]
                <= '\u{7f}' by {
                assert(pair[i] == t[2 * k + i]);
            }
        }
        vstd::utf8::is_ascii_chars_encode_utf8(pair);
        assert(b.subrange(2 * k, 2 * k + 2) =~= encode_utf8(pair)) by {
            assert(b[2 * k] == t[2 * k] as u8);
            assert(b[2 * k + 1] == t[2 * k + 1] as u8);
        }
        vstd::utf8::encode_utf8_decode_utf8(pair);
        assert((2 * k) / 2 == k && (2 * k + 1) / 2 == k);
        assert(pair =~= seq![hex_digit_char(bytes[k] / 16), hex_digit_char(bytes[k] % 16)]);
        lemma_hex_pair(bytes[k]);
    }
    assert(hex_pieces_end(b) == 2 * bytes.len());
    assert forall|j: int| 0 <= j < hex_pieces_end(b) && j % 2 == 0 implies #[trigger] hex_chunk(
        b,
        j,
    ) is Some by {
        assert(j == 2 * (j / 2));
        assert(hex_chunk(b, 2 * (j / 2)) == Some(bytes[j / 2]));
    }
    assert(hex_decoded(b)->0 =~= bytes);
}

/// The first two lines of preset text are the model's name and the hex text.
proof fn lemma_preset_lines(model: PanasonicAcModel, frame: Seq<u8>)
    requires
        frame.len() == PANASONIC_AC_STATE_LENGTH,
    ensures
        two_lines(preset_text(model, frame)) == Some((model.label(), hex_text(sent_frame(frame)))),
{
    reveal_strlit("DKE");
    reveal_strlit("JKE");
    reveal_strlit("LKE");
    reveal_strlit("NKE");
    reveal_strlit("CKP");
    reveal_strlit("RKR");
    reveal_strlit("Unknown");
    let label = model.label();
    let hex = hex_text(sent_frame(frame));
    let text = preset_text(model, frame);
    let n = label.len() as int;
    assert(forall|j: int| 0 <= j < n ==> #[trigger] label[j] != '\n');
    assert(is_first_newline(text, n)) by {
        assert forall|j: int| 0 <= j < n implies #[trigger] text[j] != '\n' by {
            assert(text[j] == label[j]);
        }
    }
    let q = choose|q: int| is_first_newline(text, q);
    assert(q == n) by {
        if q < n {
            assert(text[q] == label[q]);
        } else if n < q {
            assert(text[n] != '\n');
        }
    }
    assert(first_newline(text) == Some(n));
    assert(text.skip(n + 1) =~= hex);
    assert(text.take(n) =~= label);
    assert(strip_cr(label) == label);
    assert forall|k: int| !is_first_newline(hex, k) by {
        if 0 <= k < hex.len() {
            let x = sent_frame(frame)[k / 2];
            let d = if k % 2 == 0 {
                x / 16
            } else {
                x % 16
            };
            assert(hex[k] == hex_digit_char(d));
        }
    }
    assert(first_newline(hex) is None);
    assert(hex.len() > 0);
}

/// The lowercase name of every known model selects that model.
proof fn lemma_model_names(model: PanasonicAcModel)
    ensures
        model != PanasonicAcModel::Unknown ==> model_keyword(text_lowercase(model.label())) == Some(
            model,
        ),
        model == PanasonicAcModel::Unknown ==> model_keyword(text_lowercase(model.label())) is None,
{
    reveal_strlit("DKE");
    reveal_strlit("JKE");
    reveal_strlit("LKE");
    reveal_strlit("NKE");
    reveal_strlit("CKP");
    reveal_strlit("RKR");
    reveal_strlit("Unknown");
    reveal_strlit("dke");
    reveal_strlit("jke");
    reveal_strlit("lke");
    reveal_strlit("nke");
    reveal_strlit("ckp");
    reveal_strlit("rkr");
    let label = model.label();
    assert(vstd::utf8::is_ascii_chars(label));
    let lower = text_lowercase(label);
    match model {
        PanasonicAcModel::Dke => {
            assert(lower =~= "dke"@);
            assert(model_keyword(lower) == Some(model));
        },
        PanasonicAcModel::Jke => {
            assert(lower =~= "jke"@);
            assert(lower[0] != "dke"@[0]);
            assert(model_keyword(lower) == Some(model));
        },
        PanasonicAcModel::Lke => {
            assert(lower =~= "lke"@);
            assert(lower[0] != "dke"@[0]);
            assert(lower[0] != "jke"@[0]);
            assert(model_keyword(lower) == Some(model));
        },
        PanasonicAcModel::Nke => {
            assert(lower =~= "nke"@);
            assert(lower[0] != "dke"@[0]);
            assert(lower[0] != "jke"@[0]);
            assert(lower[0] != "lke"@[0]);
            assert(model_keyword(lower) == Some(model));
        },
        PanasonicAcModel::Ckp => {
            assert(lower =~= "ckp"@);
            assert(lower[0] != "dke"@[0]);
            assert(lower[0] != "jke"@[0]);
            assert(lower[0] != "lke"@[0]);
            assert(lower[0] != "nke"@[0]);
            assert(model_keyword(lower) == Some(model));
        },
        PanasonicAcModel::Rkr => {
            assert(lower =~= "rkr"@);
            assert(lower[0] != "dke"@[0]);
            assert(lower[0] != "jke"@[0]);
            assert(lower[0] != "lke"@[0]);
            assert(lower[0] != "nke"@[0]);
            assert(lower[0] != "ckp"@[0]);
            assert(model_keyword(lower) == Some(model));
        },
        PanasonicAcModel::Unknown => {
            assert(lower =~= "unknown"@) by {
                reveal_strlit("unknown");
            }
            reveal_strlit("unknown");
            assert(lower.len() == 7);
        },
    }
}

/// Preset round trip: the preset text saved for a device of a known model
/// loads into any device without error; the loading device takes the saved
/// bytes (and the model they reveal), so it reports the same power, mode,
/// temperature, fan speed and vertical swing as the saved device. A preset
/// saved for the unknown model names no model that loading accepts.
pub proof fn law_preset_roundtrip(
    saved: AcStateView,
    before: AcStateView,
    after: AcStateView,
    r: Result<()>,
)
    requires
        saved.frame.len() == PANASONIC_AC_STATE_LENGTH,
        preset_loaded(preset_text(saved.model, saved.frame), before, after, r),
    ensures
        saved.model == PanasonicAcModel::Unknown ==> (r matches Err(Error::InvalidValue(_))
            && after == before),
        saved.model != PanasonicAcModel::Unknown ==> {
            &&& r is Ok
            &&& after.frame == received_frame(sent_frame(saved.frame))
            &&& after.model == detect_model_of(sent_frame(saved.frame))
            &&& power_of(after.frame) == power_of(saved.frame)
            &&& mode_field(after.frame) == mode_field(saved.frame)
            &&& after.frame[14] == saved.frame[14]
            &&& fan_of(after.frame) == fan_of(saved.frame)
            &&& swing_v_field(after.frame) == swing_v_field(saved.frame)
        },
{
    lemma_preset_lines(saved.model, saved.frame);
    lemma_model_names(saved.model);
    if saved.model != PanasonicAcModel::Unknown {
        let data = sent_frame(saved.frame);
        lemma_hex_text_decodes(data);
        law_raw_state_roundtrip(saved.frame);
        assert(raw_accepted(data));
    }
}

/// Where a command from the command line stops: at a name it cannot read, or
/// at a horizontal swing that the model refuses.
pub enum CommandStop {
    ModeName,
    FanName,
    SwingVName,
    SwingHName,
    SwingHRefused,
}

/// The text of an optional name, as characters.
pub open spec fn name_view(t: Option<String>) -> Option<Seq<char>> {
    match t {
        Some(s) => Some(s@),
        None => None,
    }
}

/// Applying a command's settings to a device with frame `f` and model `m`, in
/// order: power, mode, temperature, fan, vertical swing, horizontal swing,
/// powerful, quiet, each only when given, stopping at the first name that
/// cannot be read or at a refused horizontal swing. Gives the frame reached
/// and where it stopped, if it did.
pub open spec fn command_applied(
    f: Seq<u8>,
    m: PanasonicAcModel,
    power: Option<bool>,
    mode: Option<Seq<char>>,
    temp: Option<u8>,
    fan: Option<Seq<char>>,
    swing_v: Option<Seq<char>>,
    swing_h: Option<Seq<char>>,
    powerful: Option<bool>,
    quiet: Option<bool>,
) -> (Seq<u8>, Option<CommandStop>) {
    let f1 = match power {
        Some(p) => with_power(f, p),
        None => f,
    };
    if mode is Some && mode_keyword(text_lowercase(mode->0)) is None {
        (f1, Some(CommandStop::ModeName))
    } else {
        let f2 = match mode {
            Some(t) => with_mode(f1, mode_keyword(text_lowercase(t))->0),
            None => f1,
        };
        let f3 = match temp {
            Some(t) => with_temp(f2, t),
            None => f2,
        };
        if fan is Some && fan_speed_keyword(text_lowercase(fan->0)) is None {
            (f3, Some(CommandStop::FanName))
        } else {
            let f4 = match fan {
                Some(t) => with_fan(f3, fan_speed_keyword(text_lowercase(t))->0),
                None => f3,
            };
            if swing_v is Some && swing_v_keyword(text_lowercase(swing_v->0)) is None {
                (f4, Some(CommandStop::SwingVName))
            } else {
                let f5 = match swing_v {
                    Some(t) => with_swing_v(f4, swing_v_keyword(text_lowercase(t))->0),
                    None => f4,
                };
                if swing_h is Some && swing_h_keyword(text_lowercase(swing_h->0)) is None {
                    (f5, Some(CommandStop::SwingHName))
                } else if swing_h is Some && with_swing_h(
                    f5,
                    m,
                    swing_h_keyword(text_lowercase(swing_h->0))->0,
                ) is None {
                    (f5, Some(CommandStop::SwingHRefused))
                } else {
                    let f6 = match swing_h {
                        Some(t) => with_swing_h(f5, m, swing_h_keyword(text_lowercase(t))->0)->0,
                        None => f5,
                    };
                    let f7 = match powerful {
                        Some(p) => with_powerful(f6, m, p),
                        None => f6,
                    };
                    let f8 = match quiet {
                        Some(q) => with_quiet(f7, m, q),
                        None => f7,
                    };
                    (f8, None)
                }
            }
        }
    }
}

/// Applies a command's settings to the AC in order; a name that cannot be
/// read or a refused setting stops it with its error.
pub fn apply_command<F: Fn(&[u8], u32, u16) -> Result<()>>(
    ac: &mut PanasonicAc<F>,
    power: Option<bool>,
    mode: &Option<String>,
    temp: Option<u8>,
    fan: &Option<String>,
    swing_v: &Option<String>,
    swing_h: &Option<String>,
    powerful: Option<bool>,
    quiet: Option<bool>,
) -> (r: Result<()>)
    ensures
        ({
            let (frame, stop) = command_applied(
                old(ac)@.frame,
                old(ac)@.model,
                power,
                name_view(*mode),
                temp,
                name_view(*fan),
                name_view(*swing_v),
                name_view(*swing_h),
                powerful,
                quiet,
            );
            &&& final(ac)@.frame == frame
            &&& final(ac)@.model == old(ac)@.model
            &&& final(ac).sender() == old(ac).sender()
            &&& stop matches Some(CommandStop::ModeName) ==> (r matches Err(Error::InvalidValue(msg))
                && msg@ == "Invalid mode: "@ + mode->0@
                + ". Valid modes are: auto, cool, heat, dry, fan"@)
            &&& stop matches Some(CommandStop::FanName) ==> (r matches Err(Error::InvalidValue(msg))
                && msg@ == "Invalid fan speed: "@ + fan->0@
                + ". Valid speeds are: auto, min, low, med, high, max"@)
            &&& stop matches Some(CommandStop::SwingVName) ==> (r matches Err(
                Error::InvalidValue(msg),
            ) && msg@ == "Invalid vertical swing: "@ + swing_v->0@
                + ". Valid values are: auto, highest, high, middle, low, lowest"@)
            &&& stop matches Some(CommandStop::SwingHName) ==> (r matches Err(
                Error::InvalidValue(msg),
            ) && msg@ == "Invalid horizontal swing: "@ + swing_h->0@
                + ". Valid values are: auto, left, left_mid, middle, right_mid, right"@)
            &&& stop matches Some(CommandStop::SwingHRefused) ==> (r matches Err(
                Error::UnsupportedFeature { feature, model: Some(name) },
            ) && feature@ == "Horizontal swing"@ && name@ == old(ac)@.model.label())
            &&& stop is None ==> r is Ok
        }),
{
    // Set power
    if let Some(p) = power {
        let _ = ac.set_power(p);
    }

    // Set mode
    if let Some(m) = mode {
        let ac_mode = match parse_mode(m.as_str()) {
            Ok(x) => x,
            Err(e) => {
                return Err(e);
            },
        };
        let _ = ac.set_mode(ac_mode);
    }

    // Set temperature
    if let Some(t) = temp {
        let _ = ac.set_temp(t);
    }

    // Set fan speed
    if let Some(f) = fan {
        let fan_speed = match parse_fan_speed(f.as_str()) {
            Ok(x) => x,
            Err(e) => {
                return Err(e);
            },
        };
        let _ = ac.set_fan(fan_speed);
    }

    // Set vertical swing
    if let Some(s) = swing_v {
        let swing = match parse_swing_v(s.as_str()) {
            Ok(x) => x,
            Err(e) => {
                return Err(e);
            },
        };
        let _ = ac.set_swing_v(swing);
    }

    // Set horizontal swing
    if let Some(s) = swing_h {
        let swing = match parse_swing_h(s.as_str()) {
            Ok(x) => x,
            Err(e) => {
                return Err(e);
            },
        };
        if let Err(e) = ac.set_swing_h(swing) {
            return Err(e);
        }
    }

    // Set powerful mode
    if let Some(p) = powerful {
        let _ = ac.set_powerful(p);
    }

    // Set quiet mode
    if let Some(q) = quiet {
        let _ = ac.set_quiet(q);
    }

    Ok(())
}

/// The power, mode and temperature steps of a command, on parsed values.
spec fn command_head(f: Seq<u8>, power: Option<bool>, md: Option<AcMode>, temp: Option<u8>) -> Seq<
    u8,
> {
    let f1 = match power {
        Some(p) => with_power(f, p),
        None => f,
    };
    let f2 = match md {
        Some(x) => with_mode(f1, x),
        None => f1,
    };
    match temp {
        Some(t) => with_temp(f2, t),
        None => f2,
    }
}

/// The fan and vertical swing steps of a command, on parsed values.
spec fn command_mid(f: Seq<u8>, fs: Option<FanSpeed>, sv: Option<SwingV>) -> Seq<u8> {
    let f4 = match fs {
        Some(x) => with_fan(f, x),
        None => f,
    };
    match sv {
        Some(x) => with_swing_v(f4, x),
        None => f4,
    }
}

/// The horizontal swing, powerful and quiet steps of a command, on parsed
/// values (a horizontal swing the model refuses leaves the frame as it is).
spec fn command_tail(
    f: Seq<u8>,
    m: PanasonicAcModel,
    sh: Option<SwingH>,
    powerful: Option<bool>,
    quiet: Option<bool>,
) -> Seq<u8> {
    let f6 = match sh {
        Some(x) => match with_swing_h(f, m, x) {
            Some(b) => b,
            None => f,
        },
        None => f,
    };
    let f7 = match powerful {
        Some(p) => with_powerful(f6, m, p),
        None => f6,
    };
    match quiet {
        Some(q) => with_quiet(f7, m, q),
        None => f7,
    }
}

proof fn lemma_command_head(f: Seq<u8>, power: Option<bool>, md: Option<AcMode>, temp: Option<u8>)
    requires
        f.len() == PANASONIC_AC_STATE_LENGTH,
    ensures
        command_head(f, power, md, temp).len() == PANASONIC_AC_STATE_LENGTH,
        power matches Some(p) ==> power_of(command_head(f, power, md, temp)) == p,
        md matches Some(x) ==> AcMode::from_code(mode_field(command_head(f, power, md, temp)))
            == Some(x),
        temp matches Some(c) ==> command_head(f, power, md, temp)[14] == clamp_temp(c),
        forall|i: int|
            0 <= i < PANASONIC_AC_STATE_LENGTH && i != 13 && i != 14 ==> #[trigger] command_head(
                f,
                power,
                md,
                temp,
            )[i] == f[i],
{
    let f1 = match power {
        Some(p) => with_power(f, p),
        None => f,
    };
    if let Some(p) = power {
        law_power_roundtrip(f, p);
    }
    if let Some(x) = md {
        law_mode_roundtrip(f1, x);
        crate::device::lemma_field_independence(f1[13], x.code());
    }
}

proof fn lemma_command_mid(f: Seq<u8>, fs: Option<FanSpeed>, sv: Option<SwingV>)
    requires
        f.len() == PANASONIC_AC_STATE_LENGTH,
    ensures
        command_mid(f, fs, sv).len() == PANASONIC_AC_STATE_LENGTH,
        fs matches Some(x) ==> fan_of(command_mid(f, fs, sv)) == Some(x),
        sv matches Some(x) ==> SwingV::from_code(swing_v_field(command_mid(f, fs, sv))) == Some(x),
        forall|i: int|
            0 <= i < PANASONIC_AC_STATE_LENGTH && i != 16 ==> #[trigger] command_mid(f, fs, sv)[i]
                == f[i],
{
    let f4 = match fs {
        Some(x) => with_fan(f, x),
        None => f,
    };
    if let Some(x) = fs {
        law_fan_roundtrip(f, x);
    }
    if let Some(x) = sv {
        law_swing_v_roundtrip(f4, x);
        crate::device::lemma_field_independence(f4[16], x.code());
        assert(fan_field(with_swing_v(f4, x)) == fan_field(f4));
    }
}

proof fn lemma_command_tail(
    f: Seq<u8>,
    m: PanasonicAcModel,
    sh: Option<SwingH>,
    powerful: Option<bool>,
    quiet: Option<bool>,
)
    requires
        f.len() == PANASONIC_AC_STATE_LENGTH,
    ensures
        command_tail(f, m, sh, powerful, quiet).len() == PANASONIC_AC_STATE_LENGTH,
        sh is Some && with_swing_h(f, m, sh->0) is Some ==> swing_h_of(
            command_tail(f, m, sh, powerful, quiet),
            m,
        ) == if supports_swing_h(m) {
            sh->0
        } else {
            SwingH::Middle
        },
        quiet matches Some(q) ==> bit_of(command_tail(f, m, sh, powerful, quiet)[21], quiet_offset(m))
            == q,
        powerful matches Some(p) ==> bit_of(
            command_tail(f, m, sh, powerful, quiet)[21],
            powerful_offset(m),
        ) == (p && quiet != Some(true)),
        forall|i: int|
            0 <= i < PANASONIC_AC_STATE_LENGTH && i != 17 && i != 21 ==> #[trigger] command_tail(
                f,
                m,
                sh,
                powerful,
                quiet,
            )[i] == f[i],
{
    let f6 = match sh {
        Some(x) => match with_swing_h(f, m, x) {
            Some(b) => b,
            None => f,
        },
        None => f,
    };
    if let Some(x) = sh {
        law_swing_h_roundtrip(f, m, x);
    }
    let f7 = match powerful {
        Some(p) => with_powerful(f6, m, p),
        None => f6,
    };
    let q = quiet_offset(m);
    let pw = powerful_offset(m);
    let y = f6[21];
    let y7 = f7[21];
    if let Some(p) = powerful {
        if p {
            crate::device::lemma_mode_bits(y, q, pw, false);
            crate::device::lemma_mode_bits(with_bit(y, q, false), pw, q, true);
        } else {
            crate::device::lemma_mode_bits(y, pw, q, false);
        }
    }
    if let Some(qq) = quiet {
        if qq {
            crate::device::lemma_mode_bits(y7, pw, q, false);
            crate::device::lemma_mode_bits(with_bit(y7, pw, false), q, pw, true);
        } else {
            crate::device::lemma_mode_bits(y7, q, pw, false);
        }
    }
}

/// A command that goes through leaves every setting it names in effect: the
/// device reads back the power, the mode and the (clamped) temperature given,
/// the fan speed and the swings that the names stand for (Middle for the
/// horizontal swing of a model that has only that position), and the quiet and
/// powerful modes given, where quiet mode, which comes last, turns powerful
/// mode off.
pub proof fn law_command_settings_read_back(
    f: Seq<u8>,
    m: PanasonicAcModel,
    power: Option<bool>,
    mode: Option<Seq<char>>,
    temp: Option<u8>,
    fan: Option<Seq<char>>,
    swing_v: Option<Seq<char>>,
    swing_h: Option<Seq<char>>,
    powerful: Option<bool>,
    quiet: Option<bool>,
)
    requires
        f.len() == PANASONIC_AC_STATE_LENGTH,
    ensures
        ({
            let (g, stop) = command_applied(
                f,
                m,
                power,
                mode,
                temp,
                fan,
                swing_v,
                swing_h,
                powerful,
                quiet,
            );
            stop is None ==> {
                &&& power matches Some(p) ==> power_of(g) == p
                &&& mode matches Some(t) ==> AcMode::from_code(mode_field(g)) == mode_keyword(
                    text_lowercase(t),
                )
                &&& temp matches Some(c) ==> g[14] == clamp_temp(c)
                &&& fan matches Some(t) ==> fan_of(g) == fan_speed_keyword(text_lowercase(t))
                &&& swing_v matches Some(t) ==> SwingV::from_code(swing_v_field(g))
                    == swing_v_keyword(text_lowercase(t))
                &&& swing_h matches Some(t) ==> Some(swing_h_of(g, m)) == if supports_swing_h(m) {
                    swing_h_keyword(text_lowercase(t))
                } else {
                    Some(SwingH::Middle)
                }
                &&& quiet matches Some(q) ==> bit_of(g[21], quiet_offset(m)) == q
                &&& powerful matches Some(p) ==> bit_of(g[21], powerful_offset(m)) == (p && quiet
                    != Some(true))
            }
        }),
{
    if command_applied(f, m, power, mode, temp, fan, swing_v, swing_h, powerful, quiet).1 is None {
        let md = match mode {
            Some(t) => Some(mode_keyword(text_lowercase(t))->0),
            None => None,
        };
        let fs = match fan {
            Some(t) => Some(fan_speed_keyword(text_lowercase(t))->0),
            None => None,
        };
        let sv = match swing_v {
            Some(t) => Some(swing_v_keyword(text_lowercase(t))->0),
            None => None,
        };
        let sh = match swing_h {
            Some(t) => Some(swing_h_keyword(text_lowercase(t))->0),
            None => None,
        };
        let h = command_head(f, power, md, temp);
        lemma_command_head(f, power, md, temp);
        let mid = command_mid(h, fs, sv);
        lemma_command_mid(h, fs, sv);
        let g = command_tail(mid, m, sh, powerful, quiet);
        lemma_command_tail(mid, m, sh, powerful, quiet);
        assert(command_applied(f, m, power, mode, temp, fan, swing_v, swing_h, powerful, quiet).0
            == g);
        assert(g[13] == mid[13] && mid[13] == h[13]);
        assert(g[14] == mid[14] && mid[14] == h[14]);
        assert(g[16] == mid[16]);
        assert(mid[17] == h[17]);
    }
}

/// Send command to AC unit: applies the given settings in order, then sends
/// the state; a name that cannot be read or a refused setting stops it before
/// anything is sent.
pub fn send_command<F: Fn(&[u8], u32, u16) -> Result<()>>(
    ac: &mut PanasonicAc<F>,
    power: Option<bool>,
    mode: &Option<String>,
    temp: Option<u8>,
    fan: &Option<String>,
    swing_v: &Option<String>,
    swing_h: &Option<String>,
    powerful: Option<bool>,
    quiet: Option<bool>,
) -> (r: Result<()>)
    ensures
        ({
            let (frame, stop) = command_applied(
                old(ac)@.frame,
                old(ac)@.model,
                power,
                name_view(*mode),
                temp,
                name_view(*fan),
                name_view(*swing_v),
                name_view(*swing_h),
                powerful,
                quiet,
            );
            &&& final(ac)@.frame == frame
            &&& final(ac)@.model == old(ac)@.model
            &&& final(ac).sender() == old(ac).sender()
            &&& stop matches Some(CommandStop::ModeName) ==> (r matches Err(Error::InvalidValue(msg))
                && msg@ == "Invalid mode: "@ + mode->0@
                + ". Valid modes are: auto, cool, heat, dry, fan"@)
            &&& stop matches Some(CommandStop::FanName) ==> (r matches Err(Error::InvalidValue(msg))
                && msg@ == "Invalid fan speed: "@ + fan->0@
                + ". Valid speeds are: auto, min, low, med, high, max"@)
            &&& stop matches Some(CommandStop::SwingVName) ==> (r matches Err(
                Error::InvalidValue(msg),
            ) && msg@ == "Invalid vertical swing: "@ + swing_v->0@
                + ". Valid values are: auto, highest, high, middle, low, lowest"@)
            &&& stop matches Some(CommandStop::SwingHName) ==> (r matches Err(
                Error::InvalidValue(msg),
            ) && msg@ == "Invalid horizontal swing: "@ + swing_h->0@
                + ". Valid values are: auto, left, left_mid, middle, right_mid, right"@)
            &&& stop matches Some(CommandStop::SwingHRefused) ==> (r matches Err(
                Error::UnsupportedFeature { feature, model: Some(name) },
            ) && feature@ == "Horizontal swing"@ && name@ == old(ac)@.model.label())
            &&& stop is None ==> exists|data: &[u8]|
                data@ == sent_frame(frame) && #[trigger] call_ensures(
                    final(ac).sender(),
                    (data, PANASONIC_FREQ, 0u16),
                    r,
                )
        }),
{
    apply_command(ac, power, mode, temp, fan, swing_v, swing_h, powerful, quiet)?;

    // Send the command
    ac.send()
}

/// Captured timings as text: each timing in decimal on a line of its own.
pub open spec fn timings_text(timings: Seq<u16>) -> Seq<char>
    decreases timings.len(),
{
    if timings.len() == 0 {
        Seq::empty()
    } else {
        timings_text(timings.drop_last()) + decimal(timings.last() as nat) + seq!['\n']
    }
}

/// The text saved for a captured signal: each timing in decimal on a line of
/// its own.
pub fn captured_signal_text(timings: &[u16]) -> (r: String)
    ensures
        r@ == timings_text(timings@),
{
    let mut r = String::new();
    let mut i: usize = 0;
    while i < timings.len()
        invariant
            i <= timings@.len(),
            r@ == timings_text(timings@.take(i as int)),
        decreases timings@.len() - i,
    {
        let d = u64_to_decimal(timings[i] as u64);
        r.append(d.as_str());
        push_char(&mut r, '\n');
        assert(timings@.take(i as int + 1).drop_last() =~= timings@.take(i as int));
        i = i + 1;
    }
    assert(timings@.take(timings@.len() as int) =~= timings@);
    r
}

/// Whether `parse_hex_string` can read `s` without cutting it inside a
/// character: every two-byte piece it reads starts and ends on a character
/// boundary.
pub fn hex_string_sliceable(s: &str) -> (r: bool)
    ensures
        r == hex_pieces_on_boundaries(s.spec_bytes()),
{
    let ghost b = s.spec_bytes();
    let bytes = s.as_bytes();
    let n: usize = bytes.len();
    let mut i: usize = 0;
    proof {
        vstd::utf8::encode_utf8_valid_utf8(s@);
    }
    while i < n && n - i >= 2
        invariant
            b == s.spec_bytes(),
            vstd::utf8::valid_utf8(b),
            b.len() == n,
            i % 2 == 0,
            i <= n,
            hex_chunks_valid_before(b, i as int),
            forall|j: int|
                0 <= j < i && j % 2 == 0 ==> #[trigger] is_char_boundary(b, j) && is_char_boundary(
                    b,
                    j + 2,
                ),
        decreases n - i,
    {
        if !s.is_char_boundary(i) || !s.is_char_boundary(i + 2) {
            proof {
                assert(i + 2 <= b.len() && hex_chunks_valid_before(b, i as int));
            }
            return false;
        }
        let (_, rest) = s.split_at(i);
        proof {
            let rb = rest.spec_bytes();
            assert(rb =~= b.subrange(i as int, n as int));
            vstd::utf8::valid_utf8_split(b, i as int);
            if i + 2 < n {
                vstd::utf8::is_char_boundary_iff_not_is_continuation_byte(b, i + 2);
                vstd::utf8::is_char_boundary_iff_not_is_continuation_byte(rb, 2);
                assert(rb[2] == b[i + 2]);
            } else {
                vstd::utf8::is_char_boundary_start_end_of_seq(rb);
            }
        }
        let (chunk, _) = rest.split_at(2);
        proof {
            assert(chunk.spec_bytes() =~= b.subrange(i as int, i + 2));
            vstd::utf8::encode_utf8_decode_utf8(chunk@);
        }
        if parse_hex_u8(chunk).is_none() {
            proof {
                assert forall|j: int|
                    0 <= j && j % 2 == 0 && j + 2 <= b.len() && #[trigger] hex_chunks_valid_before(
                        b,
                        j,
                    ) implies is_char_boundary(b, j) && is_char_boundary(b, j + 2) by {
                    if j > i {
                        assert(hex_chunk(b, i as int) is None);
                    } else if j < i {
                        assert(is_char_boundary(b, j));
                    }
                }
            }
            return true;
        }
        proof {
            assert forall|j: int| 0 <= j < i + 2 && j % 2 == 0 implies #[trigger] hex_chunk(b, j) is Some by {
                if j < i {
                    assert(hex_chunks_valid_before(b, i as int));
                }
            }
        }
        i = i + 2;
    }
    proof {
        assert forall|j: int|
            0 <= j && j % 2 == 0 && j + 2 <= b.len() && #[trigger] hex_chunks_valid_before(b, j)
                implies is_char_boundary(b, j) && is_char_boundary(b, j + 2) by {
            assert(j < i);
            assert(is_char_boundary(b, j));
        }
    }
    true
}

/// Whether a character is whitespace by the Unicode `White_Space` property
/// (what `char::is_whitespace` and `str::trim` go by): the controls U+0009 to
/// U+000D, the space, U+0085, U+00A0, U+1680, U+2000 to U+200A, U+2028,
/// U+2029, U+202F, U+205F and U+3000.
pub open spec fn is_white_space(c: char) -> bool {
    let n = c as int;
    ||| 0x9 <= n <= 0xD
    ||| n == 0x20
    ||| n == 0x85
    ||| n == 0xA0
    ||| n == 0x1680
    ||| 0x2000 <= n <= 0x200A
    ||| n == 0x2028
    ||| n == 0x2029
    ||| n == 0x202F
    ||| n == 0x205F
    ||| n == 0x3000
}

/// The text without its leading whitespace.
pub open spec fn trimmed_start(s: Seq<char>) -> Seq<char>
    decreases s.len(),
{
    if s.len() > 0 && is_white_space(s[0]) {
        trimmed_start(s.drop_first())
    } else {
        s
    }
}

/// The text without its trailing whitespace.
pub open spec fn trimmed_end(s: Seq<char>) -> Seq<char>
    decreases s.len(),
{
    if s.len() > 0 && is_white_space(s.last()) {
        trimmed_end(s.drop_last())
    } else {
        s
    }
}

/// The text of a string without its leading and trailing whitespace.
pub open spec fn trimmed(s: Seq<char>) -> Seq<char> {
    trimmed_end(trimmed_start(s))
}

/// Trims whitespace from both ends of a string with `str::trim`, which
/// removes the leading and trailing characters that have the Unicode
/// `White_Space` property. Claimed: the result is `trimmed(s@)`.
#[verifier::external_body]
fn trim_text(s: &str) -> (r: &str)
    ensures
        r@ == trimmed(s@),
{
    s.trim()
}

/// Whether an answer to a yes/no question is yes: `y` in either case, with
/// whitespace around it.
pub fn answer_is_yes(answer: &str) -> (r: bool)
    ensures
        r == (text_lowercase(trimmed(answer@)) == "y"@),
{
    let lower = to_lowercase(trim_text(answer));
    is_keyword(&lower, "y")
}

/// How much the controller logs.
#[derive(Debug, Clone, Copy, PartialEq, Eq, Structural)]
pub enum LogLevel {
    Info,
    Debug,
    Trace,
}

/// The log level for the number of times `--verbose` was given: info by
/// default, debug once, trace more often.
pub fn log_level(verbose: u8) -> (r: LogLevel)
    ensures
        verbose == 0 ==> r == LogLevel::Info,
        verbose == 1 ==> r == LogLevel::Debug,
        verbose > 1 ==> r == LogLevel::Trace,
{
    match verbose {
        0 => LogLevel::Info,
        1 => LogLevel::Debug,
        _ => LogLevel::Trace,
    }
}

} // verus!
