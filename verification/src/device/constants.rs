use uuid::Uuid;
use vstd::prelude::*;

verus! {

/// How often (milliseconds) to poll for new breath values and to check the
/// connection.
pub const POLL_DELAY: u64 = 10;

/// How long (milliseconds) to wait before trying to connect again.
pub const CONNECT_DELAY: u64 = 1000;

/// How long (milliseconds) a write to a characteristic may take.
pub const WRITE_DEADLINE: u64 = 2000;

/// How long (milliseconds) checking whether the peripheral is still connected
/// may take.
pub const IS_CONNECTED_DEADLINE: u64 = 2000;

/// The UUID of the Bluetooth LE service of the sensor.
pub const MELODY_SMART_SERVICE: &'static str = "bc2f4cc6-aaef-4351-9034-d66268e328f0";

/// The UUID of the characteristic that takes commands and notifies of data.
pub const MELODY_SMART_DATA_CHARACTERISTIC: &'static str = "06d1e5e7-79ad-4a71-8faa-373789f7d93c";

/// `MELODY_SMART_SERVICE` as a number.
pub const MELODY_SMART_SERVICE_ID: u128 = 0xbc2f4cc6_aaef_4351_9034_d66268e328f0;

/// `MELODY_SMART_DATA_CHARACTERISTIC` as a number.
pub const MELODY_SMART_DATA_CHARACTERISTIC_ID: u128 = 0x06d1e5e7_79ad_4a71_8faa_373789f7d93c;

/// The command `?b`: asks the sensor for a breath reading.
pub const COMMAND_REQUEST_BREATH: [u8; 2] = [0x3F, 0x62];

/// The command `l1`: switches the left LED on.
pub const COMMAND_LED_LEFT_ON: [u8; 2] = [0x6C, 0x31];

/// Half the range of the raw breath value. A raw value of `BREATH_RANGE` is
/// rest, 0 is the strongest sip and twice `BREATH_RANGE` the strongest puff.
pub const BREATH_RANGE: i16 = 2048;

/// The value of a hexadecimal digit, in either case.
pub open spec fn hex_digit_value(c: char) -> Option<int> {
    if '0' <= c <= '9' {
        Some(c as int - '0' as int)
    } else if 'a' <= c <= 'f' {
        Some(c as int - 'a' as int + 10)
    } else if 'A' <= c <= 'F' {
        Some(c as int - 'A' as int + 10)
    } else {
        None
    }
}

/// Whether `text` is a UUID in hyphenated form: 32 hexadecimal digits in
/// groups of 8, 4, 4, 4 and 12, with a hyphen between two groups.
pub open spec fn is_hyphenated_uuid(text: Seq<char>) -> bool {
    &&& text.len() == 36
    &&& forall|i: int|
        0 <= i < 36 ==> if i == 8 || i == 13 || i == 18 || i == 23 {
            text[i] == '-'
        } else {
            hex_digit_value(#[trigger] text[i]) is Some
        }
}

/// The place in a hyphenated UUID of its digit number `k`, counted from 0.
pub open spec fn uuid_digit_index(k: int) -> int {
    if k < 8 {
        k
    } else if k < 12 {
        k + 1
    } else if k < 16 {
        k + 2
    } else if k < 20 {
        k + 3
    } else {
        k + 4
    }
}

/// The number that the first `n` digits of a hyphenated UUID spell.
pub open spec fn uuid_prefix_value(text: Seq<char>, n: nat) -> int
    decreases n,
{
    if n == 0 {
        0
    } else {
        16 * uuid_prefix_value(text, (n - 1) as nat) + hex_digit_value(
            text[uuid_digit_index(n - 1)],
        ).unwrap()
    }
}

/// The 128-bit number that the 32 digits of a hyphenated UUID spell.
pub open spec fn hyphenated_uuid_value(text: Seq<char>) -> int {
    uuid_prefix_value(text, 32)
}

/// `Uuid::parse_str`, then `Uuid::as_u128`. A text in hyphenated form is
/// accepted, and the number handed back is the one its digits spell, the
/// first digit being the most significant.
#[verifier::external_body]
fn parse_uuid(text: &str) -> (id: Option<u128>)
    ensures
        is_hyphenated_uuid(text@) ==> id == Some(hyphenated_uuid_value(text@) as u128),
{
    match Uuid::parse_str(text) {
        Ok(id) => Some(id.as_u128()),
        Err(_) => None,
    }
}

/// The service UUID of the sensor, read from `MELODY_SMART_SERVICE`.
pub fn make_melody_smart_service_uuid() -> (id: u128)
    ensures
        id == MELODY_SMART_SERVICE_ID,
{
    proof {
        reveal_strlit("bc2f4cc6-aaef-4351-9034-d66268e328f0");
        reveal_with_fuel(uuid_prefix_value, 33);
        assert(is_hyphenated_uuid(MELODY_SMART_SERVICE@));
        assert(hyphenated_uuid_value(MELODY_SMART_SERVICE@) == MELODY_SMART_SERVICE_ID);
    }
    match parse_uuid(MELODY_SMART_SERVICE) {
        Some(id) => id,
        None => unreached(),
    }
}

/// The UUID of the data characteristic of the sensor, read from
/// `MELODY_SMART_DATA_CHARACTERISTIC`.
pub fn make_melody_smart_data_uuid() -> (id: u128)
    ensures
        id == MELODY_SMART_DATA_CHARACTERISTIC_ID,
{
    proof {
        reveal_strlit("06d1e5e7-79ad-4a71-8faa-373789f7d93c");
        reveal_with_fuel(uuid_prefix_value, 33);
        assert(is_hyphenated_uuid(MELODY_SMART_DATA_CHARACTERISTIC@));
        assert(hyphenated_uuid_value(MELODY_SMART_DATA_CHARACTERISTIC@)
            == MELODY_SMART_DATA_CHARACTERISTIC_ID);
    }
    match parse_uuid(MELODY_SMART_DATA_CHARACTERISTIC) {
        Some(id) => id,
        None => unreached(),
    }
}

} // verus!
