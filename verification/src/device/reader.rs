use crate::device::constants::{BREATH_RANGE, MELODY_SMART_DATA_CHARACTERISTIC_ID};
use crate::device::types::DeviceEvent;
use vstd::prelude::*;

verus! {

/// The value of a byte read as a hexadecimal digit, in either case.
pub open spec fn hex_digit(byte: u8) -> Option<int> {
    if 0x30 <= byte <= 0x39 {
        Some(byte - 0x30)
    } else if 0x61 <= byte <= 0x66 {
        Some(byte - 0x61 + 10)
    } else if 0x41 <= byte <= 0x46 {
        Some(byte - 0x41 + 10)
    } else {
        None
    }
}

/// The number that the digits spell, the first being the most significant;
/// `None` if a byte among them is no hexadecimal digit.
pub open spec fn hex_number(digits: Seq<u8>) -> Option<int>
    decreases digits.len(),
{
    if digits.len() == 0 {
        Some(0)
    } else {
        match (hex_number(digits.drop_last()), hex_digit(digits.last())) {
            (Some(high), Some(low)) => Some(16 * high + low),
            _ => None,
        }
    }
}

/// The digits of a payload: all of it, but for one leading plus sign.
pub open spec fn payload_digits(payload: Seq<u8>) -> Seq<u8> {
    if payload.len() > 0 && payload[0] == 0x2B {
        payload.skip(1)
    } else {
        payload
    }
}

/// The raw breath value that a notification payload spells: at least one
/// hexadecimal digit in ASCII, after at most one plus sign, with a value that
/// fits 16 bits. Any other payload spells nothing.
pub open spec fn payload_value(payload: Seq<u8>) -> Option<u16> {
    let digits = payload_digits(payload);
    if digits.len() == 0 {
        None
    } else {
        match hex_number(digits) {
            Some(value) => if value <= u16::MAX {
                Some(value as u16)
            } else {
                None
            },
            None => None,
        }
    }
}

/// `numerator / denominator`, rounded to the nearest whole number, a half
/// away from zero.
pub open spec fn round_half_away(numerator: int, denominator: int) -> int
    recommends
        denominator > 0,
{
    if numerator >= 0 {
        (2 * numerator + denominator) / (2 * denominator)
    } else {
        -((-2 * numerator + denominator) / (2 * denominator))
    }
}

/// The breath strength in percent for a raw value: the raw value is held to
/// 0 ..= 2 * `BREATH_RANGE`, its distance from `BREATH_RANGE` is taken as a
/// share of `BREATH_RANGE`, and the share is rounded to whole percent.
pub open spec fn breath_percent(raw: int) -> int {
    let clamped = if raw < 0 {
        0
    } else if raw > 2 * BREATH_RANGE {
        2 * BREATH_RANGE as int
    } else {
        raw
    };
    round_half_away(100 * (clamped - BREATH_RANGE), BREATH_RANGE as int)
}

/// Where a number is spelled, each of its leading parts spells a number that
/// is no larger, and each byte is a digit.
pub proof fn lemma_hex_number_prefix(digits: Seq<u8>, n: int)
    requires
        0 <= n <= digits.len(),
        hex_number(digits) is Some,
    ensures
        hex_number(digits.take(n)) is Some,
        0 <= hex_number(digits.take(n)).unwrap() <= hex_number(digits).unwrap(),
        n < digits.len() ==> hex_digit(digits[n]) is Some,
    decreases digits.len(),
{
    if n == digits.len() {
        assert(digits.take(n) == digits);
        if n > 0 {
            lemma_hex_number_prefix(digits.drop_last(), n - 1);
        }
    } else {
        lemma_hex_number_prefix(digits.drop_last(), n);
        assert(digits.drop_last().take(n) == digits.take(n));
        if n < digits.len() - 1 {
            assert(digits.drop_last()[n] == digits[n]);
        }
    }
}

/// The percentage is the whole number nearest to the exact share: twice
/// their distance, in units of 1 / `BREATH_RANGE` percent, is at most
/// `BREATH_RANGE`. It lies between -100 and 100, it is 0 at rest, -100 at
/// the strongest sip and 100 at the strongest puff, and it grows with the
/// raw value.
pub proof fn lemma_breath_percent(raw: int)
    ensures
        -100 <= breath_percent(raw) <= 100,
        0 <= raw <= 2 * BREATH_RANGE ==> -(BREATH_RANGE as int) <= 2 * (BREATH_RANGE
            * breath_percent(raw) - 100 * (raw - BREATH_RANGE)) <= BREATH_RANGE,
        raw <= 0 ==> breath_percent(raw) == -100,
        raw == BREATH_RANGE ==> breath_percent(raw) == 0,
        raw >= 2 * BREATH_RANGE ==> breath_percent(raw) == 100,
        breath_percent(raw) <= breath_percent(raw + 1),
        breath_percent(2 * BREATH_RANGE - raw) == -breath_percent(raw),
{
    assert(BREATH_RANGE == 2048);
    let here = if raw < 0 {
        0
    } else if raw > 4096 {
        4096
    } else {
        raw
    };
    let there = if raw + 1 < 0 {
        0
    } else if raw + 1 > 4096 {
        4096
    } else {
        raw + 1
    };
    assert(breath_percent(raw) == round_half_away(100 * (here - 2048), 2048));
    assert(breath_percent(raw + 1) == round_half_away(100 * (there - 2048), 2048));
    assert(breath_percent(4096 - raw) == round_half_away(100 * (2048 - here), 2048));
}

/// The value of a byte read as a hexadecimal digit, in either case.
pub fn hex_digit_of(byte: u8) -> (digit: Option<u8>)
    ensures
        digit is Some <==> hex_digit(byte) is Some,
        digit matches Some(d) ==> hex_digit(byte) == Some(d as int) && d < 16,
{
    if 0x30 <= byte && byte <= 0x39 {
        Some(byte - 0x30)
    } else if 0x61 <= byte && byte <= 0x66 {
        Some(byte - 0x61 + 10)
    } else if 0x41 <= byte && byte <= 0x46 {
        Some(byte - 0x41 + 10)
    } else {
        None
    }
}

/// Reads the raw breath value from a notification payload.
pub fn decode_breath_payload(payload: &[u8]) -> (value: Option<u16>)
    ensures
        value == payload_value(payload@),
{
    let start: usize = if payload.len() > 0 && payload[0] == 0x2B {
        1
    } else {
        0
    };
    let ghost digits = payload_digits(payload@);
    assert(digits == payload@.skip(start as int));
    if start == payload.len() {
        return None;
    }
    let mut value: u32 = 0;
    let mut i: usize = start;
    assert(digits.take(0) == Seq::<u8>::empty());
    while i < payload.len()
        invariant
            start <= i <= payload.len(),
            digits == payload_digits(payload@),
            digits == payload@.skip(start as int),
            digits.len() == payload.len() - start,
            hex_number(digits.take(i - start)) == Some(value as int),
            value <= u16::MAX,
        decreases payload.len() - i,
    {
        let ghost n = i - start;
        assert(digits[n] == payload@[i as int]);
        match hex_digit_of(payload[i]) {
            None => {
                proof {
                    if hex_number(digits) is Some {
                        lemma_hex_number_prefix(digits, n);
                    }
                }
                return None;
            },
            Some(digit) => {
                let next: u32 = value * 16 + digit as u32;
                proof {
                    assert(digits.take(n + 1).drop_last() == digits.take(n));
                    assert(digits.take(n + 1).last() == digits[n]);
                    assert(hex_number(digits.take(n + 1)) == Some(next as int));
                }
                if next > 0xFFFF {
                    proof {
                        if hex_number(digits) is Some {
                            lemma_hex_number_prefix(digits, n + 1);
                        }
                    }
                    return None;
                }
                value = next;
            },
        }
        i += 1;
    }
    assert(digits.take(i - start) == digits);
    Some(value as u16)
}

/// The breath strength in percent for a raw value.
pub fn breath_percentage(raw: u16) -> (percent: i8)
    ensures
        percent == breath_percent(raw as int),
        -100 <= percent <= 100,
{
    let range: i32 = BREATH_RANGE as i32;
    let clamped: i32 = if raw as i32 > 2 * range {
        2 * range
    } else {
        raw as i32
    };
    let share: i32 = 100 * (clamped - range);
    let rounded: i32 = if share >= 0 {
        (2 * share + range) / (2 * range)
    } else {
        -((-2 * share + range) / (2 * range))
    };
    proof {
        lemma_breath_percent(raw as int);
    }
    rounded as i8
}

/// Reads the stream of notifications of a connected sensor and passes each
/// change of the breath strength on, once.
#[derive(Debug, Clone, Copy, PartialEq, Eq, Structural)]
pub struct NotificationReader {
    /// The percentage that was passed on last, 0 before the first.
    pub previous_value: i8,
}

impl NotificationReader {
    /// The reader at the start of a connection.
    pub open spec fn initial() -> NotificationReader {
        NotificationReader { previous_value: 0 }
    }

    /// The breath strength that a notification brings: that of the raw value
    /// in its payload, if it comes from the data characteristic and the
    /// payload spells a value.
    pub open spec fn reading(characteristic: u128, payload: Seq<u8>) -> Option<i8> {
        if characteristic == MELODY_SMART_DATA_CHARACTERISTIC_ID {
            match payload_value(payload) {
                Some(raw) => Some(breath_percent(raw as int) as i8),
                None => None,
            }
        } else {
            None
        }
    }

    /// The reader after a notification, and the event that is passed on: a
    /// reading that differs from the one passed on last is remembered and
    /// passed on; anything else changes nothing.
    pub open spec fn next(self, characteristic: u128, payload: Seq<u8>) -> (
        NotificationReader,
        Option<DeviceEvent>,
    ) {
        match Self::reading(characteristic, payload) {
            Some(percent) => if percent != self.previous_value {
                (NotificationReader { previous_value: percent }, Some(DeviceEvent::Breath(percent)))
            } else {
                (self, None)
            },
            None => (self, None),
        }
    }

    /// The percentage passed on last is one that a raw value can give.
    pub open spec fn wf(self) -> bool {
        -100 <= self.previous_value <= 100
    }

    /// A reader at the start of a connection.
    pub fn new() -> (reader: NotificationReader)
        ensures
            reader == NotificationReader::initial(),
            reader.wf(),
    {
        NotificationReader { previous_value: 0 }
    }

    /// Takes one notification: the UUID of the characteristic that it comes
    /// from, and its payload. Gives the event to pass on to the subscribers,
    /// if there is one.
    pub fn on_notification(&mut self, characteristic: u128, payload: &[u8]) -> (event: Option<
        DeviceEvent,
    >)
        ensures
            (*final(self), event) == old(self).next(characteristic, payload@),
            old(self).wf() ==> final(self).wf(),
    {
        if characteristic != MELODY_SMART_DATA_CHARACTERISTIC_ID {
            return None;
        }
        match decode_breath_payload(payload) {
            None => None,
            Some(raw) => {
                let percent = breath_percentage(raw);
                if percent != self.previous_value {
                    self.previous_value = percent;
                    Some(DeviceEvent::Breath(percent))
                } else {
                    None
                }
            },
        }
    }

    /// The reader after the notifications, each given by the UUID of its
    /// characteristic and its payload.
    pub open spec fn run(self, notifications: Seq<(u128, Seq<u8>)>) -> NotificationReader
        decreases notifications.len(),
    {
        if notifications.len() == 0 {
            self
        } else {
            let last = notifications.last();
            self.run(notifications.drop_last()).next(last.0, last.1).0
        }
    }

    /// The breath values that are passed on while the reader takes the
    /// notifications, in their order.
    pub open spec fn passed_on(self, notifications: Seq<(u128, Seq<u8>)>) -> Seq<i8>
        decreases notifications.len(),
    {
        if notifications.len() == 0 {
            Seq::empty()
        } else {
            let last = notifications.last();
            let before = self.passed_on(notifications.drop_last());
            match self.run(notifications.drop_last()).next(last.0, last.1).1 {
                Some(DeviceEvent::Breath(percent)) => before.push(percent),
                _ => before,
            }
        }
    }

    /// Every reading lies between -100 and 100.
    pub proof fn lemma_reading_in_range(characteristic: u128, payload: Seq<u8>)
        ensures
            Self::reading(characteristic, payload) matches Some(percent) ==> -100 <= percent
                <= 100,
    {
        if let Some(raw) = payload_value(payload) {
            lemma_breath_percent(raw as int);
        }
    }

    /// An event is passed on only for a reading that differs from the one
    /// passed on last; it is a breath event with that reading, which is then
    /// the one passed on last. Without an event the reader stays as it was.
    pub proof fn lemma_passes_changes_only(self, characteristic: u128, payload: Seq<u8>)
        ensures
            ({
                let (after, event) = self.next(characteristic, payload);
                &&& event matches Some(passed) ==> {
                    &&& passed == DeviceEvent::Breath(after.previous_value)
                    &&& after.previous_value != self.previous_value
                    &&& Self::reading(characteristic, payload) == Some(after.previous_value)
                    &&& -100 <= after.previous_value <= 100
                }
                &&& event is None ==> after == self
            }),
    {
        Self::lemma_reading_in_range(characteristic, payload);
    }

    /// Whatever the notifications, no value is passed on twice in a row: each
    /// value passed on differs from the one before it, and the first from the
    /// value that the reader started with. The reader remembers the last.
    pub proof fn lemma_passed_on_never_repeats(self, notifications: Seq<(u128, Seq<u8>)>)
        ensures
            ({
                let passed = self.passed_on(notifications);
                &&& forall|i: int| 0 < i < passed.len() ==> #[trigger] passed[i] != passed[i - 1]
                &&& passed.len() > 0 ==> passed[0] != self.previous_value && passed.last()
                    == self.run(notifications).previous_value
                &&& passed.len() == 0 ==> self.run(notifications) == self
                &&& forall|i: int| 0 <= i < passed.len() ==> -100 <= #[trigger] passed[i] <= 100
            }),
        decreases notifications.len(),
    {
        if notifications.len() > 0 {
            let last = notifications.last();
            self.lemma_passed_on_never_repeats(notifications.drop_last());
            self.run(notifications.drop_last()).lemma_passes_changes_only(last.0, last.1);
        }
    }

    /// Of two notifications in a row with the same reading, the second is
    /// never passed on.
    pub proof fn lemma_repeated_reading_is_dropped(
        self,
        characteristic1: u128,
        payload1: Seq<u8>,
        characteristic2: u128,
        payload2: Seq<u8>,
    )
        requires
            Self::reading(characteristic1, payload1) == Self::reading(characteristic2, payload2),
        ensures
            self.next(characteristic1, payload1).0.next(characteristic2, payload2).1 is None,
    {
    }
}

} // verus!
