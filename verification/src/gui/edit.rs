use crate::config::types::{BreathDirection, Config, HotkeyConfig};
use crate::gui::types::{HotkeyChange, HotkeyModifier};
use crate::sim::types::Button;
use vstd::prelude::*;
use vstd::string::*;

verus! {

/// The table offers to add a hotkey while it holds fewer than this many.
pub const MAX_HOTKEYS: usize = 8;

/// The weakest threshold that the threshold field sets.
pub const MIN_THRESHOLD: i8 = 1;

/// The strongest threshold that the threshold field sets.
pub const MAX_THRESHOLD: i8 = 99;

/// The value of a decimal digit.
pub open spec fn decimal_digit(c: char) -> Option<int> {
    if '0' <= c <= '9' {
        Some(c as int - '0' as int)
    } else {
        None
    }
}

/// The number that the digits spell; `None` if one of them is no decimal
/// digit.
pub open spec fn decimal_number(digits: Seq<char>) -> Option<int>
    decreases digits.len(),
{
    if digits.len() == 0 {
        Some(0)
    } else {
        match (decimal_number(digits.drop_last()), decimal_digit(digits.last())) {
            (Some(high), Some(low)) => Some(10 * high + low),
            _ => None,
        }
    }
}

/// The text starts with a sign.
pub open spec fn is_signed(text: Seq<char>) -> bool {
    text.len() > 0 && (text[0] == '-' || text[0] == '+')
}

/// The number that a text spells, as far as it fits 8 bits with a sign: at
/// least one decimal digit, after at most one sign. Any other text spells
/// nothing.
pub open spec fn parsed_i8(text: Seq<char>) -> Option<i8> {
    let digits = if is_signed(text) {
        text.skip(1)
    } else {
        text
    };
    if digits.len() == 0 {
        None
    } else {
        match decimal_number(digits) {
            Some(magnitude) => {
                let value = if text[0] == '-' {
                    -magnitude
                } else {
                    magnitude
                };
                if i8::MIN <= value <= i8::MAX {
                    Some(value as i8)
                } else {
                    None
                }
            },
            None => None,
        }
    }
}

/// The threshold of a hotkey after the threshold field was edited to `text`:
/// none for an empty text; for a text that spells a number, the number held
/// to `MIN_THRESHOLD` ..= `MAX_THRESHOLD`; for any other text the threshold
/// as it was.
pub open spec fn threshold_after(threshold: Option<i8>, text: Seq<char>) -> Option<i8> {
    if text.len() == 0 {
        None
    } else {
        match parsed_i8(text) {
            Some(value) => Some(
                if value < MIN_THRESHOLD {
                    MIN_THRESHOLD
                } else if value > MAX_THRESHOLD {
                    MAX_THRESHOLD
                } else {
                    value
                },
            ),
            None => threshold,
        }
    }
}

/// The hotkey after a change other than its deletion.
pub open spec fn hotkey_after(hotkey: HotkeyConfig, change: HotkeyChange) -> HotkeyConfig {
    match change {
        HotkeyChange::BreathDirectionChange(direction) => HotkeyConfig {
            breath_direction: direction,
            ..hotkey
        },
        HotkeyChange::ButtonChange(button) => HotkeyConfig { button, ..hotkey },
        HotkeyChange::ThresholdChange(text) => HotkeyConfig {
            threshold: threshold_after(hotkey.threshold, text@),
            ..hotkey
        },
        HotkeyChange::ModifierToggle(HotkeyModifier::Shift) => HotkeyConfig {
            modifier_shift: !hotkey.modifier_shift,
            ..hotkey
        },
        HotkeyChange::ModifierToggle(HotkeyModifier::Ctrl) => HotkeyConfig {
            modifier_ctrl: !hotkey.modifier_ctrl,
            ..hotkey
        },
        HotkeyChange::ModifierToggle(HotkeyModifier::Meta) => HotkeyConfig {
            modifier_meta: !hotkey.modifier_meta,
            ..hotkey
        },
        HotkeyChange::ModifierToggle(HotkeyModifier::Alt) => HotkeyConfig {
            modifier_alt: !hotkey.modifier_alt,
            ..hotkey
        },
        HotkeyChange::Delete => hotkey,
    }
}

/// The table after a change to the hotkey at `index`: a table that has no
/// such hotkey stays as it is.
pub open spec fn hotkeys_after(hotkeys: Seq<HotkeyConfig>, index: int, change: HotkeyChange) -> Seq<
    HotkeyConfig,
> {
    if 0 <= index < hotkeys.len() {
        match change {
            HotkeyChange::Delete => hotkeys.remove(index),
            _ => hotkeys.update(index, hotkey_after(hotkeys[index], change)),
        }
    } else {
        hotkeys
    }
}

/// The hotkey that is added to the table: a puff without a threshold and
/// without modifiers on the left mouse button.
pub open spec fn added_hotkey() -> HotkeyConfig {
    HotkeyConfig {
        breath_direction: BreathDirection::Puff,
        threshold: None,
        modifier_shift: false,
        modifier_ctrl: false,
        modifier_meta: false,
        modifier_alt: false,
        button: Button::MouseLeft,
    }
}

/// Where a number is spelled, each of its leading parts spells a number that
/// is no larger, and each character is a digit.
pub proof fn lemma_decimal_number_prefix(digits: Seq<char>, n: int)
    requires
        0 <= n <= digits.len(),
        decimal_number(digits) is Some,
    ensures
        decimal_number(digits.take(n)) is Some,
        0 <= decimal_number(digits.take(n)).unwrap() <= decimal_number(digits).unwrap(),
        n < digits.len() ==> decimal_digit(digits[n]) is Some,
    decreases digits.len(),
{
    if n == digits.len() {
        assert(digits.take(n) == digits);
        if n > 0 {
            lemma_decimal_number_prefix(digits.drop_last(), n - 1);
        }
    } else {
        lemma_decimal_number_prefix(digits.drop_last(), n);
        assert(digits.drop_last().take(n) == digits.take(n));
        if n < digits.len() - 1 {
            assert(digits.drop_last()[n] == digits[n]);
        }
    }
}

/// A threshold that the threshold field sets lies between `MIN_THRESHOLD`
/// and `MAX_THRESHOLD`, unless the field leaves it as it was.
pub proof fn lemma_threshold_in_range(threshold: Option<i8>, text: Seq<char>)
    ensures
        threshold_after(threshold, text) matches Some(value) ==> (MIN_THRESHOLD <= value
            <= MAX_THRESHOLD) || threshold_after(threshold, text) == threshold,
{
}

/// Reads a number from a text.
pub fn parse_i8(text: &str) -> (value: Option<i8>)
    ensures
        value == parsed_i8(text@),
{
    let len = text.unicode_len();
    if len == 0 {
        return None;
    }
    let first = text.get_char(0);
    let negative = first == '-';
    let start: usize = if first == '-' || first == '+' {
        1
    } else {
        0
    };
    let ghost digits = if is_signed(text@) {
        text@.skip(1)
    } else {
        text@
    };
    assert(digits == text@.skip(start as int));
    if start == len {
        return None;
    }
    let mut magnitude: i32 = 0;
    let mut i: usize = start;
    assert(digits.take(0) == Seq::<char>::empty());
    while i < len
        invariant
            start <= i <= len,
            len == text@.len(),
            len > 0,
            negative == (text@[0] == '-'),
            digits == if is_signed(text@) {
                text@.skip(1)
            } else {
                text@
            },
            digits == text@.skip(start as int),
            decimal_number(digits.take(i - start)) == Some(magnitude as int),
            0 <= magnitude <= 128,
        decreases len - i,
    {
        let ghost n = i - start;
        let c = text.get_char(i);
        assert(digits[n] == c);
        if c < '0' || c > '9' {
            proof {
                if decimal_number(digits) is Some {
                    lemma_decimal_number_prefix(digits, n);
                }
            }
            return None;
        }
        let next: i32 = magnitude * 10 + (c as u8 - 0x30) as i32;
        proof {
            assert(digits.take(n + 1).drop_last() == digits.take(n));
            assert(digits.take(n + 1).last() == digits[n]);
            assert(decimal_number(digits.take(n + 1)) == Some(next as int));
        }
        if next > 128 {
            proof {
                if decimal_number(digits) is Some {
                    lemma_decimal_number_prefix(digits, n + 1);
                }
            }
            return None;
        }
        magnitude = next;
        i += 1;
    }
    assert(digits.take(i - start) == digits);
    let value: i32 = if negative {
        -magnitude
    } else {
        magnitude
    };
    if value > 127 {
        None
    } else {
        Some(value as i8)
    }
}

/// Whether the table offers to add a hotkey.
pub fn can_add_hotkey(config: &Config) -> (offered: bool)
    ensures
        offered == (config.hotkeys@.len() < MAX_HOTKEYS),
{
    config.hotkeys.len() < MAX_HOTKEYS
}

/// Adds a hotkey at the end of the table.
pub fn add_hotkey(config: &mut Config)
    ensures
        final(config).hotkeys@ == old(config).hotkeys@.push(added_hotkey()),
{
    config.hotkeys.push(
        HotkeyConfig {
            breath_direction: BreathDirection::Puff,
            threshold: None,
            modifier_shift: false,
            modifier_ctrl: false,
            modifier_meta: false,
            modifier_alt: false,
            button: Button::MouseLeft,
        },
    );
}

/// Makes a change to the hotkey at `index`. Says whether the table has such
/// a hotkey: if so the table is to be stored and handed to the mapping anew,
/// if not nothing happened.
pub fn apply_hotkey_change(config: &mut Config, index: usize, change: &HotkeyChange) -> (dirty:
    bool)
    ensures
        final(config).hotkeys@ == hotkeys_after(old(config).hotkeys@, index as int, *change),
        dirty == (index < old(config).hotkeys@.len()),
{
    if index >= config.hotkeys.len() {
        return false;
    }
    let mut hotkey = config.hotkeys[index];
    match change {
        HotkeyChange::BreathDirectionChange(direction) => {
            hotkey.breath_direction = *direction;
        },
        HotkeyChange::ButtonChange(button) => {
            hotkey.button = *button;
        },
        HotkeyChange::ThresholdChange(text) => {
            let text = text.as_str();
            if text.unicode_len() == 0 {
                hotkey.threshold = None;
            } else if let Some(value) = parse_i8(text) {
                hotkey.threshold = Some(
                    if value < MIN_THRESHOLD {
                        MIN_THRESHOLD
                    } else if value > MAX_THRESHOLD {
                        MAX_THRESHOLD
                    } else {
                        value
                    },
                );
            }
        },
        HotkeyChange::ModifierToggle(HotkeyModifier::Shift) => {
            hotkey.modifier_shift = !hotkey.modifier_shift;
        },
        HotkeyChange::ModifierToggle(HotkeyModifier::Ctrl) => {
            hotkey.modifier_ctrl = !hotkey.modifier_ctrl;
        },
        HotkeyChange::ModifierToggle(HotkeyModifier::Meta) => {
            hotkey.modifier_meta = !hotkey.modifier_meta;
        },
        HotkeyChange::ModifierToggle(HotkeyModifier::Alt) => {
            hotkey.modifier_alt = !hotkey.modifier_alt;
        },
        HotkeyChange::Delete => {
            config.hotkeys.remove(index);
            return true;
        },
    }
    config.hotkeys.set(index, hotkey);
    true
}

} // verus!
