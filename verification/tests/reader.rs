use groovtube_hotkey::device::constants::{
    make_melody_smart_data_uuid, make_melody_smart_service_uuid,
};
use groovtube_hotkey::device::reader::{
    breath_percentage, decode_breath_payload, hex_digit_of, NotificationReader,
};
use groovtube_hotkey::device::types::{fan_out, DeviceEvent, DeviceState};

fn std_decode(payload: &[u8]) -> Option<u16> {
    let text = String::from_utf8_lossy(payload);
    u16::from_str_radix(&text, 16).ok()
}

#[test]
fn percentage_at_rest_and_at_the_ends() {
    assert_eq!(breath_percentage(2048), 0);
    assert_eq!(breath_percentage(0), -100);
    assert_eq!(breath_percentage(4096), 100);
}

#[test]
fn percentage_is_clamped() {
    assert_eq!(breath_percentage(4097), 100);
    assert_eq!(breath_percentage(5000), 100);
    assert_eq!(breath_percentage(u16::MAX), 100);
    for raw in 0..=u16::MAX {
        let percent = breath_percentage(raw);
        assert!((-100..=100).contains(&percent), "raw {} gives {}", raw, percent);
    }
}

#[test]
fn percentage_rounds_to_nearest_and_halves_away_from_zero() {
    // 256 / 2048 is 12.5 percent.
    assert_eq!(breath_percentage(2048 + 256), 13);
    assert_eq!(breath_percentage(2048 - 256), -13);
    assert_eq!(breath_percentage(2048 + 255), 12);
    assert_eq!(breath_percentage(2048 - 255), -12);
    // 10 / 2048 is just under half a percent, 11 / 2048 just over.
    assert_eq!(breath_percentage(2048 + 10), 0);
    assert_eq!(breath_percentage(2048 - 10), 0);
    assert_eq!(breath_percentage(2048 + 11), 1);
    assert_eq!(breath_percentage(2048 - 11), -1);
    assert_eq!(breath_percentage(3072), 50);
    assert_eq!(breath_percentage(1024), -50);
    assert_eq!(breath_percentage(4095), 100);
    assert_eq!(breath_percentage(4085), 99);
    assert_eq!(breath_percentage(1), -100);
}

#[test]
fn percentage_matches_the_floating_point_formula() {
    for raw in 0..=u16::MAX {
        let range = 2048.0_f32;
        let value = f32::from(raw).clamp(0.0_f32, range * 2.0_f32);
        let value = (value - range) / range * 100.0_f32;
        let expected = value.round() as i8;
        assert_eq!(breath_percentage(raw), expected, "raw {}", raw);
    }
}

#[test]
fn percentage_grows_with_the_raw_value_and_mirrors() {
    for raw in 0..4096u16 {
        assert!(breath_percentage(raw) <= breath_percentage(raw + 1));
        assert_eq!(breath_percentage(4096 - raw), -breath_percentage(raw));
    }
}

#[test]
fn hex_digits_in_either_case() {
    assert_eq!(hex_digit_of(b'0'), Some(0));
    assert_eq!(hex_digit_of(b'9'), Some(9));
    assert_eq!(hex_digit_of(b'a'), Some(10));
    assert_eq!(hex_digit_of(b'f'), Some(15));
    assert_eq!(hex_digit_of(b'A'), Some(10));
    assert_eq!(hex_digit_of(b'F'), Some(15));
    assert_eq!(hex_digit_of(b'g'), None);
    assert_eq!(hex_digit_of(b'G'), None);
    assert_eq!(hex_digit_of(b'/'), None);
    assert_eq!(hex_digit_of(b':'), None);
    assert_eq!(hex_digit_of(b'@'), None);
    assert_eq!(hex_digit_of(b'`'), None);
    assert_eq!(hex_digit_of(b' '), None);
    assert_eq!(hex_digit_of(0x80), None);
    for byte in 0..=u8::MAX {
        let expected = (byte as char).to_digit(16).map(|d| d as u8);
        let expected = if byte < 0x80 { expected } else { None };
        assert_eq!(hex_digit_of(byte), expected);
    }
}

#[test]
fn payloads_that_spell_a_value() {
    assert_eq!(decode_breath_payload(b"800"), Some(2048));
    assert_eq!(decode_breath_payload(b"0"), Some(0));
    assert_eq!(decode_breath_payload(b"1000"), Some(4096));
    assert_eq!(decode_breath_payload(b"0800"), Some(2048));
    assert_eq!(decode_breath_payload(b"7fF"), Some(0x7ff));
    assert_eq!(decode_breath_payload(b"ffff"), Some(0xffff));
    assert_eq!(decode_breath_payload(b"FFFF"), Some(0xffff));
    assert_eq!(decode_breath_payload(b"+800"), Some(2048));
    assert_eq!(decode_breath_payload(b"000000000000000000000000801"), Some(2049));
}

#[test]
fn payloads_that_spell_nothing() {
    assert_eq!(decode_breath_payload(b""), None);
    assert_eq!(decode_breath_payload(b"+"), None);
    assert_eq!(decode_breath_payload(b"-"), None);
    assert_eq!(decode_breath_payload(b"-1"), None);
    assert_eq!(decode_breath_payload(b"++1"), None);
    assert_eq!(decode_breath_payload(b"1+"), None);
    assert_eq!(decode_breath_payload(b"10000"), None);
    assert_eq!(decode_breath_payload(b"fffff"), None);
    assert_eq!(decode_breath_payload(b"10000g"), None);
    assert_eq!(decode_breath_payload(b"0x800"), None);
    assert_eq!(decode_breath_payload(b"800\n"), None);
    assert_eq!(decode_breath_payload(b" 800"), None);
    assert_eq!(decode_breath_payload(b"8 0"), None);
    assert_eq!(decode_breath_payload(b"80g"), None);
    assert_eq!(decode_breath_payload(&[0x38, 0xff]), None);
    assert_eq!(decode_breath_payload(&[0xc3, 0xa9]), None);
    assert_eq!(decode_breath_payload(&[0x00]), None);
}

#[test]
fn decoding_agrees_with_the_standard_parser() {
    let alphabet: [u8; 12] = [b'0', b'1', b'9', b'a', b'F', b'g', b'+', b'-', b' ', 0x80, 0xe2, 0x00];
    let mut payload: Vec<u8> = Vec::new();
    // every payload of up to four bytes over the alphabet
    let mut count = 0u32;
    for length in 0..=4usize {
        let total = alphabet.len().pow(length as u32);
        for code in 0..total {
            payload.clear();
            let mut rest = code;
            for _ in 0..length {
                payload.push(alphabet[rest % alphabet.len()]);
                rest /= alphabet.len();
            }
            assert_eq!(decode_breath_payload(&payload), std_decode(&payload), "{:?}", payload);
            count += 1;
        }
    }
    assert!(count > 20000);
    for value in 0..=0x1ffffu32 {
        let lower = format!("{:x}", value);
        let upper = format!("{:05X}", value);
        let plus = format!("+{:x}", value);
        assert_eq!(decode_breath_payload(lower.as_bytes()), std_decode(lower.as_bytes()));
        assert_eq!(decode_breath_payload(upper.as_bytes()), std_decode(upper.as_bytes()));
        assert_eq!(decode_breath_payload(plus.as_bytes()), std_decode(plus.as_bytes()));
    }
}

#[test]
fn reader_starts_at_rest() {
    let reader = NotificationReader::new();
    assert_eq!(reader.previous_value, 0);
}

#[test]
fn reader_passes_a_new_value_on() {
    let data = make_melody_smart_data_uuid();
    let mut reader = NotificationReader::new();
    assert_eq!(reader.on_notification(data, b"1000"), Some(DeviceEvent::Breath(100)));
    assert_eq!(reader.previous_value, 100);
    assert_eq!(reader.on_notification(data, b"0"), Some(DeviceEvent::Breath(-100)));
    assert_eq!(reader.previous_value, -100);
    assert_eq!(reader.on_notification(data, b"800"), Some(DeviceEvent::Breath(0)));
    assert_eq!(reader.previous_value, 0);
}

#[test]
fn reader_drops_a_repeated_value() {
    let data = make_melody_smart_data_uuid();
    let mut reader = NotificationReader::new();
    let first = reader.on_notification(data, b"C00");
    let second = reader.on_notification(data, b"C00");
    assert_eq!(first, Some(DeviceEvent::Breath(50)));
    assert_eq!(second, None);
    // another spelling and another raw value with the same percentage
    assert_eq!(reader.on_notification(data, b"0c00"), None);
    assert_eq!(reader.on_notification(data, b"c01"), None);
    assert_eq!(reader.previous_value, 50);
}

#[test]
fn reader_drops_rest_at_the_start() {
    let data = make_melody_smart_data_uuid();
    let mut reader = NotificationReader::new();
    assert_eq!(reader.on_notification(data, b"800"), None);
    assert_eq!(reader.previous_value, 0);
}

#[test]
fn reader_skips_what_it_cannot_decode() {
    let data = make_melody_smart_data_uuid();
    let mut reader = NotificationReader::new();
    assert_eq!(reader.on_notification(data, b"C00"), Some(DeviceEvent::Breath(50)));
    assert_eq!(reader.on_notification(data, b"zz"), None);
    assert_eq!(reader.on_notification(data, b""), None);
    assert_eq!(reader.on_notification(data, b"12345"), None);
    assert_eq!(reader.previous_value, 50);
    // the value before the garbage is still the last one passed on
    assert_eq!(reader.on_notification(data, b"C00"), None);
}

#[test]
fn reader_skips_other_characteristics() {
    let data = make_melody_smart_data_uuid();
    let mut reader = NotificationReader::new();
    assert_eq!(reader.on_notification(make_melody_smart_service_uuid(), b"1000"), None);
    assert_eq!(reader.on_notification(data.wrapping_add(1), b"1000"), None);
    assert_eq!(reader.on_notification(0, b"1000"), None);
    assert_eq!(reader.previous_value, 0);
    assert_eq!(reader.on_notification(data, b"1000"), Some(DeviceEvent::Breath(100)));
}

#[test]
fn reader_never_passes_the_same_value_twice_in_a_row() {
    let data = make_melody_smart_data_uuid();
    let mut reader = NotificationReader::new();
    let mut last: Option<i8> = None;
    let mut raw: u32 = 2048;
    for step in 0..5000u32 {
        raw = (raw * 73 + step * 19 + 7) % 4200;
        let payload = format!("{:x}", raw / 40 * 40);
        if let Some(event) = reader.on_notification(data, payload.as_bytes()) {
            match event {
                DeviceEvent::Breath(value) => {
                    assert_ne!(Some(value), last);
                    assert_eq!(value, reader.previous_value);
                    last = Some(value);
                }
                DeviceEvent::StateChange(_) => panic!("a reader emits breath events only"),
            }
        }
    }
    assert!(last.is_some());
}

#[test]
fn fan_out_reaches_every_subscriber_in_order() {
    let event = DeviceEvent::Breath(-45);
    let deliveries = fan_out(event, 3);
    assert_eq!(deliveries.len(), 3);
    for (i, delivery) in deliveries.iter().enumerate() {
        assert_eq!(delivery.subscriber, i);
        assert_eq!(delivery.event, event);
    }
    assert!(fan_out(DeviceEvent::StateChange(DeviceState::Connected), 0).is_empty());
    let one = fan_out(DeviceEvent::StateChange(DeviceState::Scanning { no_permission: true }), 1);
    assert_eq!(one.len(), 1);
    assert_eq!(one[0].subscriber, 0);
    assert_eq!(one[0].event, DeviceEvent::StateChange(DeviceState::Scanning { no_permission: true }));
}
