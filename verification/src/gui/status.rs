use crate::device::types::{DeviceEvent, DeviceState};
use vstd::prelude::*;
use vstd::string::*;

verus! {

/// The character for a decimal digit.
pub open spec fn digit_char(digit: int) -> char
    recommends
        0 <= digit <= 9,
{
    ((digit + '0' as int) as u8) as char
}

/// A number in decimal digits, without leading zeros.
pub open spec fn decimal_text(number: nat) -> Seq<char>
    decreases number,
{
    if number < 10 {
        seq![digit_char(number as int)]
    } else {
        decimal_text(number / 10).push(digit_char((number % 10) as int))
    }
}

/// The line that tells the user how the sensor is doing: empty before
/// anything is known, a word while scanning or connecting, a warning where
/// Bluetooth may not be used, and the breath strength with its direction
/// while connected.
pub open spec fn status_line(state: DeviceState, breath: i8) -> Seq<char> {
    match state {
        DeviceState::Initial => Seq::empty(),
        DeviceState::Scanning { no_permission: false } => "Scanning…"@,
        DeviceState::Scanning { no_permission: true } => "Not allowed to access Bluetooth!"@,
        DeviceState::Connecting => "Connecting…"@,
        DeviceState::Connected => if breath < 0 {
            decimal_text((-breath) as nat) + "% sip"@
        } else {
            decimal_text(breath as nat) + "% puff"@
        },
    }
}

/// The text of one decimal digit.
fn digit_str(digit: u8) -> (text: &'static str)
    requires
        digit <= 9,
    ensures
        text@ == seq![digit_char(digit as int)],
{
    proof {
        reveal_strlit("0");
        reveal_strlit("1");
        reveal_strlit("2");
        reveal_strlit("3");
        reveal_strlit("4");
        reveal_strlit("5");
        reveal_strlit("6");
        reveal_strlit("7");
        reveal_strlit("8");
        reveal_strlit("9");
    }
    let text = match digit {
        0 => "0",
        1 => "1",
        2 => "2",
        3 => "3",
        4 => "4",
        5 => "5",
        6 => "6",
        7 => "7",
        8 => "8",
        _ => "9",
    };
    text
}

/// A number in decimal digits, without leading zeros.
pub fn decimal_string(number: u8) -> (text: String)
    ensures
        text@ == decimal_text(number as nat),
{
    let ones = number % 10;
    let tens = (number / 10) % 10;
    let hundreds = number / 100;
    let mut text = String::from_str("");
    proof {
        reveal_strlit("");
    }
    if number >= 100 {
        text.append(digit_str(hundreds));
    }
    if number >= 10 {
        text.append(digit_str(tens));
    }
    text.append(digit_str(ones));
    proof {
        reveal_with_fuel(decimal_text, 3);
    }
    text
}

/// What the window knows of the sensor: the device state and the breath
/// strength that were reported last.
#[derive(Debug, Clone, Copy, PartialEq, Eq, Structural)]
pub struct DeviceStatus {
    pub latest_device_state: DeviceState,
    pub latest_breath_value: i8,
}

impl DeviceStatus {
    /// The status after an event: a change of state is taken over and the
    /// breath strength starts anew at rest; a breath event sets the breath
    /// strength.
    pub open spec fn after(self, event: DeviceEvent) -> DeviceStatus {
        match event {
            DeviceEvent::StateChange(state) => DeviceStatus {
                latest_device_state: state,
                latest_breath_value: 0,
            },
            DeviceEvent::Breath(breath) => DeviceStatus { latest_breath_value: breath, ..self },
        }
    }

    /// The status before anything was reported.
    pub fn new() -> (status: DeviceStatus)
        ensures
            status == (DeviceStatus {
                latest_device_state: DeviceState::Initial,
                latest_breath_value: 0,
            }),
    {
        DeviceStatus { latest_device_state: DeviceState::Initial, latest_breath_value: 0 }
    }

    /// Takes an event of the sensor.
    pub fn on_event(&mut self, event: &DeviceEvent)
        ensures
            *final(self) == old(self).after(*event),
    {
        match event {
            DeviceEvent::StateChange(state) => {
                self.latest_device_state = *state;
                self.latest_breath_value = 0;
            },
            DeviceEvent::Breath(breath) => {
                self.latest_breath_value = *breath;
            },
        }
    }

    /// The line that tells the user how the sensor is doing.
    pub fn label(&self) -> (line: String)
        ensures
            line@ == status_line(self.latest_device_state, self.latest_breath_value),
    {
        match self.latest_device_state {
            DeviceState::Initial => {
                proof {
                    reveal_strlit("");
                }
                String::from_str("")
            },
            DeviceState::Scanning { no_permission: false } => String::from_str("Scanning…"),
            DeviceState::Scanning { no_permission: true } => String::from_str(
                "Not allowed to access Bluetooth!",
            ),
            DeviceState::Connecting => String::from_str("Connecting…"),
            DeviceState::Connected => {
                let breath = self.latest_breath_value;
                if breath < 0 {
                    let strength: u8 = (-(breath as i16)) as u8;
                    decimal_string(strength).concat("% sip")
                } else {
                    decimal_string(breath as u8).concat("% puff")
                }
            },
        }
    }
}

} // verus!
