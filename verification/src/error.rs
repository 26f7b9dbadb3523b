use vstd::prelude::*;
use vstd::string::*;

verus! {

/// Why talking to the sensor failed.
#[derive(Debug, Clone, Copy, PartialEq, Eq, Structural)]
pub enum DeviceError {
    /// The Bluetooth stack reported an error. `permission_denied` is set when
    /// the error says that this program may not use Bluetooth.
    Btle { permission_denied: bool },
    /// The peripheral lacks the data characteristic of the sensor.
    MissingCharacteristic,
}

impl DeviceError {
    /// Whether the error says that this program may not use Bluetooth.
    pub open spec fn permission_denied(self) -> bool {
        self matches DeviceError::Btle { permission_denied } && permission_denied
    }

    /// Whether the error says that this program may not use Bluetooth.
    pub fn is_permission_denied(&self) -> (denied: bool)
        ensures
            denied == self.permission_denied(),
    {
        match self {
            DeviceError::Btle { permission_denied } => *permission_denied,
            DeviceError::MissingCharacteristic => false,
        }
    }
}

/// Why reading or writing the stored hotkey table failed.
#[derive(Debug, Clone, Copy, PartialEq, Eq, Structural)]
pub enum ConfigError {
    /// No place for the file could be determined.
    NoConfigPath,
    /// The file is locked, most likely by this program running already.
    CanNotLock,
    /// The file does not hold UTF-8.
    Utf8Error,
    /// Reading or writing failed. `not_found` is set when the error says that
    /// the file does not exist.
    IOError { not_found: bool },
    /// The file does not hold a hotkey table.
    JsonError,
    /// The table could not be handed on.
    SendError,
}

impl ConfigError {
    /// The error says that the file does not exist.
    pub open spec fn file_not_found(self) -> bool {
        self matches ConfigError::IOError { not_found } && not_found
    }

    /// Whether the error says that the file does not exist.
    pub fn is_file_not_found_error(&self) -> (not_found: bool)
        ensures
            not_found == self.file_not_found(),
    {
        match self {
            ConfigError::IOError { not_found } => *not_found,
            _ => false,
        }
    }
}

/// The text that stands for the payload of a panic that is neither a string
/// slice nor a string.
pub open spec fn unknown_payload() -> Seq<char> {
    "???"@
}

/// The report of a panic in a thread: the type of the payload and its text in
/// square brackets.
pub open spec fn panic_report(type_id: Seq<char>, payload: Option<Seq<char>>) -> Seq<char> {
    "panic from thread: ["@ + type_id + "]: ["@ + match payload {
        Some(text) => text,
        None => unknown_payload(),
    } + "]"@
}

/// Puts the payload of a panic in a thread into words. `type_id` is the type
/// of the payload as text; `payload` is its text where it is a string slice or
/// a string.
pub fn readable_thread_panic_error(type_id: &str, payload: Option<&str>) -> (report: String)
    ensures
        report@ == panic_report(
            type_id@,
            match payload {
                Some(text) => Some(text@),
                None => None,
            },
        ),
{
    let text = match payload {
        Some(text) => text,
        None => "???",
    };
    let mut report = String::from_str("panic from thread: [");
    report.append(type_id);
    report.append("]: [");
    report.append(text);
    report.append("]");
    report
}

} // verus!
