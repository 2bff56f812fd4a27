//! What can go wrong, and how it is put into words.
use vstd::prelude::*;
use vstd::string::StringExecFns;

verus! {

/// Why a request could not be carried out.
#[derive(Debug, PartialEq, Eq)]
pub enum StateError {
    /// No device goes by this label.
    LabelNotFound { label: String },
    /// No device has this id.
    DeviceNotFound { id: String },
    /// There is no connection to the local network interface.
    LanUnavailable,
    /// The light of the device cannot be switched apart from the device.
    UnsupportedLightPower,
    UnableToUsePlatform,
    UnableToControlLightPower,
    UnableToControlPower,
    UnableToControlBrightness,
    UnableToControlColorTemperature,
    UnableToControlColor,
    UnableToControlHumidifier { work_mode: i64 },
    UnableToSetTemperature,
    UnableToSetScene,
    /// The outside call failed, for the reason it gives.
    CallFailed { reason: String },
}

/// The contents of a [`StateError`].
pub enum StateErrorView {
    LabelNotFound { label: Seq<char> },
    DeviceNotFound { id: Seq<char> },
    LanUnavailable,
    UnsupportedLightPower,
    UnableToUsePlatform,
    UnableToControlLightPower,
    UnableToControlPower,
    UnableToControlBrightness,
    UnableToControlColorTemperature,
    UnableToControlColor,
    UnableToControlHumidifier { work_mode: i64 },
    UnableToSetTemperature,
    UnableToSetScene,
    CallFailed { reason: Seq<char> },
}

impl DeepView for StateError {
    type V = StateErrorView;

    open spec fn deep_view(&self) -> StateErrorView {
        match self {
            StateError::LabelNotFound { label } => StateErrorView::LabelNotFound { label: label@ },
            StateError::DeviceNotFound { id } => StateErrorView::DeviceNotFound { id: id@ },
            StateError::LanUnavailable => StateErrorView::LanUnavailable,
            StateError::UnsupportedLightPower => StateErrorView::UnsupportedLightPower,
            StateError::UnableToUsePlatform => StateErrorView::UnableToUsePlatform,
            StateError::UnableToControlLightPower => StateErrorView::UnableToControlLightPower,
            StateError::UnableToControlPower => StateErrorView::UnableToControlPower,
            StateError::UnableToControlBrightness => StateErrorView::UnableToControlBrightness,
            StateError::UnableToControlColorTemperature =>
                StateErrorView::UnableToControlColorTemperature,
            StateError::UnableToControlColor => StateErrorView::UnableToControlColor,
            StateError::UnableToControlHumidifier { work_mode } =>
                StateErrorView::UnableToControlHumidifier { work_mode: *work_mode },
            StateError::UnableToSetTemperature => StateErrorView::UnableToSetTemperature,
            StateError::UnableToSetScene => StateErrorView::UnableToSetScene,
            StateError::CallFailed { reason } => StateErrorView::CallFailed { reason: reason@ },
        }
    }
}

impl View for StateError {
    type V = StateErrorView;

    open spec fn view(&self) -> StateErrorView {
        self.deep_view()
    }
}

/// The decimal digits of a natural number, without leading zeros.
pub open spec fn digits(n: nat) -> Seq<char>
    decreases n,
{
    let digit = ((48 + n % 10) as u32) as char;
    if n < 10 {
        seq![digit]
    } else {
        digits(n / 10).push(digit)
    }
}

/// A number in decimal notation, with a minus sign where it is negative.
pub open spec fn decimal(n: int) -> Seq<char> {
    if n < 0 {
        "-"@ + digits((-n) as nat)
    } else {
        digits(n as nat)
    }
}

impl StateErrorView {
    /// The error in words, for the device that is called `device`.
    pub open spec fn text(self, device: Seq<char>) -> Seq<char> {
        match self {
            StateErrorView::LabelNotFound { label } => "device '"@ + label + "' not found"@,
            StateErrorView::DeviceNotFound { id } => "Device not found: "@ + id,
            StateErrorView::LanUnavailable => "LAN control unavailable: no LAN client connected"@,
            StateErrorView::UnsupportedLightPower => "Unsupported light-only power command for "@
                + device
                + ". Please share the device metadata and state if you report this issue"@,
            StateErrorView::UnableToUsePlatform => "Unable to use Platform API to control "@
                + device,
            StateErrorView::UnableToControlLightPower =>
                "Unable to control light power state for "@ + device,
            StateErrorView::UnableToControlPower => "Unable to control power state for "@ + device,
            StateErrorView::UnableToControlBrightness => "Unable to control brightness for "@
                + device,
            StateErrorView::UnableToControlColorTemperature =>
                "Unable to control color temperature for "@ + device,
            StateErrorView::UnableToControlColor => "Unable to control color for "@ + device,
            StateErrorView::UnableToControlHumidifier { work_mode } =>
                "Unable to control humidifier parameter work_mode="@ + decimal(work_mode as int)
                    + " for "@ + device,
            StateErrorView::UnableToSetTemperature => "Unable to set temperature for "@ + device,
            StateErrorView::UnableToSetScene => "Unable to set scene for "@ + device,
            StateErrorView::CallFailed { reason } => reason,
        }
    }
}

/// The character of a digit.
fn digit_text(digit: u64) -> (res: &'static str)
    requires
        digit < 10,
    ensures
        res@ == seq![((48 + digit) as u32) as char],
{
    proof {
        reveal_strlit("0");
        reveal_strlit("1");
        reveal_strlit("2");
        reveal_strlit("3");
        reveal_strlit("4");
        reveal_strlit("5");
        reveal_strlit("6");
        reveal_strlit("7");
        reveal_strlit("8");
        reveal_strlit("9");
    }
    let res = match digit {
        0 => "0",
        1 => "1",
        2 => "2",
        3 => "3",
        4 => "4",
        5 => "5",
        6 => "6",
        7 => "7",
        8 => "8",
        _ => "9",
    };
    assert(res@ == seq![((48 + digit) as u32) as char]);
    res
}

/// Writes a natural number in decimal notation.
fn write_digits(n: u64) -> (res: String)
    ensures
        res@ == digits(n as nat),
    decreases n,
{
    if n < 10 {
        digit_text(n).to_string()
    } else {
        let mut res = write_digits(n / 10);
        let ghost front = res@;
        res.append(digit_text(n % 10));
        assert(res@ == front.push(((48 + n % 10) as u32) as char));
        res
    }
}

/// Writes a number in decimal notation.
fn write_decimal(n: i64) -> (res: String)
    ensures
        res@ == decimal(n as int),
{
    if n >= 0 {
        write_digits(n as u64)
    } else {
        let magnitude: u64 = (-(n + 1)) as u64 + 1;
        let mut res = "-".to_string();
        res.append(&write_digits(magnitude));
        res
    }
}

/// Puts a text between two others.
fn sentence(before: &str, middle: &str, after: &str) -> (res: String)
    ensures
        res@ == before@ + middle@ + after@,
{
    let mut res = before.to_string();
    res.append(middle);
    res.append(after);
    res
}

impl StateError {
    /// The error in words, for the device that is called `device`.
    pub fn message(&self, device: &str) -> (res: String)
        ensures
            res@ == self@.text(device@),
    {
        proof {
            reveal_strlit("");
        }
        match self {
            StateError::LabelNotFound { label } => sentence("device '", label, "' not found"),
            StateError::DeviceNotFound { id } => sentence("Device not found: ", id, ""),
            StateError::LanUnavailable =>
                "LAN control unavailable: no LAN client connected".to_string(),
            StateError::UnsupportedLightPower => sentence(
                "Unsupported light-only power command for ",
                device,
                ". Please share the device metadata and state if you report this issue",
            ),
            StateError::UnableToUsePlatform => sentence(
                "Unable to use Platform API to control ",
                device,
                "",
            ),
            StateError::UnableToControlLightPower => sentence(
                "Unable to control light power state for ",
                device,
                "",
            ),
            StateError::UnableToControlPower => sentence(
                "Unable to control power state for ",
                device,
                "",
            ),
            StateError::UnableToControlBrightness => sentence(
                "Unable to control brightness for ",
                device,
                "",
            ),
            StateError::UnableToControlColorTemperature => sentence(
                "Unable to control color temperature for ",
                device,
                "",
            ),
            StateError::UnableToControlColor => sentence(
                "Unable to control color for ",
                device,
                "",
            ),
            StateError::UnableToControlHumidifier { work_mode } => {
                let mut res = sentence(
                    "Unable to control humidifier parameter work_mode=",
                    &write_decimal(*work_mode),
                    " for ",
                );
                res.append(device);
                res
            },
            StateError::UnableToSetTemperature => sentence(
                "Unable to set temperature for ",
                device,
                "",
            ),
            StateError::UnableToSetScene => sentence("Unable to set scene for ", device, ""),
            StateError::CallFailed { reason } => reason.clone(),
        }
    }
}

} // verus!
