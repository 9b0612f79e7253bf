//! The errors of the driver.

use vstd::prelude::*;

verus! {

/// Why a driver function failed.
#[derive(Clone, Copy, Debug, PartialEq, Eq, Structural)]
pub enum Error {
    UnsupportedHardware,
    HardwareNotSupported,
    ResetBlocked,
    PhyError,
    UnknownPhyType,
    FlashNotMapped,
    NoFunction,
    MaxFrameSizeNotSet,
    SpeedNotSet,
    InvalidHighWaterMark(i32),
    UlpConfigure,
    AutonegNotSet,
    SwLocked,
    SemaphoreBusy,
    ReceiveAddress(usize),
    NoValidNvmBank,
    NvmParameters,
    NvmParameter,
    FlashDescriptorInvalid,
    FlashBusy,
    FlashCycleTimeout,
    DwordAccessOnly,
    FlashSizeOrOffset,
    FlashOffsetOrHardware,
    FlashOffset,
    /// An error that a called function reported, by the number that the
    /// caller of this crate gave it.
    Reported(u32),
}

pub type AdResult = Result<(), Error>;

/// A decimal digit.
pub open spec fn digit(d: int) -> Seq<char> {
    if d == 0 {
        "0"@
    } else if d == 1 {
        "1"@
    } else if d == 2 {
        "2"@
    } else if d == 3 {
        "3"@
    } else if d == 4 {
        "4"@
    } else if d == 5 {
        "5"@
    } else if d == 6 {
        "6"@
    } else if d == 7 {
        "7"@
    } else if d == 8 {
        "8"@
    } else {
        "9"@
    }
}

/// A number in decimal.
pub open spec fn decimal(n: int) -> Seq<char>
    decreases n,
{
    if n < 10 {
        digit(n)
    } else {
        decimal(n / 10) + digit(n % 10)
    }
}

/// A number in decimal, with a sign if it is negative.
pub open spec fn signed_decimal(n: int) -> Seq<char> {
    if n < 0 {
        "-"@ + decimal(-n)
    } else {
        decimal(n)
    }
}

impl Error {
    /// The text of an error of this crate. What a called function reported
    /// has none here.
    pub open spec fn text(self) -> Option<Seq<char>> {
        match self {
            Error::UnsupportedHardware => Some("Unsupported hardware"@),
            Error::HardwareNotSupported => Some("This hardware is not supported"@),
            Error::ResetBlocked => Some("Reset blocked by ME"@),
            Error::PhyError => Some("PHY error"@),
            Error::UnknownPhyType => Some("Unknown phy type"@),
            Error::FlashNotMapped => Some("Flash registers not mapped"@),
            Error::NoFunction => Some("No function"@),
            Error::MaxFrameSizeNotSet => Some("Max frame size is not set"@),
            Error::SpeedNotSet => Some("Speed not set"@),
            Error::InvalidHighWaterMark(mark) => Some(
                "Invalid high water mark "@ + signed_decimal(mark as int),
            ),
            Error::UlpConfigure => Some("ULP configure"@),
            Error::AutonegNotSet => Some("Auto-Neg is not set"@),
            Error::SwLocked => Some("SW has already locked the resource"@),
            Error::SemaphoreBusy => Some("Failed to acquire the semaphore, FW or HW has it."@),
            Error::ReceiveAddress(index) => Some(
                "Failed to write receive address at index "@ + decimal(index as int),
            ),
            Error::NoValidNvmBank => Some("No valid NVM bank present"@),
            Error::NvmParameters => Some("nvm parameter(s) out of bounds"@),
            Error::NvmParameter => Some("nvm parameter out of bounds"@),
            Error::FlashDescriptorInvalid => Some(
                "Flash descriptor invalid. SW Sequencing must be used."@,
            ),
            Error::FlashBusy => Some("Flash controller busy, cannot get access"@),
            Error::FlashCycleTimeout => Some("Flash cycle timeout"@),
            Error::DwordAccessOnly => Some("Only 32 bit access supported in SPT"@),
            Error::FlashSizeOrOffset => Some("Size or offset out of bounds"@),
            Error::FlashOffsetOrHardware => Some("Offset too large or unsupported hardware"@),
            Error::FlashOffset => Some("offset > ICH_FLASH_LINEAR_ADDR_MASK"@),
            Error::Reported(_) => None,
        }
    }

    /// The text of the error, for those of this crate.
    pub fn message(&self) -> (res: Option<String>)
        ensures
            match res {
                Some(message) => self.text() == Some(message@),
                None => self.text() is None,
            },
    {
        let text: &str = match self {
            Error::UnsupportedHardware => "Unsupported hardware",
            Error::HardwareNotSupported => "This hardware is not supported",
            Error::ResetBlocked => "Reset blocked by ME",
            Error::PhyError => "PHY error",
            Error::UnknownPhyType => "Unknown phy type",
            Error::FlashNotMapped => "Flash registers not mapped",
            Error::NoFunction => "No function",
            Error::MaxFrameSizeNotSet => "Max frame size is not set",
            Error::SpeedNotSet => "Speed not set",
            Error::InvalidHighWaterMark(mark) => {
                let mark: i64 = *mark as i64;
                let mut out: String = "Invalid high water mark ".to_owned();
                if mark < 0 {
                    out.append("-");
                    append_decimal(&mut out, (-mark) as u64);
                } else {
                    append_decimal(&mut out, mark as u64);
                }
                assert(out@ =~= self.text()->0);
                return Some(out);
            },
            Error::UlpConfigure => "ULP configure",
            Error::AutonegNotSet => "Auto-Neg is not set",
            Error::SwLocked => "SW has already locked the resource",
            Error::SemaphoreBusy => "Failed to acquire the semaphore, FW or HW has it.",
            Error::ReceiveAddress(index) => {
                let mut out: String = "Failed to write receive address at index ".to_owned();
                append_decimal(&mut out, *index as u64);
                return Some(out);
            },
            Error::NoValidNvmBank => "No valid NVM bank present",
            Error::NvmParameters => "nvm parameter(s) out of bounds",
            Error::NvmParameter => "nvm parameter out of bounds",
            Error::FlashDescriptorInvalid => "Flash descriptor invalid. SW Sequencing must be used.",
            Error::FlashBusy => "Flash controller busy, cannot get access",
            Error::FlashCycleTimeout => "Flash cycle timeout",
            Error::DwordAccessOnly => "Only 32 bit access supported in SPT",
            Error::FlashSizeOrOffset => "Size or offset out of bounds",
            Error::FlashOffsetOrHardware => "Offset too large or unsupported hardware",
            Error::FlashOffset => "offset > ICH_FLASH_LINEAR_ADDR_MASK",
            Error::Reported(_) => {
                return None;
            },
        };
        Some(text.to_owned())
    }
}

fn digit_str(d: u64) -> (res: &'static str)
    requires
        d < 10,
    ensures
        res@ == digit(d as int),
{
    match d {
        0 => "0",
        1 => "1",
        2 => "2",
        3 => "3",
        4 => "4",
        5 => "5",
        6 => "6",
        7 => "7",
        8 => "8",
        _ => "9",
    }
}

fn append_decimal(out: &mut String, n: u64)
    ensures
        final(out)@ == old(out)@ + decimal(n as int),
    decreases n,
{
    if n >= 10 {
        append_decimal(out, n / 10);
    }
    out.append(digit_str(n % 10));
    assert(out@ =~= old(out)@ + decimal(n as int));
}

} // verus!
