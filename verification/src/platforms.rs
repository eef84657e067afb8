//! Platform detection: what kind of image a file is, told from its name,
//! and what that means for writing and verifying it.

use crate::paths::{file_name, path_file_name};
use crate::text::{chars_of, contains, holds, lowercase_of, to_lowercase};
use vstd::prelude::*;

verus! {

/// How written data is verified.
#[derive(Debug, Clone, Copy, PartialEq, Eq, Structural)]
pub enum VerificationStrategy {
    /// Read the whole image back and compare byte by byte.
    FullByteCheck,
    /// Compare checksums.
    ChecksumOnly,
    /// Verify the boot sector and the critical sections.
    BootSectorCheck,
    /// Verify the structures of a firmware image.
    FirmwareCheck,
}

/// The platform an image is for.
#[derive(Debug, Clone, Copy, PartialEq, Eq, Structural)]
pub enum Platform {
    WindowsISO,
    LinuxISO,
    GenericISO,
    RaspberryPi,
    OrangePi,
    ESP32,
    Arduino,
    Unknown,
}

/// Whether a lower-case file name tells of a Windows image.
pub open spec fn names_windows(name: Seq<char>) -> bool {
    contains(name, "windows"@) || contains(name, "win10"@) || contains(name, "win11"@)
}

/// Whether a lower-case file name tells of a Raspberry Pi image.
pub open spec fn names_raspberrypi(name: Seq<char>) -> bool {
    contains(name, "raspberrypi"@) || contains(name, "raspi"@) || contains(name, "rpi"@)
        || contains(name, "raspberry"@)
}

/// Whether a lower-case file name tells of an Orange Pi image.
pub open spec fn names_orangepi(name: Seq<char>) -> bool {
    contains(name, "orangepi"@) || contains(name, "orange-pi"@)
}

/// Whether a lower-case file name tells of an ESP32 image.
pub open spec fn names_esp32(name: Seq<char>) -> bool {
    contains(name, "esp32"@) || contains(name, "micropython"@)
}

/// Whether a lower-case file name tells of an Arduino image.
pub open spec fn names_arduino(name: Seq<char>) -> bool {
    contains(name, "arduino"@) || contains(name, "avr"@)
}

/// Whether a lower-case file name tells of a Linux image.
pub open spec fn names_linux(name: Seq<char>) -> bool {
    contains(name, "ubuntu"@) || contains(name, "fedora"@) || contains(name, "debian"@)
        || contains(name, "arch"@) || contains(name, "manjaro"@) || contains(name, "gentoo"@)
        || contains(name, "opensuse"@) || contains(name, "linux"@) || contains(name, ".iso"@)
}

/// The platform that a lower-case file name tells of. The tests come in
/// this order, and the first that holds decides.
pub open spec fn platform_of(name: Seq<char>) -> Platform {
    if names_windows(name) {
        Platform::WindowsISO
    } else if names_raspberrypi(name) {
        Platform::RaspberryPi
    } else if names_orangepi(name) {
        Platform::OrangePi
    } else if names_esp32(name) {
        Platform::ESP32
    } else if names_arduino(name) {
        Platform::Arduino
    } else if names_linux(name) {
        Platform::LinuxISO
    } else {
        Platform::GenericISO
    }
}

/// The final component of a path, or the empty text where it has none.
pub open spec fn name_or_empty(path: Seq<char>) -> Seq<char> {
    match file_name(path) {
        Some(name) => name,
        None => Seq::empty(),
    }
}

impl Platform {
    /// Detects the platform from the path of an image: from the lower-case
    /// form of its file name.
    pub fn from_iso_path(path: &str) -> (p: Self)
        ensures
            p == platform_of(lowercase_of(name_or_empty(path@))),
    {
        let chars = chars_of(path);
        let name: String = match path_file_name(chars.as_slice()) {
            Some(name) => crate::text::string_of(name),
            None => String::new(),
        };
        let lower = to_lowercase(name.as_str());
        Self::from_file_name(lower.as_str())
    }

    /// Detects the platform from a file name that is in lower case already.
    pub fn from_file_name(filename: &str) -> (p: Self)
        ensures
            p == platform_of(filename@),
    {
        if Self::is_windows(filename) {
            Platform::WindowsISO
        } else if Self::is_raspberrypi(filename) {
            Platform::RaspberryPi
        } else if Self::is_orangepi(filename) {
            Platform::OrangePi
        } else if Self::is_esp32(filename) {
            Platform::ESP32
        } else if Self::is_arduino(filename) {
            Platform::Arduino
        } else if Self::is_linux(filename) {
            Platform::LinuxISO
        } else {
            Platform::GenericISO
        }
    }

    /// The name of the icon that stands for each platform.
    pub open spec fn icon(self) -> Seq<char> {
        match self {
            Platform::WindowsISO => "windows-symbolic"@,
            Platform::LinuxISO => "linux-symbolic"@,
            Platform::RaspberryPi => "media-removable-symbolic"@,
            Platform::OrangePi => "media-removable-symbolic"@,
            Platform::ESP32 => "hardware-symbolic"@,
            Platform::Arduino => "hardware-symbolic"@,
            Platform::GenericISO => "media-optical-symbolic"@,
            Platform::Unknown => "help-faq-symbolic"@,
        }
    }

    /// The name of the icon for this platform.
    pub fn icon_name(&self) -> (s: &'static str)
        ensures
            s@ == self.icon(),
    {
        match self {
            Platform::WindowsISO => "windows-symbolic",
            Platform::LinuxISO => "linux-symbolic",
            Platform::RaspberryPi => "media-removable-symbolic",
            Platform::OrangePi => "media-removable-symbolic",
            Platform::ESP32 => "hardware-symbolic",
            Platform::Arduino => "hardware-symbolic",
            Platform::GenericISO => "media-optical-symbolic",
            Platform::Unknown => "help-faq-symbolic",
        }
    }

    /// The name shown for each platform.
    pub open spec fn label(self) -> Seq<char> {
        match self {
            Platform::WindowsISO => "Windows"@,
            Platform::LinuxISO => "Linux"@,
            Platform::RaspberryPi => "Raspberry Pi"@,
            Platform::OrangePi => "Orange Pi"@,
            Platform::ESP32 => "ESP32"@,
            Platform::Arduino => "Arduino"@,
            Platform::GenericISO => "ISO Image"@,
            Platform::Unknown => "Unknown"@,
        }
    }

    /// The name shown for this platform.
    pub fn display_name(&self) -> (s: &'static str)
        ensures
            s@ == self.label(),
    {
        match self {
            Platform::WindowsISO => "Windows",
            Platform::LinuxISO => "Linux",
            Platform::RaspberryPi => "Raspberry Pi",
            Platform::OrangePi => "Orange Pi",
            Platform::ESP32 => "ESP32",
            Platform::Arduino => "Arduino",
            Platform::GenericISO => "ISO Image",
            Platform::Unknown => "Unknown",
        }
    }

    /// Whether images for the platform need special handling: those for
    /// single-board computers and microcontrollers do.
    pub fn requires_special_handling(&self) -> (r: bool)
        ensures
            r == (*self == Platform::RaspberryPi || *self == Platform::OrangePi || *self
                == Platform::ESP32 || *self == Platform::Arduino),
    {
        match self {
            Platform::RaspberryPi | Platform::OrangePi | Platform::ESP32 | Platform::Arduino => {
                true
            },
            _ => false,
        }
    }

    /// The buffer size in megabytes and the chunk size in kilobytes that
    /// suit each platform.
    pub open spec fn optimization(self) -> (usize, usize) {
        match self {
            Platform::WindowsISO | Platform::LinuxISO | Platform::GenericISO => (16, 4096),
            Platform::RaspberryPi => (4, 512),
            Platform::OrangePi => (8, 1024),
            Platform::ESP32 | Platform::Arduino => (1, 64),
            Platform::Unknown => (4, 512),
        }
    }

    /// The buffer size in megabytes and the chunk size in kilobytes to
    /// write an image for this platform with.
    pub fn write_optimization(&self) -> (r: (usize, usize))
        ensures
            r == self.optimization(),
    {
        match self {
            Platform::WindowsISO | Platform::LinuxISO | Platform::GenericISO => (16, 4096),
            Platform::RaspberryPi => (4, 512),
            Platform::OrangePi => (8, 1024),
            Platform::ESP32 | Platform::Arduino => (1, 64),
            Platform::Unknown => (4, 512),
        }
    }

    /// How an image for each platform is verified.
    pub open spec fn strategy(self) -> VerificationStrategy {
        match self {
            Platform::WindowsISO | Platform::LinuxISO => VerificationStrategy::FullByteCheck,
            Platform::GenericISO => VerificationStrategy::ChecksumOnly,
            Platform::RaspberryPi | Platform::OrangePi => VerificationStrategy::BootSectorCheck,
            Platform::ESP32 | Platform::Arduino => VerificationStrategy::FirmwareCheck,
            Platform::Unknown => VerificationStrategy::ChecksumOnly,
        }
    }

    /// How an image for this platform is verified.
    pub fn verification_strategy(&self) -> (r: VerificationStrategy)
        ensures
            r == self.strategy(),
    {
        match self {
            Platform::WindowsISO | Platform::LinuxISO => VerificationStrategy::FullByteCheck,
            Platform::GenericISO => VerificationStrategy::ChecksumOnly,
            Platform::RaspberryPi | Platform::OrangePi => VerificationStrategy::BootSectorCheck,
            Platform::ESP32 | Platform::Arduino => VerificationStrategy::FirmwareCheck,
            Platform::Unknown => VerificationStrategy::ChecksumOnly,
        }
    }

    /// The speed class recommended for each platform.
    pub open spec fn speed_class(self) -> Seq<char> {
        match self {
            Platform::RaspberryPi | Platform::OrangePi => "USB 3.0+ (20+ MB/s)"@,
            _ => "USB 2.0+"@,
        }
    }

    /// The speed class of the device recommended for this platform.
    pub fn recommended_speed(&self) -> (s: &'static str)
        ensures
            s@ == self.speed_class(),
    {
        match self {
            Platform::RaspberryPi | Platform::OrangePi => "USB 3.0+ (20+ MB/s)",
            _ => "USB 2.0+",
        }
    }

    /// Tests a lower-case file name for a Windows image.
    pub fn is_windows(filename: &str) -> (r: bool)
        ensures
            r == names_windows(filename@),
    {
        let name = chars_of(filename);
        let s = name.as_slice();
        holds(s, "windows") || holds(s, "win10") || holds(s, "win11")
    }

    /// Tests a lower-case file name for a Raspberry Pi image.
    pub fn is_raspberrypi(filename: &str) -> (r: bool)
        ensures
            r == names_raspberrypi(filename@),
    {
        let name = chars_of(filename);
        let s = name.as_slice();
        holds(s, "raspberrypi") || holds(s, "raspi") || holds(s, "rpi") || holds(s, "raspberry")
    }

    /// Tests a lower-case file name for an Orange Pi image.
    pub fn is_orangepi(filename: &str) -> (r: bool)
        ensures
            r == names_orangepi(filename@),
    {
        let name = chars_of(filename);
        let s = name.as_slice();
        holds(s, "orangepi") || holds(s, "orange-pi")
    }

    /// Tests a lower-case file name for an ESP32 image.
    pub fn is_esp32(filename: &str) -> (r: bool)
        ensures
            r == names_esp32(filename@),
    {
        let name = chars_of(filename);
        let s = name.as_slice();
        holds(s, "esp32") || holds(s, "micropython")
    }

    /// Tests a lower-case file name for an Arduino image.
    pub fn is_arduino(filename: &str) -> (r: bool)
        ensures
            r == names_arduino(filename@),
    {
        let name = chars_of(filename);
        let s = name.as_slice();
        holds(s, "arduino") || holds(s, "avr")
    }

    /// Tests a lower-case file name for a Linux image.
    pub fn is_linux(filename: &str) -> (r: bool)
        ensures
            r == names_linux(filename@),
    {
        let name = chars_of(filename);
        let s = name.as_slice();
        holds(s, "ubuntu") || holds(s, "fedora") || holds(s, "debian") || holds(s, "arch")
            || holds(s, "manjaro") || holds(s, "gentoo") || holds(s, "opensuse") || holds(
            s,
            "linux",
        ) || holds(s, ".iso")
    }
}

} // verus!
