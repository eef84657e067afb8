//! The data model shared by the device classifier, the engine and its caller.

use vstd::prelude::*;

verus! {

/// How a storage device is attached to the machine.
#[derive(Debug, Clone, Copy, PartialEq, Eq, Structural)]
pub enum DeviceConnectionType {
    /// On an internal bus: ATA, NVMe or virtio.
    Internal,
    /// On a USB port of the machine.
    Usb,
    /// On a USB port behind at least one hub.
    UsbHub,
    /// Nothing in the device topology tells.
    Unknown,
}

impl DeviceConnectionType {
    /// The label of a connection type.
    pub open spec fn label(self) -> Seq<char> {
        match self {
            DeviceConnectionType::Internal => "Internal"@,
            DeviceConnectionType::Usb => "USB"@,
            DeviceConnectionType::UsbHub => "USB Hub"@,
            DeviceConnectionType::Unknown => "Unknown"@,
        }
    }

    /// The label shown for this connection type.
    pub fn as_str(&self) -> (s: &'static str)
        ensures
            s@ == self.label(),
    {
        match self {
            DeviceConnectionType::Internal => "Internal",
            DeviceConnectionType::Usb => "USB",
            DeviceConnectionType::UsbHub => "USB Hub",
            DeviceConnectionType::Unknown => "Unknown",
        }
    }
}

/// A storage device that may be chosen as the target of an imaging job. It
/// is a snapshot: enumerating again makes new values.
#[derive(Debug, Clone, PartialEq, Eq)]
pub struct BlockDevice {
    /// Absolute path of the device file.
    pub path: String,
    /// Model string, trimmed; `Unknown` where the device gives none.
    pub model: String,
    /// Vendor string, trimmed; `Unknown` where the device gives none.
    pub vendor: String,
    /// Capacity in bytes.
    pub capacity_bytes: u64,
    /// Whether the device flags itself as removable.
    pub is_removable: bool,
    /// How the device is attached.
    pub connection_type: DeviceConnectionType,
}

/// The mathematical value of a `BlockDevice`.
pub struct BlockDeviceView {
    pub path: Seq<char>,
    pub model: Seq<char>,
    pub vendor: Seq<char>,
    pub capacity_bytes: u64,
    pub is_removable: bool,
    pub connection_type: DeviceConnectionType,
}

impl View for BlockDevice {
    type V = BlockDeviceView;

    open spec fn view(&self) -> BlockDeviceView {
        BlockDeviceView {
            path: self.path@,
            model: self.model@,
            vendor: self.vendor@,
            capacity_bytes: self.capacity_bytes,
            is_removable: self.is_removable,
            connection_type: self.connection_type,
        }
    }
}

/// How far a write or a verify phase has come.
#[derive(Debug, Clone, Copy, PartialEq, Eq, Structural)]
pub struct Progress {
    /// Bytes written or verified so far.
    pub bytes_processed: u64,
    /// Bytes to write or verify in all.
    pub total_bytes: u64,
    /// Throughput since the phase started.
    pub bytes_per_second: u64,
}

impl Progress {
    /// The seconds that the rest of the phase takes at the current
    /// throughput; none while the throughput is zero.
    pub open spec fn eta(self) -> Option<int> {
        if self.bytes_per_second == 0 {
            None
        } else if self.bytes_processed >= self.total_bytes {
            Some(0)
        } else {
            Some((self.total_bytes - self.bytes_processed) / self.bytes_per_second as int)
        }
    }

    /// Estimated seconds remaining.
    pub fn eta_seconds(&self) -> (r: Option<u64>)
        ensures
            match r {
                Some(s) => self.eta() == Some(s as int),
                None => self.eta() is None,
            },
    {
        if self.bytes_per_second == 0 {
            return None;
        }
        let remaining: u64 = if self.bytes_processed >= self.total_bytes {
            0
        } else {
            self.total_bytes - self.bytes_processed
        };
        Some(remaining / self.bytes_per_second)
    }
}

/// What the application is doing.
#[derive(Debug, Clone, PartialEq, Eq)]
pub enum OperationState {
    Idle,
    Writing,
    Verifying,
    Complete,
    Failed(String),
}

} // verus!
