use etch::io::devices::{
    base_name, detect_connection_type, get_root_device, list_removable_devices, select_device,
    validate_device, DeviceError, DeviceProbe, NodeKind,
};
use etch::models::DeviceConnectionType::{Internal, Unknown, Usb, UsbHub};
use etch::models::{BlockDevice, DeviceConnectionType};

const MOUNTS: &str = "sysfs /sys sysfs rw,nosuid 0 0\n\
proc /proc proc rw 0 0\n\
/dev/sda2 / ext4 rw,relatime 0 0\n\
/dev/sda1 /boot/efi vfat rw 0 0\n\
/dev/sdc1 /media/stick vfat rw 0 0\n";

fn probe(name: &str, topology: &str, removable: &str, size: &str) -> DeviceProbe {
    DeviceProbe {
        name: name.to_string(),
        topology: Some(topology.to_string()),
        removable: Some(removable.to_string()),
        model: Some(" Cruzer Blade   \n".to_string()),
        vendor: Some("SanDisk \n".to_string()),
        size: Some(size.to_string()),
    }
}

const USB: &str = "../devices/pci0000:00/0000:00:14.0/usb2/2-1/2-1:1.0/host6/target6:0:0/6:0:0:0/block/sdb";
const HUB: &str = "../devices/pci0000:00/0000:00:14.0/usb2/2-1/usb3/2-1.4:1.0/host6/block/sdd";
const ATA: &str = "../devices/pci0000:00/0000:00:17.0/ata1/host0/target0:0:0/0:0:0:0/block/sda";
const NVME: &str = "../devices/pci0000:00/0000:00:1d.0/0000:3d:00.0/nvme/nvme0/nvme0n1";
const VIRTIO: &str = "../devices/pci0000:00/0000:00:04.0/virtio1/block/vda";
const PLAIN: &str = "../devices/platform/soc/mmc0/block/mmcblk0";

fn base(name: &str) -> String {
    let chars: Vec<char> = name.chars().collect();
    base_name(&chars).iter().collect()
}

#[test]
fn partition_numbers_are_stripped() {
    assert_eq!(base("sda1"), "sda");
    assert_eq!(base("sda"), "sda");
    assert_eq!(base("sdb12"), "sdb");
    assert_eq!(base("nvme0n1p1"), "nvme0n1");
    assert_eq!(base("nvme0n1p12"), "nvme0n1");
    assert_eq!(base("nvme0n1"), "nvme0n1");
    assert_eq!(base("nvme1n2p"), "nvme1n2p");
    assert_eq!(base("md0"), "md");
    assert_eq!(base("mmcblk0p1"), "mmcblk0p");
    assert_eq!(base("42"), "");
    assert_eq!(base(""), "");
}

#[test]
fn the_root_device_is_read_from_the_mount_table() {
    assert_eq!(get_root_device(MOUNTS), Some("sda".to_string()));
    assert_eq!(get_root_device("/dev/nvme0n1p1 / ext4 rw 0 0\n"), Some("nvme0n1".to_string()));
    assert_eq!(get_root_device("/dev/sda1 / ext4 rw 0 0"), Some("sda".to_string()));
    assert_eq!(get_root_device("/dev/mapper/vg-root / ext4 rw 0 0\n"), Some("vg-root".to_string()));
    assert_eq!(get_root_device("overlay / overlay rw 0 0\n"), Some("overlay".to_string()));
    // The first entry for the root decides.
    assert_eq!(
        get_root_device("rootfs / rootfs rw 0 0\n/dev/sdb3 / ext4 rw 0 0\n"),
        Some("rootfs".to_string())
    );
    assert_eq!(get_root_device("/dev/sda1 /boot vfat rw 0 0\n"), None);
    assert_eq!(get_root_device(""), None);
    assert_eq!(get_root_device("/\n"), None);
    assert_eq!(get_root_device(".. / ext4 rw 0 0\n/dev/sda1 / ext4 rw 0 0\n"), None);
}

#[test]
fn the_connection_is_told_from_the_topology() {
    assert_eq!(detect_connection_type(Some(USB), Some("0\n")), Usb);
    assert_eq!(detect_connection_type(Some(HUB), Some("1\n")), UsbHub);
    assert_eq!(detect_connection_type(Some(ATA), Some("1\n")), Internal);
    assert_eq!(detect_connection_type(Some(NVME), None), Internal);
    assert_eq!(detect_connection_type(Some(VIRTIO), Some("0")), Internal);
    assert_eq!(detect_connection_type(Some(PLAIN), Some("1\n")), Usb);
    assert_eq!(detect_connection_type(Some(PLAIN), Some("0\n")), Unknown);
    assert_eq!(detect_connection_type(Some(PLAIN), Some("01")), Unknown);
    assert_eq!(detect_connection_type(Some(PLAIN), None), Unknown);
    assert_eq!(detect_connection_type(None, Some(" 1 ")), Usb);
    assert_eq!(detect_connection_type(None, None), Unknown);
    // A USB segment wins over an ATA segment.
    assert_eq!(detect_connection_type(Some("/ata1/usb1/x"), None), Usb);
}

#[test]
fn connection_types_have_labels() {
    assert_eq!(DeviceConnectionType::Internal.as_str(), "Internal");
    assert_eq!(DeviceConnectionType::Usb.as_str(), "USB");
    assert_eq!(DeviceConnectionType::UsbHub.as_str(), "USB Hub");
    assert_eq!(DeviceConnectionType::Unknown.as_str(), "Unknown");
}

#[test]
fn a_usb_stick_is_offered_with_its_particulars() {
    assert_eq!(
        select_device(&probe("sdb", USB, "1\n", "30031872\n"), Some("sda")),
        Some(BlockDevice {
            path: "/dev/sdb".to_string(),
            model: "Cruzer Blade".to_string(),
            vendor: "SanDisk".to_string(),
            capacity_bytes: 30031872 * 512,
            is_removable: true,
            connection_type: DeviceConnectionType::Usb,
        })
    );
}

#[test]
fn missing_attributes_read_as_unknown_and_zero() {
    let bare = DeviceProbe {
        name: "sdb".to_string(),
        topology: Some(USB.to_string()),
        removable: None,
        model: None,
        vendor: None,
        size: Some("8".to_string()),
    };
    assert_eq!(
        select_device(&bare, None),
        Some(BlockDevice {
            path: "/dev/sdb".to_string(),
            model: "Unknown".to_string(),
            vendor: "Unknown".to_string(),
            capacity_bytes: 4096,
            is_removable: false,
            connection_type: DeviceConnectionType::Usb,
        })
    );
    let sizeless = DeviceProbe { size: None, ..bare.clone() };
    assert_eq!(select_device(&sizeless, None), None);
    let huge = DeviceProbe { size: Some("18446744073709551615".to_string()), ..bare };
    assert_eq!(select_device(&huge, None).map(|d| d.capacity_bytes), Some(u64::MAX));
}

#[test]
fn the_root_device_is_never_offered() {
    // Not even where it is flagged removable and sits on USB.
    assert_eq!(select_device(&probe("sda", USB, "1", "100"), Some("sda")), None);
    assert_eq!(select_device(&probe("nvme0n1", USB, "1", "100"), Some("nvme0n1")), None);
    // Nor a device that the root device is the whole of.
    assert_eq!(select_device(&probe("md0", USB, "1", "100"), Some("md")), None);
    assert!(select_device(&probe("sdab", USB, "1", "100"), Some("sda")).is_some());
    assert!(select_device(&probe("sda", USB, "1", "100"), None).is_some());
}

#[test]
fn internal_and_unknown_devices_are_offered_only_if_removable() {
    assert_eq!(select_device(&probe("sdb", ATA, "0", "100"), None), None);
    assert_eq!(select_device(&probe("nvme1n1", NVME, "0", "100"), None), None);
    assert_eq!(select_device(&probe("mmcblk0", PLAIN, "0", "100"), None), None);
    let d = select_device(&probe("sdb", ATA, "1", "100"), None).unwrap();
    assert_eq!((d.is_removable, d.connection_type), (true, DeviceConnectionType::Internal));
    let d = select_device(&probe("sde", HUB, "0", "100"), None).unwrap();
    assert_eq!((d.is_removable, d.connection_type), (false, DeviceConnectionType::UsbHub));
}

#[test]
fn virtual_and_empty_devices_are_left_out() {
    for name in ["loop0", "ram1", "dm-0", "sr0", "srx"] {
        assert_eq!(select_device(&probe(name, USB, "1", "100"), None), None);
    }
    assert!(select_device(&probe("sloop", USB, "1", "100"), None).is_some());
    assert_eq!(select_device(&probe("sdb", USB, "1", "0"), None), None);
    assert_eq!(select_device(&probe("sdb", USB, "1", "many"), None), None);
}

#[test]
fn devices_are_listed_in_the_order_of_their_probes() {
    let probes = vec![
        probe("loop0", PLAIN, "0", "100"),
        probe("sdd", HUB, "0", "2000"),
        probe("sda", ATA, "0", "1000000"),
        probe("sdb", USB, "1", "30031872"),
        probe("nvme0n1", NVME, "0", "500000"),
        probe("sdc", ATA, "1", "4000"),
    ];
    let names = |mounts: Option<&str>| -> Vec<String> {
        list_removable_devices(&probes, mounts).into_iter().map(|d| d.path).collect()
    };
    assert_eq!(names(Some(MOUNTS)), vec!["/dev/sdd", "/dev/sdb", "/dev/sdc"]);
    assert_eq!(names(None), vec!["/dev/sdd", "/dev/sdb", "/dev/sdc"]);
    assert_eq!(names(Some("/dev/sdb1 / ext4 rw 0 0\n")), vec!["/dev/sdd", "/dev/sdc"]);
    assert_eq!(list_removable_devices(&[], Some(MOUNTS)), Vec::new());
}

#[test]
fn a_target_is_checked_in_order() {
    assert_eq!(validate_device("/dev/sdb", NodeKind::Missing, None), Err(DeviceError::NotFound));
    assert_eq!(
        validate_device("/dev/sdb", NodeKind::RegularFile, Some(MOUNTS)),
        Err(DeviceError::NotBlockDevice)
    );
    assert_eq!(
        validate_device("/dev/sdb", NodeKind::Other, Some(MOUNTS)),
        Err(DeviceError::NotBlockDevice)
    );
    assert_eq!(
        validate_device("/dev/sdb", NodeKind::BlockDevice, None),
        Err(DeviceError::MountTableUnreadable)
    );
    assert_eq!(
        validate_device("/dev/..", NodeKind::BlockDevice, Some(MOUNTS)),
        Err(DeviceError::InvalidPath)
    );
    assert_eq!(validate_device("/dev/sdb", NodeKind::BlockDevice, Some(MOUNTS)), Ok(()));
    assert_eq!(validate_device("/dev/sdb", NodeKind::BlockDevice, Some("")), Ok(()));
}

#[test]
fn a_mounted_target_is_refused() {
    let check = |path: &str| validate_device(path, NodeKind::BlockDevice, Some(MOUNTS));
    // A partition of the device is mounted.
    assert_eq!(check("/dev/sdc"), Err(DeviceError::Mounted));
    // The partition itself is mounted.
    assert_eq!(check("/dev/sdc1"), Err(DeviceError::Mounted));
    // The device of the root filesystem is mounted as well.
    assert_eq!(check("/dev/sda"), Err(DeviceError::Mounted));
    // Any entry that begins with the name counts.
    assert_eq!(check("/dev/sd"), Err(DeviceError::Mounted));
    assert_eq!(check("/dev/sdc2"), Ok(()));
    // A line that only mentions the device later does not count.
    assert_eq!(
        validate_device("/dev/sdb", NodeKind::BlockDevice, Some("tmpfs /dev/sdb tmpfs rw 0 0\n")),
        Ok(())
    );
}

#[test]
fn the_root_device_is_refused_even_where_no_entry_begins_with_it() {
    let mounts = "/dev/mapper/md0 / ext4 rw 0 0\n";
    assert_eq!(
        validate_device("/dev/md", NodeKind::BlockDevice, Some(mounts)),
        Err(DeviceError::RootDevice)
    );
    assert_eq!(
        validate_device("/dev/md0", NodeKind::BlockDevice, Some(mounts)),
        Err(DeviceError::RootDevice)
    );
    assert_eq!(validate_device("/dev/md1x", NodeKind::BlockDevice, Some(mounts)), Ok(()));
}

#[test]
fn device_errors_are_worded() {
    assert_eq!(DeviceError::NotFound.message("/dev/sdz"), "Device /dev/sdz does not exist");
    assert_eq!(DeviceError::NotBlockDevice.message("/tmp/a"), "/tmp/a is not a block device");
    assert_eq!(DeviceError::MountTableUnreadable.message("/dev/sdb"), "Failed to read /proc/mounts");
    assert_eq!(DeviceError::InvalidPath.message("/"), "Invalid device path");
    assert_eq!(
        DeviceError::Mounted.message("/dev/sdb"),
        "Device or one of its partitions is currently mounted. Unmount it first."
    );
    assert_eq!(
        DeviceError::RootDevice.message("/dev/sda"),
        "Device holds the root filesystem of this system."
    );
}
