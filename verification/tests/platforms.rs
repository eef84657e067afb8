use etch::platforms::{Platform, VerificationStrategy};

#[test]
fn test_windows_detection() {
    assert_eq!(Platform::from_iso_path("Windows11.iso"), Platform::WindowsISO);
}

#[test]
fn test_raspberrypi_detection() {
    assert_eq!(Platform::from_iso_path("RaspberryPi-OS.img"), Platform::RaspberryPi);
}

#[test]
fn test_orangepi_detection() {
    assert_eq!(Platform::from_iso_path("OrangePi-Ubuntu.img"), Platform::OrangePi);
}

#[test]
fn test_esp32_detection() {
    assert_eq!(Platform::from_iso_path("esp32-micropython.bin"), Platform::ESP32);
}

#[test]
fn test_arduino_detection() {
    assert_eq!(Platform::from_iso_path("arduino-firmware.hex"), Platform::Arduino);
}

#[test]
fn test_write_optimizations() {
    let (buf, chunk) = Platform::WindowsISO.write_optimization();
    assert!(buf >= 4 && chunk >= 512, "Reasonable buffer and chunk sizes");

    let (buf_rpi, _chunk_rpi) = Platform::RaspberryPi.write_optimization();
    assert!(buf_rpi < buf, "RPi should have smaller buffer");
}

#[test]
fn test_verification_strategies() {
    assert_eq!(Platform::WindowsISO.verification_strategy(), VerificationStrategy::FullByteCheck);
    assert_eq!(Platform::ESP32.verification_strategy(), VerificationStrategy::FirmwareCheck);
}

#[test]
fn test_special_handling_required() {
    assert!(Platform::RaspberryPi.requires_special_handling());
    assert!(Platform::ESP32.requires_special_handling());
    assert!(!Platform::WindowsISO.requires_special_handling());
}

#[test]
fn detection_uses_the_file_name_only() {
    assert_eq!(Platform::from_iso_path("/home/windows/Downloads/FEDORA-40.ISO"), Platform::LinuxISO);
    assert_eq!(Platform::from_iso_path("/isos/ubuntu/"), Platform::LinuxISO);
    assert_eq!(Platform::from_iso_path("/isos/image.bin"), Platform::GenericISO);
    assert_eq!(Platform::from_iso_path(""), Platform::GenericISO);
}

#[test]
fn detection_order_prefers_windows_then_boards() {
    assert_eq!(Platform::from_file_name("win10-rpi.iso"), Platform::WindowsISO);
    assert_eq!(Platform::from_file_name("rpi-arduino.img"), Platform::RaspberryPi);
    assert_eq!(Platform::from_file_name("avr-linux.hex"), Platform::Arduino);
}

#[test]
fn platform_labels() {
    assert_eq!(Platform::RaspberryPi.display_name(), "Raspberry Pi");
    assert_eq!(Platform::GenericISO.icon_name(), "media-optical-symbolic");
    assert_eq!(Platform::OrangePi.recommended_speed(), "USB 3.0+ (20+ MB/s)");
    assert_eq!(Platform::ESP32.recommended_speed(), "USB 2.0+");
    assert_eq!(Platform::Unknown.write_optimization(), (4, 512));
}
