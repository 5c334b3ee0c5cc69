//! The USB identity the console presents to the host, per chip family.

use vstd::prelude::*;

verus! {

/// The chip families the console supports.
#[derive(Clone, Copy, Debug, PartialEq, Eq, Structural)]
pub enum ChipFamily {
    Rp2040,
    Rp2350,
}

/// USB class code of a communications (CDC) device.
pub const USB_CLASS_CDC: u8 = 2;

/// Raspberry Pi's USB vendor id.
pub const RASPBERRY_PI_VID: u16 = 0x2E8A;

/// Device descriptor values and descriptor strings of the console.
#[derive(Clone, Copy, Debug)]
pub struct UsbIdentity {
    pub vid: u16,
    pub pid: u16,
    pub device_class: u8,
    pub manufacturer: &'static str,
    pub product: &'static str,
    pub serial_number: &'static str,
}

/// The identity the console presents on the given chip family.
pub fn usb_identity(chip: ChipFamily) -> (id: UsbIdentity)
    ensures
        id.vid == RASPBERRY_PI_VID,
        id.device_class == USB_CLASS_CDC,
        id.manufacturer@ == "Raspberry Pi"@,
        chip == ChipFamily::Rp2040 ==> {
            &&& id.pid == 0x0003
            &&& id.product@ == "RP2040"@
            &&& id.serial_number@ == "B8ED93AE"@
        },
        chip == ChipFamily::Rp2350 ==> {
            &&& id.pid == 0x10B0
            &&& id.product@ == "RP2350"@
            &&& id.serial_number@ == "A74D15D8"@
        },
{
    match chip {
        ChipFamily::Rp2040 => UsbIdentity {
            vid: RASPBERRY_PI_VID,
            pid: 0x0003,
            device_class: USB_CLASS_CDC,
            manufacturer: "Raspberry Pi",
            product: "RP2040",
            serial_number: "B8ED93AE",
        },
        ChipFamily::Rp2350 => UsbIdentity {
            vid: RASPBERRY_PI_VID,
            pid: 0x10B0,
            device_class: USB_CLASS_CDC,
            manufacturer: "Raspberry Pi",
            product: "RP2350",
            serial_number: "A74D15D8",
        },
    }
}

} // verus!
