//! What the manager knows of a product line, and of a device as USB shows it.

use vstd::prelude::*;
use crate::color::RgbColor;
use crate::command::{Command, DeviceType};
use crate::drivers::{GInterface, Opened};
use crate::registry::{GDeviceModelRef, GDeviceRef};

verus! {

/// The USB vendor identifier of every supported device.
pub const LOGITECH_USB_VENDOR_ID: u16 = 0x046d;

/// A device as the USB bus presents it, before it is opened: where it sits
/// and what its descriptor says it is.
#[derive(Copy, Clone, Debug, PartialEq, Eq, Structural)]
pub struct UsbDevice {
    pub bus_number: u8,
    pub address: u8,
    pub vendor_id: u16,
    pub product_id: u16,
}

impl UsbDevice {
    /// Whether two entries stand at the same place on the bus.
    pub open spec fn same_place(self, other: UsbDevice) -> bool {
        self.bus_number == other.bus_number && self.address == other.address
    }

    /// Whether two entries stand at the same place on the bus.
    pub fn at_same_place(&self, other: &UsbDevice) -> (r: bool)
        ensures
            r == self.same_place(*other),
    {
        self.bus_number == other.bus_number && self.address == other.address
    }
}

/// model series
pub trait GDeviceModel {
    /// The number of lighting sectors.
    spec fn sectors(&self) -> u8;

    /// The colour of a sector for which none is configured.
    spec fn default_color(&self) -> RgbColor;

    /// The display name, which also heads the model's configuration section.
    spec fn name(&self) -> Seq<char>;

    /// Keyboard or mouse.
    spec fn kind(&self) -> DeviceType;

    /// The USB product identifier.
    spec fn product_id(&self) -> u16;

    /// Whether effects can be dimmed.
    spec fn dims(&self) -> bool;

    fn get_sectors(&self) -> (n: u8)
        ensures
            n == self.sectors(),
    ;

    fn get_default_color(&self) -> (c: RgbColor)
        ensures
            c == self.default_color(),
    ;

    fn get_name(&self) -> (s: &'static str)
        ensures
            s@ == self.name(),
    ;

    fn get_type(&self) -> (t: DeviceType)
        ensures
            t == self.kind(),
    ;

    fn usb_product_id(&self) -> (id: u16)
        ensures
            id == self.product_id(),
    ;

    fn supports_brightness(&self) -> (b: bool)
        ensures
            b == self.dims(),
    ;
}

/// A driver: bound to one model, it knows the devices of that model and
/// makes an open device of one.
pub trait GDeviceDriver {
    spec fn model(&self) -> GDeviceModelRef;

    fn get_model(&self) -> (m: GDeviceModelRef)
        ensures
            m == self.model(),
    ;

    /// The device, once the USB layer has opened it; nothing where opening
    /// failed.
    fn open_device(&self, device: &UsbDevice, opened: &Opened) -> (r: Option<GDeviceRef>)
        ensures
            match *opened {
                Ok(serial) => r matches Some(d) && d.model() == self.model() && d.serial()
                    == serial@ && d.place() == *device,
                Err(_) => r is None,
            },
    ;
}

/// a device
pub trait GDevice {
    spec fn model(&self) -> GDeviceModelRef;

    /// The serial number that the device reported when it was opened.
    spec fn serial(&self) -> Seq<char>;

    /// Where the device sits on the bus.
    spec fn place(&self) -> UsbDevice;

    /// What tells the device from others of its model: its serial number.
    fn get_debug_info(&self) -> (info: String)
        ensures
            info@ == self.serial(),
    ;

    fn get_model(&self) -> (m: GDeviceModelRef)
        ensures
            m == self.model(),
    ;

    /// Begins to send a command: the reset report first, then the effect
    /// where the model takes it.
    fn send_command(&self, cmd: Command) -> (session: GInterface)
        ensures
            session.carries(self.model().encoding(cmd), self.model().reset_report()),
    ;

    /// Begins to send the reset report alone.
    fn send_reset(&self) -> (session: GInterface)
        ensures
            session.carries(Ok(seq![self.model().reset_report()]), self.model().reset_report()),
    ;
}

} // verus!
