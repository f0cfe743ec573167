//! The supported product lines, as one closed family: a model, a driver or
//! a device is one of them, and each question is passed on to the one it is.

use vstd::prelude::*;
use crate::color::RgbColor;
use crate::command::{Command, DeviceType};
use crate::drivers::g203_lightsync::{
    G203LightsyncDevice, G203LightsyncDriver, G203LightsyncModel,
};
use crate::drivers::g213::{G213Device, G213Driver, G213Model};
use crate::drivers::{g203_lightsync, g213, report_bytes, GInterface, GUsbDriver, Opened};
use crate::error::{CommandErrorView, CommandResult};
use crate::text::str_eq;
use crate::model::{GDevice, GDeviceDriver, GDeviceModel, UsbDevice};

verus! {

/// The model of a supported product line. Two models are the same where
/// they have the same name.
#[derive(Copy, Clone, Debug, PartialEq, Eq, Hash, Structural)]
pub enum GDeviceModelRef {
    G213(G213Model),
    G203Lightsync(G203LightsyncModel),
}

/// The driver of a supported product line.
#[derive(Copy, Clone, Debug, PartialEq, Eq, Structural)]
pub enum GDeviceDriverRef {
    G213(G213Driver),
    G203Lightsync(G203LightsyncDriver),
}

/// An open device of a supported product line.
#[derive(Clone, Debug, PartialEq, Eq)]
pub enum GDeviceRef {
    G213(G213Device),
    G203Lightsync(G203LightsyncDevice),
}

impl GDeviceModel for GDeviceModelRef {
    open spec fn sectors(&self) -> u8 {
        match self {
            GDeviceModelRef::G213(m) => m.sectors(),
            GDeviceModelRef::G203Lightsync(m) => m.sectors(),
        }
    }

    open spec fn default_color(&self) -> RgbColor {
        match self {
            GDeviceModelRef::G213(m) => m.default_color(),
            GDeviceModelRef::G203Lightsync(m) => m.default_color(),
        }
    }

    open spec fn name(&self) -> Seq<char> {
        match self {
            GDeviceModelRef::G213(m) => m.name(),
            GDeviceModelRef::G203Lightsync(m) => m.name(),
        }
    }

    open spec fn kind(&self) -> DeviceType {
        match self {
            GDeviceModelRef::G213(m) => m.kind(),
            GDeviceModelRef::G203Lightsync(m) => m.kind(),
        }
    }

    open spec fn product_id(&self) -> u16 {
        match self {
            GDeviceModelRef::G213(m) => m.product_id(),
            GDeviceModelRef::G203Lightsync(m) => m.product_id(),
        }
    }

    open spec fn dims(&self) -> bool {
        match self {
            GDeviceModelRef::G213(m) => m.dims(),
            GDeviceModelRef::G203Lightsync(m) => m.dims(),
        }
    }

    fn supports_brightness(&self) -> bool {
        match self {
            GDeviceModelRef::G213(m) => m.supports_brightness(),
            GDeviceModelRef::G203Lightsync(m) => m.supports_brightness(),
        }
    }

    fn get_sectors(&self) -> u8 {
        match self {
            GDeviceModelRef::G213(m) => m.get_sectors(),
            GDeviceModelRef::G203Lightsync(m) => m.get_sectors(),
        }
    }

    fn get_default_color(&self) -> RgbColor {
        match self {
            GDeviceModelRef::G213(m) => m.get_default_color(),
            GDeviceModelRef::G203Lightsync(m) => m.get_default_color(),
        }
    }

    fn get_name(&self) -> &'static str {
        match self {
            GDeviceModelRef::G213(m) => m.get_name(),
            GDeviceModelRef::G203Lightsync(m) => m.get_name(),
        }
    }

    fn get_type(&self) -> DeviceType {
        match self {
            GDeviceModelRef::G213(m) => m.get_type(),
            GDeviceModelRef::G203Lightsync(m) => m.get_type(),
        }
    }

    fn usb_product_id(&self) -> u16 {
        match self {
            GDeviceModelRef::G213(m) => m.usb_product_id(),
            GDeviceModelRef::G203Lightsync(m) => m.usb_product_id(),
        }
    }
}

impl GDeviceDriver for GDeviceDriverRef {
    open spec fn model(&self) -> GDeviceModelRef {
        match self {
            GDeviceDriverRef::G213(d) => d.model(),
            GDeviceDriverRef::G203Lightsync(d) => d.model(),
        }
    }

    fn get_model(&self) -> GDeviceModelRef {
        match self {
            GDeviceDriverRef::G213(d) => d.get_model(),
            GDeviceDriverRef::G203Lightsync(d) => d.get_model(),
        }
    }

    fn open_device(&self, device: &UsbDevice, opened: &Opened) -> (r: Option<GDeviceRef>) {
        match self {
            GDeviceDriverRef::G213(d) => d.open_device(device, opened),
            GDeviceDriverRef::G203Lightsync(d) => d.open_device(device, opened),
        }
    }
}

impl GDevice for GDeviceRef {
    open spec fn model(&self) -> GDeviceModelRef {
        match self {
            GDeviceRef::G213(d) => d.model(),
            GDeviceRef::G203Lightsync(d) => d.model(),
        }
    }

    open spec fn serial(&self) -> Seq<char> {
        match self {
            GDeviceRef::G213(d) => d.serial(),
            GDeviceRef::G203Lightsync(d) => d.serial(),
        }
    }

    open spec fn place(&self) -> UsbDevice {
        match self {
            GDeviceRef::G213(d) => d.place(),
            GDeviceRef::G203Lightsync(d) => d.place(),
        }
    }

    fn get_debug_info(&self) -> String {
        match self {
            GDeviceRef::G213(d) => d.get_debug_info(),
            GDeviceRef::G203Lightsync(d) => d.get_debug_info(),
        }
    }

    fn get_model(&self) -> GDeviceModelRef {
        match self {
            GDeviceRef::G213(d) => d.get_model(),
            GDeviceRef::G203Lightsync(d) => d.get_model(),
        }
    }

    fn send_command(&self, cmd: Command) -> (session: GInterface) {
        match self {
            GDeviceRef::G213(d) => d.send_command(cmd),
            GDeviceRef::G203Lightsync(d) => d.send_command(cmd),
        }
    }

    fn send_reset(&self) -> (session: GInterface) {
        match self {
            GDeviceRef::G213(d) => d.send_reset(),
            GDeviceRef::G203Lightsync(d) => d.send_reset(),
        }
    }
}

impl GDeviceModelRef {
    /// The model's reset report.
    pub open spec fn reset_report(self) -> Seq<u8> {
        match self {
            GDeviceModelRef::G213(_) => g213::reset_report(),
            GDeviceModelRef::G203Lightsync(_) => g203_lightsync::reset_report(),
        }
    }

    /// What the model's encoder makes of a command: the reports to send, in
    /// order, or the reason for which the command is refused.
    pub open spec fn encoding(self, cmd: Command) -> Result<Seq<Seq<u8>>, CommandErrorView> {
        match self {
            GDeviceModelRef::G213(_) => g213::encoding(cmd),
            GDeviceModelRef::G203Lightsync(_) => g203_lightsync::encoding(cmd),
        }
    }

    /// Encodes a command for this model.
    pub fn encode(self, cmd: Command) -> (r: CommandResult<Vec<[u8; 20]>>)
        ensures
            match self.encoding(cmd) {
                Ok(reports) => r is Ok && report_bytes(r->Ok_0@) == reports,
                Err(e) => r is Err && r->Err_0@ == e,
            },
    {
        match self {
            GDeviceModelRef::G213(_) => g213::encode(cmd),
            GDeviceModelRef::G203Lightsync(_) => g203_lightsync::encode(cmd),
        }
    }
}

/// What the manager keeps of a device: its model and what tells it from
/// other devices.
pub struct DeviceView {
    pub model: GDeviceModelRef,
    pub serial: Seq<char>,
    pub place: UsbDevice,
}

impl DeviceView {
    /// Whether two devices are one: the same serial number at the same
    /// place on the bus.
    pub open spec fn same_identity(self, other: DeviceView) -> bool {
        self.serial == other.serial && self.place.same_place(other.place)
    }
}

impl View for GDeviceRef {
    type V = DeviceView;

    open spec fn view(&self) -> DeviceView {
        DeviceView { model: self.model(), serial: self.serial(), place: self.place() }
    }
}

impl GDeviceRef {
    /// The open USB device.
    pub fn usb(&self) -> (driver: &GUsbDriver)
        ensures
            driver.serial_number@ == self.serial(),
            driver.dev == self.place(),
    {
        match self {
            GDeviceRef::G213(d) => &d.driver,
            GDeviceRef::G203Lightsync(d) => &d.driver,
        }
    }

    /// Whether two devices are one.
    pub fn is_same_device(&self, other: &GDeviceRef) -> (r: bool)
        ensures
            r == self@.same_identity(other@),
    {
        let a = self.usb();
        let b = other.usb();
        str_eq(a.serial_number(), b.serial_number()) && a.dev().at_same_place(b.dev())
    }
}

impl GDeviceModelRef {
    /// The bytes with which the model's reports begin.
    pub open spec fn preamble(self) -> Seq<u8> {
        match self {
            GDeviceModelRef::G213(_) => seq![0x11, 0xff, 0x0c],
            GDeviceModelRef::G203Lightsync(_) => seq![0x11, 0xff, 0x0e],
        }
    }

    /// Whether a report is one that begins with `0x10` in place of the
    /// preamble's first byte: the mouse's reset report.
    pub open spec fn is_short_report(self, report: Seq<u8>) -> bool {
        self is G203Lightsync && report == g203_lightsync::reset_report()
    }
}

/// For every model and every command that its encoder takes: each report is
/// twenty bytes long and begins with the model's preamble, but for the
/// mouse's reset report, which differs from the preamble in its first byte.
pub proof fn encoded_reports_are_framed(model: GDeviceModelRef, cmd: Command)
    ensures
        model.encoding(cmd) matches Ok(reports) ==> forall|i: int|
            0 <= i < reports.len() ==> (#[trigger] reports[i]).len() == 20 && (reports[i].take(3)
                == model.preamble() || (model.is_short_report(reports[i]) && reports[i].take(3)
                == model.preamble().update(0, 0x10))),
{
    match model {
        GDeviceModelRef::G213(_) => {
            g213::reports_are_framed(cmd);
        },
        GDeviceModelRef::G203Lightsync(_) => {
            g203_lightsync::reports_are_framed(cmd);
        },
    }
    match model.encoding(cmd) {
        Ok(reports) => {
            assert forall|i: int| 0 <= i < reports.len() implies (#[trigger] reports[i]).len() == 20
                && (reports[i].take(3) == model.preamble() || (model.is_short_report(reports[i])
                && reports[i].take(3) == model.preamble().update(0, 0x10))) by {
                let r = reports[i];
                assert(r.take(3) =~= seq![r[0], r[1], r[2]]);
                assert(model.preamble().update(0, 0x10) =~= seq![0x10u8, model.preamble()[1], model.preamble()[2]]);
                if model is G203Lightsync && i == 0 {
                    assert(r == g203_lightsync::reset_report());
                }
            }
        },
        Err(_) => {},
    }
}

} // verus!
