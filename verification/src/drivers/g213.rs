//! The G213 keyboard: five sectors, no dimming.

use vstd::prelude::*;
use vstd::array::*;
use crate::color::RgbColor;
use crate::command::{Brightness, Command, DeviceType, Direction, Dpi, Speed};
use crate::drivers::{
    fill_report, high_byte, low_byte, padded_report, speed_high, speed_low, DeviceDescription,
};
use crate::error::{CommandError, CommandErrorView, CommandResult, limit_message};
use crate::model::GDeviceModel;
use vstd::string::*;
use crate::drivers::{after_reset, report_bytes, reset_only, reset_then, GInterface, GUsbDriver, Opened};
use crate::model::{GDevice, GDeviceDriver, UsbDevice};
use crate::registry::{GDeviceModelRef, GDeviceRef};

verus! {

pub const PRODUCT_ID: u16 = 0xc336;

pub const SECTORS: u8 = 5;

/// The limits of the G213.
pub open spec fn device() -> DeviceDescription {
    DeviceDescription {
        product_id: PRODUCT_ID,
        min_speed: Speed(32),
        default_speed: Speed(1000),
        max_speed: Speed(u16::MAX),
        brightness: false,
        min_dpi: Dpi(u16::MAX),
    }
}

#[verifier::when_used_as_spec(device)]
pub fn description() -> (d: DeviceDescription)
    ensures
        d == device(),
{
    DeviceDescription {
        product_id: PRODUCT_ID,
        min_speed: Speed(32),
        default_speed: Speed(1000),
        max_speed: Speed(u16::MAX),
        brightness: false,
        min_dpi: Dpi(u16::MAX),
    }
}

#[derive(Copy, Clone, Debug, PartialEq, Eq, Hash, Structural)]
pub struct G213Model;

impl G213Model {
    pub fn new() -> (model: Self)
        ensures
            model == G213Model,
    {
        Self
    }
}

impl Default for G213Model {
    fn default() -> (model: Self)
        ensures
            model == G213Model,
    {
        Self
    }
}

impl GDeviceModel for G213Model {
    open spec fn sectors(&self) -> u8 {
        SECTORS
    }

    open spec fn default_color(&self) -> RgbColor {
        RgbColor(0x00, 0xA9, 0xE0)
    }

    open spec fn name(&self) -> Seq<char> {
        "G213"@
    }

    open spec fn kind(&self) -> DeviceType {
        DeviceType::Keyboard
    }

    open spec fn product_id(&self) -> u16 {
        PRODUCT_ID
    }

    open spec fn dims(&self) -> bool {
        device().brightness
    }

    fn get_sectors(&self) -> u8 {
        SECTORS
    }

    fn get_default_color(&self) -> RgbColor {
        RgbColor(0x00, 0xA9, 0xE0)
    }

    fn get_name(&self) -> &'static str {
        "G213"
    }

    fn get_type(&self) -> DeviceType {
        DeviceType::Keyboard
    }

    fn usb_product_id(&self) -> u16 {
        PRODUCT_ID
    }

    fn supports_brightness(&self) -> bool {
        description().brightness
    }
}

/// One report for a G213.
#[derive(Copy, Clone, Debug, PartialEq, Eq)]
pub struct DeviceCommand {
    pub bytes: [u8; 20],
}

/// The report that clears what the keyboard was doing.
pub open spec fn reset_report() -> Seq<u8> {
    padded_report(seq![0x11, 0xff, 0x0c, 0x0d])
}

/// The report that sets one colour: `target` is 0 for all sectors, else the
/// sector's index plus one.
pub open spec fn color_report(target: u8, color: RgbColor) -> Seq<u8> {
    padded_report(seq![0x11, 0xff, 0x0c, 0x3a, target, 0x01, color.0, color.1, color.2, 0x02])
}

pub open spec fn breathe_report(color: RgbColor, speed: Speed, brightness: Brightness) -> Seq<u8> {
    padded_report(
        seq![
            0x11,
            0xff,
            0x0c,
            0x3a,
            0,
            0x02,
            color.0,
            color.1,
            color.2,
            speed_high(speed),
            speed_low(speed),
            0,
            brightness.value(),
        ],
    )
}

pub open spec fn cycle_report(speed: Speed, brightness: Brightness) -> Seq<u8> {
    padded_report(
        seq![
            0x11,
            0xff,
            0x0c,
            0x3a,
            0,
            0x03,
            0xff,
            0xff,
            0xff,
            0,
            0,
            speed_high(speed),
            speed_low(speed),
            brightness.value(),
        ],
    )
}

pub open spec fn wave_report(direction: Direction, speed: Speed, brightness: Brightness) -> Seq<
    u8,
> {
    padded_report(
        seq![
            0x11,
            0xff,
            0x0c,
            0x3a,
            0,
            0x04,
            0,
            0,
            0,
            0,
            0,
            0,
            speed_low(speed),
            direction.spec_code(),
            brightness.value(),
            speed_high(speed),
        ],
    )
}

pub open spec fn start_effect_report(state: bool) -> Seq<u8> {
    padded_report(seq![0x11, 0xff, 0x0c, 0x5d, 0x00, 0x01, if state { 1u8 } else { 2u8 }])
}

impl DeviceCommand {
    pub fn for_color(color: RgbColor) -> (r: Self)
        ensures
            r.bytes@ == color_report(0, color),
    {
        let b = [0x11, 0xff, 0x0c, 0x3a, 0, 0x01, color.red(), color.green(), color.blue(), 0x02];
        assert(b@ =~= seq![0x11, 0xff, 0x0c, 0x3a, 0, 0x01, color.0, color.1, color.2, 0x02]);
        Self::new(b.as_slice())
    }

    pub fn for_region_color(region: u8, color: RgbColor) -> (r: Self)
        requires
            region < u8::MAX,
        ensures
            r.bytes@ == color_report((region + 1) as u8, color),
    {
        let b = [
            0x11,
            0xff,
            0x0c,
            0x3a,
            region + 1,
            0x01,
            color.red(),
            color.green(),
            color.blue(),
            0x02,
        ];
        assert(b@ =~= seq![
            0x11,
            0xff,
            0x0c,
            0x3a,
            (region + 1) as u8,
            0x01,
            color.0,
            color.1,
            color.2,
            0x02,
        ]);
        Self::new(b.as_slice())
    }

    pub fn for_reset() -> (r: Self)
        ensures
            r.bytes@ == reset_report(),
    {
        let b = [0x11, 0xff, 0x0c, 0x0d];
        assert(b@ =~= seq![0x11, 0xff, 0x0c, 0x0d]);
        Self::new(b.as_slice())
    }

    pub fn for_breathe(color: RgbColor, speed: Speed, brightness: Brightness) -> (r: Self)
        ensures
            r.bytes@ == breathe_report(color, speed, brightness),
    {
        let b = [
            0x11,
            0xff,
            0x0c,
            0x3a,
            0,
            0x02,
            color.red(),
            color.green(),
            color.blue(),
            high_byte(speed),
            low_byte(speed),
            0,
            brightness.get(),
        ];
        assert(b@ =~= seq![
            0x11,
            0xff,
            0x0c,
            0x3a,
            0,
            0x02,
            color.0,
            color.1,
            color.2,
            speed_high(speed),
            speed_low(speed),
            0,
            brightness.value(),
        ]);
        Self::new(b.as_slice())
    }

    pub fn for_cycle(speed: Speed, brightness: Brightness) -> (r: Self)
        ensures
            r.bytes@ == cycle_report(speed, brightness),
    {
        let b = [
            0x11,
            0xff,
            0x0c,
            0x3a,
            0,
            0x03,
            0xff,
            0xff,
            0xff,
            0,
            0,
            high_byte(speed),
            low_byte(speed),
            brightness.get(),
        ];
        assert(b@ =~= seq![
            0x11,
            0xff,
            0x0c,
            0x3a,
            0,
            0x03,
            0xff,
            0xff,
            0xff,
            0,
            0,
            speed_high(speed),
            speed_low(speed),
            brightness.value(),
        ]);
        Self::new(b.as_slice())
    }

    pub fn for_wave(direction: Direction, speed: Speed, brightness: Brightness) -> (r: Self)
        ensures
            r.bytes@ == wave_report(direction, speed, brightness),
    {
        let b = [
            0x11,
            0xff,
            0x0c,
            0x3a,
            0,
            0x04,
            0x00,
            0x00,
            0x00,
            0,
            0,
            0,
            low_byte(speed),
            direction.code(),
            brightness.get(),
            high_byte(speed),
        ];
        assert(b@ =~= seq![
            0x11,
            0xff,
            0x0c,
            0x3a,
            0,
            0x04,
            0,
            0,
            0,
            0,
            0,
            0,
            speed_low(speed),
            direction.spec_code(),
            brightness.value(),
            speed_high(speed),
        ]);
        Self::new(b.as_slice())
    }

    pub fn for_start_effect(state: bool) -> (r: Self)
        ensures
            r.bytes@ == start_effect_report(state),
    {
        let b = [0x11, 0xff, 0x0c, 0x5d, 0x00, 0x01, if state { 1 } else { 2 }];
        assert(b@ =~= seq![0x11, 0xff, 0x0c, 0x5d, 0x00, 0x01, if state { 1u8 } else { 2u8 }]);
        Self::new(b.as_slice())
    }

    /// A report that begins with the given bytes; the rest is zero.
    pub fn new(b: &[u8]) -> (r: Self)
        requires
            b@.len() <= 20,
        ensures
            r.bytes@ == padded_report(b@),
    {
        Self { bytes: fill_report(b) }
    }
}

#[derive(Copy, Clone, Debug, PartialEq, Eq, Structural)]
pub struct G213Driver {
    pub model: G213Model,
}

impl G213Driver {
    /// The driver of the model.
    pub fn new() -> (driver: Self)
        ensures
            driver == (G213Driver { model: G213Model }),
    {
        Self { model: G213Model }
    }
}

impl Default for G213Driver {
    fn default() -> (driver: Self)
        ensures
            driver == (G213Driver { model: G213Model }),
    {
        Self { model: G213Model }
    }
}

impl GDeviceDriver for G213Driver {
    open spec fn model(&self) -> GDeviceModelRef {
        GDeviceModelRef::G213(self.model)
    }

    fn get_model(&self) -> GDeviceModelRef {
        GDeviceModelRef::G213(self.model)
    }

    fn open_device(&self, device: &UsbDevice, opened: &Opened) -> (r: Option<GDeviceRef>) {
        match GUsbDriver::open_device(description(), device, opened) {
            Some(driver) => Some(GDeviceRef::G213(G213Device { driver, model: self.model })),
            None => None,
        }
    }
}

#[derive(Clone, Debug, PartialEq, Eq)]
pub struct G213Device {
    pub driver: GUsbDriver,
    pub model: G213Model,
}

/// The report of a command's effect, or the reason for which the keyboard
/// does not take the command.
pub open spec fn effect_report(cmd: Command) -> Result<Seq<u8>, CommandErrorView> {
    match cmd {
        Command::ColorSector(rgb, Some(sector)) => if sector >= SECTORS {
            Err(
                CommandErrorView::InvalidArgument(
                    "sector"@,
                    limit_message(sector as nat, " > "@, (SECTORS - 1) as nat),
                ),
            )
        } else {
            Ok(color_report((sector + 1) as u8, rgb))
        },
        Command::ColorSector(rgb, None) => Ok(color_report(0, rgb)),
        Command::Breathe(rgb, speed, brightness) => match device().timing_for(speed, brightness) {
            Ok((s, b)) => Ok(breathe_report(rgb, s, b)),
            Err(e) => Err(e),
        },
        Command::Cycle(speed, brightness) => match device().timing_for(speed, brightness) {
            Ok((s, b)) => Ok(cycle_report(s, b)),
            Err(e) => Err(e),
        },
        Command::Wave(direction, speed, brightness) => match device().timing_for(
            speed,
            brightness,
        ) {
            Ok((s, b)) => Ok(wave_report(direction, s, b)),
            Err(e) => Err(e),
        },
        Command::StartEffect(state) => Ok(start_effect_report(state)),
        Command::Blend(_, _) | Command::Dpi(_) => Err(CommandErrorView::InvalidCommand),
    }
}

/// What the encoder makes of a command: the reset report and the effect's
/// report, or the reason for which the command is refused.
pub open spec fn encoding(cmd: Command) -> Result<Seq<Seq<u8>>, CommandErrorView> {
    after_reset(reset_report(), effect_report(cmd))
}

/// The report of a command's effect.
pub fn encode_effect(cmd: Command) -> (r: CommandResult<DeviceCommand>)
    ensures
        match effect_report(cmd) {
            Ok(report) => r is Ok && r->Ok_0.bytes@ == report,
            Err(e) => r is Err && r->Err_0@ == e,
        },
{
    match cmd {
        Command::ColorSector(rgb, Some(sector)) => {
            if sector >= SECTORS {
                Err(CommandError::out_of_range("sector", sector as u32, " > ", (SECTORS - 1) as u32))
            } else {
                Ok(DeviceCommand::for_region_color(sector, rgb))
            }
        },
        Command::ColorSector(rgb, None) => Ok(DeviceCommand::for_color(rgb)),
        Command::Breathe(rgb, speed, brightness) => match description().get_timing(
            speed,
            brightness,
        ) {
            Ok((s, b)) => Ok(DeviceCommand::for_breathe(rgb, s, b)),
            Err(e) => Err(e),
        },
        Command::Cycle(speed, brightness) => match description().get_timing(speed, brightness) {
            Ok((s, b)) => Ok(DeviceCommand::for_cycle(s, b)),
            Err(e) => Err(e),
        },
        Command::Wave(direction, speed, brightness) => match description().get_timing(
            speed,
            brightness,
        ) {
            Ok((s, b)) => Ok(DeviceCommand::for_wave(direction, s, b)),
            Err(e) => Err(e),
        },
        Command::StartEffect(state) => Ok(DeviceCommand::for_start_effect(state)),
        Command::Blend(_, _) | Command::Dpi(_) => Err(CommandError::InvalidCommand),
    }
}

/// Encodes a command for this model: the reset report, then the effect's.
pub fn encode(cmd: Command) -> (r: CommandResult<Vec<[u8; 20]>>)
    ensures
        match encoding(cmd) {
            Ok(reports) => r is Ok && report_bytes(r->Ok_0@) == reports,
            Err(e) => r is Err && r->Err_0@ == e,
        },
{
    match encode_effect(cmd) {
        Ok(effect) => Ok(reset_then(DeviceCommand::for_reset().bytes, effect.bytes)),
        Err(e) => Err(e),
    }
}

impl GDevice for G213Device {
    open spec fn model(&self) -> GDeviceModelRef {
        GDeviceModelRef::G213(self.model)
    }

    open spec fn serial(&self) -> Seq<char> {
        self.driver.serial_number@
    }

    open spec fn place(&self) -> UsbDevice {
        self.driver.dev
    }

    fn get_debug_info(&self) -> String {
        String::from_str(self.driver.serial_number())
    }

    fn get_model(&self) -> GDeviceModelRef {
        GDeviceModelRef::G213(self.model)
    }

    fn send_command(&self, cmd: Command) -> (session: GInterface) {
        match encode(cmd) {
            Ok(reports) => self.driver.open_interface(reports, None),
            Err(e) => self.driver.open_interface(
                reset_only(DeviceCommand::for_reset().bytes),
                Some(e),
            ),
        }
    }

    fn send_reset(&self) -> (session: GInterface) {
        self.driver.open_interface(reset_only(DeviceCommand::for_reset().bytes), None)
    }
}

/// Every report that the encoder gives is twenty bytes long and begins with
/// the keyboard's preamble.
pub proof fn reports_are_framed(cmd: Command)
    ensures
        encoding(cmd) matches Ok(reports) ==> forall|i: int|
            0 <= i < reports.len() ==> (#[trigger] reports[i]).len() == 20 && reports[i][0] == 0x11
                && reports[i][1] == 0xff && reports[i][2] == 0x0c,
{
}

/// The speed and the brightness that a command asks for, where the keyboard
/// reads them.
pub open spec fn timing_of(cmd: Command) -> Option<(Option<Speed>, Option<Brightness>)> {
    match cmd {
        Command::Breathe(_, speed, brightness) => Some((speed, brightness)),
        Command::Cycle(speed, brightness) => Some((speed, brightness)),
        Command::Wave(_, speed, brightness) => Some((speed, brightness)),
        _ => None,
    }
}

/// A command with a speed below the minimum is refused for its speed,
/// whatever else it asks for; with a speed from the minimum on it is not
/// refused for its speed, and it is encoded where the brightness is left open.
pub proof fn speed_boundary(cmd: Command, speed: Speed)
    requires
        timing_of(cmd) matches Some((s, _)) && s == Some(speed),
    ensures
        speed.0 < device().min_speed.0 ==> encoding(cmd) == Err::<Seq<Seq<u8>>, CommandErrorView>(
            CommandErrorView::InvalidArgument(
                "speed"@,
                limit_message(speed.0 as nat, " < "@, device().min_speed.0 as nat),
            ),
        ),
        speed.0 >= device().min_speed.0 ==> !(encoding(cmd) matches Err(
            CommandErrorView::InvalidArgument(name, _),
        ) && name == "speed"@),
        speed.0 >= device().min_speed.0 && timing_of(cmd)->Some_0.1 is None ==> encoding(cmd) is Ok,
{
    reveal_strlit("speed");
    reveal_strlit("brightness");
    assert("speed"@.len() == 5);
    assert("brightness"@.len() == 10);
    let (_, brightness) = timing_of(cmd)->Some_0;
    if speed.0 >= device().min_speed.0 {
        assert(device().speed_for(Some(speed)) == Ok::<Speed, CommandErrorView>(speed));
        assert(device().brightness_for(brightness) matches Err(
            CommandErrorView::InvalidArgument(name, _),
        ) ==> name == "brightness"@);
        assert(device().timing_for(Some(speed), brightness) is Err ==> device().timing_for(
            Some(speed),
            brightness,
        ) == Err::<(Speed, Brightness), CommandErrorView>(
            device().brightness_for(brightness)->Err_0,
        ));
    }
}

} // verus!
