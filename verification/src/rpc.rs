//! The operations offered to clients: each reads its arguments and, where
//! they are valid, names the command to hand to the manager.

use vstd::prelude::*;
use vstd::string::*;
use crate::color::RgbColor;
use crate::command::{Brightness, Command, Direction, Speed, MAX_BRIGHTNESS};
use crate::manager::{device_views, GDeviceManager};
use crate::model::{GDevice, GDeviceDriver, GDeviceModel};

verus! {

/// The argument of a call that is not valid.
#[derive(Copy, Clone, Debug, PartialEq, Eq, Structural)]
pub enum InvalidArg {
    /// The colour is not six hexadecimal digits.
    Color,
    /// The direction is none of the four words.
    Direction,
    /// The brightness is above 100.
    Brightness,
}

impl InvalidArg {
    pub open spec fn spec_message(self) -> Seq<char> {
        match self {
            InvalidArg::Color => "color"@,
            InvalidArg::Direction => "direction"@,
            InvalidArg::Brightness => "brightness must be between 0 and 100"@,
        }
    }

    /// The text of the fault that the client gets.
    pub fn message(self) -> (s: &'static str)
        ensures
            s@ == self.spec_message(),
    {
        match self {
            InvalidArg::Color => "color",
            InvalidArg::Direction => "direction",
            InvalidArg::Brightness => "brightness must be between 0 and 100",
        }
    }
}

/// The colour that an argument names.
pub open spec fn color_arg(color: Seq<char>) -> Result<RgbColor, InvalidArg> {
    match RgbColor::from_hex_chars(color) {
        Ok(rgb) => Ok(rgb),
        Err(_) => Err(InvalidArg::Color),
    }
}

/// The brightness that an argument names.
pub open spec fn brightness_arg(brightness: u8) -> Result<Option<Brightness>, InvalidArg> {
    if brightness <= MAX_BRIGHTNESS {
        Ok(Some(Brightness::of(brightness)))
    } else {
        Err(InvalidArg::Brightness)
    }
}

/// The direction that an argument names.
pub open spec fn direction_arg(direction: Seq<char>) -> Result<Direction, InvalidArg> {
    match Direction::from_name(direction) {
        Some(d) => Ok(d),
        None => Err(InvalidArg::Direction),
    }
}

/// What `color_sector` answers.
pub open spec fn color_sector_call(color: Seq<char>, sector: u8) -> Result<Command, InvalidArg> {
    match color_arg(color) {
        Ok(rgb) => Ok(Command::ColorSector(rgb, Some(sector))),
        Err(e) => Err(e),
    }
}

/// What `color_sectors` answers.
pub open spec fn color_sectors_call(color: Seq<char>) -> Result<Command, InvalidArg> {
    match color_arg(color) {
        Ok(rgb) => Ok(Command::ColorSector(rgb, None)),
        Err(e) => Err(e),
    }
}

/// What `breathe` answers: the colour is judged first, then the brightness.
pub open spec fn breathe_call(color: Seq<char>, speed: u16, brightness: u8) -> Result<
    Command,
    InvalidArg,
> {
    match color_arg(color) {
        Ok(rgb) => match brightness_arg(brightness) {
            Ok(b) => Ok(Command::Breathe(rgb, Some(Speed(speed)), b)),
            Err(e) => Err(e),
        },
        Err(e) => Err(e),
    }
}

/// What `cycle` answers.
pub open spec fn cycle_call(speed: u16, brightness: u8) -> Result<Command, InvalidArg> {
    match brightness_arg(brightness) {
        Ok(b) => Ok(Command::Cycle(Some(Speed(speed)), b)),
        Err(e) => Err(e),
    }
}

/// What `wave` answers: the direction is judged first, then the brightness.
pub open spec fn wave_call(direction: Seq<char>, speed: u16, brightness: u8) -> Result<
    Command,
    InvalidArg,
> {
    match direction_arg(direction) {
        Ok(d) => match brightness_arg(brightness) {
            Ok(b) => Ok(Command::Wave(d, Some(Speed(speed)), b)),
            Err(e) => Err(e),
        },
        Err(e) => Err(e),
    }
}

fn parse_color(color: &str) -> (r: Result<RgbColor, InvalidArg>)
    ensures
        r == color_arg(color@),
{
    match RgbColor::from_hex(color) {
        Ok(rgb) => Ok(rgb),
        Err(_) => Err(InvalidArg::Color),
    }
}

/// The brightness of a call: a percentage of at most 100.
pub fn parse_brightness(brightness: u8) -> (r: Result<Option<Brightness>, InvalidArg>)
    ensures
        r == brightness_arg(brightness),
{
    match Brightness::new(brightness) {
        Ok(brightness) => Ok(Some(brightness)),
        Err(_) => Err(InvalidArg::Brightness),
    }
}

fn parse_direction(direction: &str) -> (r: Result<Direction, InvalidArg>)
    ensures
        r == direction_arg(direction@),
{
    match Direction::parse(direction) {
        Some(d) => Ok(d),
        None => Err(InvalidArg::Direction),
    }
}

/// One colour for one sector.
pub fn color_sector(color: &str, sector: u8) -> (r: Result<Command, InvalidArg>)
    ensures
        r == color_sector_call(color@, sector),
{
    match parse_color(color) {
        Ok(rgb) => Ok(Command::ColorSector(rgb, Some(sector))),
        Err(e) => Err(e),
    }
}

/// One colour for all sectors.
pub fn color_sectors(color: &str) -> (r: Result<Command, InvalidArg>)
    ensures
        r == color_sectors_call(color@),
{
    match parse_color(color) {
        Ok(rgb) => Ok(Command::ColorSector(rgb, None)),
        Err(e) => Err(e),
    }
}

/// One colour that fades in and out.
pub fn breathe(color: &str, speed: u16, brightness: u8) -> (r: Result<Command, InvalidArg>)
    ensures
        r == breathe_call(color@, speed, brightness),
{
    match parse_color(color) {
        Ok(rgb) => match parse_brightness(brightness) {
            Ok(b) => Ok(Command::Breathe(rgb, Some(Speed(speed)), b)),
            Err(e) => Err(e),
        },
        Err(e) => Err(e),
    }
}

/// All colours in turn.
pub fn cycle(speed: u16, brightness: u8) -> (r: Result<Command, InvalidArg>)
    ensures
        r == cycle_call(speed, brightness),
{
    match parse_brightness(brightness) {
        Ok(b) => Ok(Command::Cycle(Some(Speed(speed)), b)),
        Err(e) => Err(e),
    }
}

/// A wave of colours in a direction.
pub fn wave(direction: &str, speed: u16, brightness: u8) -> (r: Result<Command, InvalidArg>)
    ensures
        r == wave_call(direction@, speed, brightness),
{
    match parse_direction(direction) {
        Ok(d) => match parse_brightness(brightness) {
            Ok(b) => Ok(Command::Wave(d, Some(Speed(speed)), b)),
            Err(e) => Err(e),
        },
        Err(e) => Err(e),
    }
}

/// The names of the models for which a driver is registered.
pub fn list_drivers(manager: &GDeviceManager) -> (names: Vec<&'static str>)
    ensures
        names@.len() == manager.drivers().len(),
        forall|i: int|
            0 <= i < names@.len() ==> (#[trigger] names@[i])@ == manager.drivers()[i].model().name(),
{
    let drivers = manager.list_drivers();
    let mut names: Vec<&'static str> = Vec::new();
    let mut i: usize = 0;
    while i < drivers.len()
        invariant
            i <= drivers@.len(),
            drivers@ == manager.drivers(),
            names@.len() == i,
            forall|k: int|
                0 <= k < i ==> (#[trigger] names@[k])@ == manager.drivers()[k].model().name(),
        decreases drivers@.len() - i,
    {
        names.push(drivers[i].get_model().get_name());
        i += 1;
    }
    names
}

/// The connected devices: for each, the name of its model and its serial
/// number.
pub fn list(manager: &GDeviceManager) -> (devices: Vec<(&'static str, String)>)
    ensures
        devices@.len() == manager.connected().len(),
        forall|i: int|
            0 <= i < devices@.len() ==> (#[trigger] devices@[i]).0@
                == manager.connected()[i].model.name() && devices@[i].1@
                == manager.connected()[i].serial,
{
    let connected = manager.list();
    let mut devices: Vec<(&'static str, String)> = Vec::new();
    let mut i: usize = 0;
    while i < connected.len()
        invariant
            i <= connected@.len(),
            device_views(connected@) == manager.connected(),
            devices@.len() == i,
            forall|k: int|
                0 <= k < i ==> (#[trigger] devices@[k]).0@ == manager.connected()[k].model.name()
                    && devices@[k].1@ == manager.connected()[k].serial,
        decreases connected@.len() - i,
    {
        let name = connected[i].get_model().get_name();
        let serial = connected[i].get_debug_info();
        assert(device_views(connected@)[i as int] == connected@[i as int]@);
        devices.push((name, serial));
        i += 1;
    }
    devices
}

} // verus!
