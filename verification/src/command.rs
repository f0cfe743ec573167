//! The lighting effects that can be asked of a device, and their parameters.

use vstd::prelude::*;
use vstd::string::*;
use vstd::std_specs::convert::FromSpecImpl;
use vstd::std_specs::convert::TryFromSpecImpl;
use crate::color::RgbColor;
use crate::error::{CommandError, CommandErrorView, limit_message};
use crate::text::str_eq;

verus! {

/// The direction in which a wave runs over the device.
#[derive(PartialEq, Eq, Debug, Copy, Clone, Structural)]
pub enum Direction {
    LeftToRight,
    RightToLeft,
    CenterToEdge,
    EdgeToCenter,
}

impl Direction {
    /// The byte that stands for this direction in a report.
    pub open spec fn spec_code(self) -> u8 {
        match self {
            Direction::LeftToRight => 1,
            Direction::RightToLeft => 6,
            Direction::CenterToEdge => 3,
            Direction::EdgeToCenter => 8,
        }
    }

    /// The word for this direction in configuration and requests.
    pub open spec fn spec_name(self) -> Seq<char> {
        match self {
            Direction::LeftToRight => "left-to-right"@,
            Direction::RightToLeft => "right-to-left"@,
            Direction::CenterToEdge => "center-to-edge"@,
            Direction::EdgeToCenter => "edge-to-center"@,
        }
    }

    /// The direction that a word names, if it names one.
    pub open spec fn from_name(name: Seq<char>) -> Option<Direction> {
        if name == "left-to-right"@ {
            Some(Direction::LeftToRight)
        } else if name == "right-to-left"@ {
            Some(Direction::RightToLeft)
        } else if name == "center-to-edge"@ {
            Some(Direction::CenterToEdge)
        } else if name == "edge-to-center"@ {
            Some(Direction::EdgeToCenter)
        } else {
            None
        }
    }

    #[verifier::when_used_as_spec(spec_code)]
    pub fn code(self) -> (c: u8)
        ensures
            c == self.spec_code(),
    {
        match self {
            Direction::LeftToRight => 1,
            Direction::RightToLeft => 6,
            Direction::CenterToEdge => 3,
            Direction::EdgeToCenter => 8,
        }
    }

    pub fn name(self) -> (s: &'static str)
        ensures
            s@ == self.spec_name(),
    {
        match self {
            Direction::LeftToRight => "left-to-right",
            Direction::RightToLeft => "right-to-left",
            Direction::CenterToEdge => "center-to-edge",
            Direction::EdgeToCenter => "edge-to-center",
        }
    }

    /// Reads one of the four direction words; any other text names no direction.
    pub fn parse(value: &str) -> (r: Option<Direction>)
        ensures
            r == Self::from_name(value@),
    {
        if str_eq(value, "left-to-right") {
            Some(Direction::LeftToRight)
        } else if str_eq(value, "right-to-left") {
            Some(Direction::RightToLeft)
        } else if str_eq(value, "center-to-edge") {
            Some(Direction::CenterToEdge)
        } else if str_eq(value, "edge-to-center") {
            Some(Direction::EdgeToCenter)
        } else {
            None
        }
    }
}

impl Default for Direction {
    fn default() -> (d: Direction)
        ensures
            d == Direction::LeftToRight,
    {
        Direction::LeftToRight
    }
}

impl<'a> TryFrom<&'a str> for Direction {
    type Error = ();

    fn try_from(value: &'a str) -> (r: Result<Self, Self::Error>) {
        match Direction::parse(value) {
            Some(d) => Ok(d),
            None => Err(()),
        }
    }
}

impl<'a> TryFromSpecImpl<&'a str> for Direction {
    open spec fn obeys_try_from_spec() -> bool {
        true
    }

    open spec fn try_from_spec(value: &'a str) -> Result<Self, Self::Error> {
        match Direction::from_name(value@) {
            Some(d) => Ok(d),
            None => Err(()),
        }
    }
}

/// speed of effect
#[derive(Copy, Clone, Debug, PartialEq, Eq, Structural)]
pub struct Speed(pub u16);

impl From<u16> for Speed {
    fn from(input: u16) -> (s: Speed) {
        Speed(input)
    }
}

impl FromSpecImpl<u16> for Speed {
    open spec fn obeys_from_spec() -> bool {
        true
    }

    open spec fn from_spec(input: u16) -> Speed {
        Speed(input)
    }
}

/// Resolution of a pointing device, in dots per inch.
#[derive(Copy, Clone, Debug, PartialEq, Eq, Structural)]
pub struct Dpi(pub u16);

/// Brightness of an effect in percent; never above 100.
#[derive(Copy, Clone, Debug, PartialEq, Eq, Structural)]
pub struct Brightness(u8);

/// Full brightness, which is what an effect has where none is asked for.
pub const MAX_BRIGHTNESS: u8 = 100;

impl Brightness {
    #[verifier::type_invariant]
    spec fn in_range(self) -> bool {
        self.0 <= MAX_BRIGHTNESS
    }

    /// The percentage.
    pub closed spec fn value(self) -> u8 {
        self.0
    }

    /// The brightness of a percentage.
    pub closed spec fn of(percent: u8) -> Brightness {
        Brightness(percent)
    }

    /// The brightness of a percentage has that percentage.
    pub broadcast proof fn value_of(percent: u8)
        ensures
            #[trigger] Self::of(percent).value() == percent,
    {
    }

    /// A brightness is the brightness of its percentage.
    pub broadcast proof fn of_value(self)
        ensures
            #[trigger] Self::of(self.value()) == self,
    {
    }

    /// What `try_from` answers for a number.
    pub open spec fn checked(percent: u8) -> Result<Brightness, CommandErrorView> {
        if percent <= MAX_BRIGHTNESS {
            Ok(Self::of(percent))
        } else {
            Err(
                CommandErrorView::InvalidArgument(
                    "brightness"@,
                    limit_message(percent as nat, " > "@, MAX_BRIGHTNESS as nat),
                ),
            )
        }
    }

    /// The percentage, which is at most 100.
    pub fn get(self) -> (percent: u8)
        ensures
            percent == self.value(),
            percent <= MAX_BRIGHTNESS,
    {
        proof {
            use_type_invariant(self);
        }
        self.0
    }

    /// The brightness of a percentage; more than 100 is an invalid argument.
    pub fn new(percent: u8) -> (r: Result<Brightness, CommandError>)
        ensures
            match Self::checked(percent) {
                Ok(b) => r == Ok::<Brightness, CommandError>(b),
                Err(e) => r is Err && r->Err_0@ == e,
            },
    {
        if percent <= MAX_BRIGHTNESS {
            Ok(Brightness(percent))
        } else {
            Err(CommandError::out_of_range("brightness", percent as u32, " > ", MAX_BRIGHTNESS as u32))
        }
    }
}

impl Default for Brightness {
    /// Full brightness.
    fn default() -> (b: Brightness)
        ensures
            b == Brightness::of(MAX_BRIGHTNESS),
    {
        Brightness(MAX_BRIGHTNESS)
    }
}

impl TryFrom<u8> for Brightness {
    type Error = CommandError;

    fn try_from(percent: u8) -> (r: Result<Self, Self::Error>)
        ensures
            match Brightness::checked(percent) {
                Ok(b) => r == Ok::<Brightness, CommandError>(b),
                Err(e) => r is Err && r->Err_0@ == e,
            },
    {
        Brightness::new(percent)
    }
}

/// The error carries a text, so the result is stated by `try_from` itself,
/// over `Brightness::checked`.
impl TryFromSpecImpl<u8> for Brightness {
    open spec fn obeys_try_from_spec() -> bool {
        false
    }

    open spec fn try_from_spec(percent: u8) -> Result<Self, Self::Error> {
        arbitrary()
    }
}

/// command to send to device to change color
#[derive(Copy, Clone, Debug, PartialEq, Eq, Structural)]
pub enum Command {
    /// One colour for one sector, or for all where none is named.
    ColorSector(RgbColor, Option<u8>),
    Breathe(RgbColor, Option<Speed>, Option<Brightness>),
    Cycle(Option<Speed>, Option<Brightness>),
    Wave(Direction, Option<Speed>, Option<Brightness>),
    StartEffect(bool),
    Blend(Option<Speed>, Option<Brightness>),
    Dpi(Dpi),
}

/// The kind of hardware that a model is.
#[derive(Copy, Clone, Debug, PartialEq, Eq, Structural)]
pub enum DeviceType {
    Keyboard,
    Mouse,
}

/// The name by which a model is known, in listings and in the configuration.
#[derive(Clone, Debug, PartialEq, Eq)]
pub struct GModelId(pub String);

/// A percentage is a brightness exactly when it is at most 100.
pub proof fn brightness_limit(percent: u8)
    ensures
        Brightness::checked(percent) is Ok <==> percent <= 100,
        percent > 100 ==> (Brightness::checked(percent) matches Err(
            CommandErrorView::InvalidArgument(name, _),
        ) && name == "brightness"@),
{
}

impl Command {
    /// The brightness that the command asks for.
    pub open spec fn brightness(self) -> Option<Brightness> {
        match self {
            Command::Breathe(_, _, brightness) => brightness,
            Command::Cycle(_, brightness) => brightness,
            Command::Wave(_, _, brightness) => brightness,
            Command::Blend(_, brightness) => brightness,
            _ => None,
        }
    }

    /// Whether the command's brightness, if it has one, is at most 100: so
    /// it is of every command that is made by the library's functions.
    pub open spec fn valid(self) -> bool {
        self.brightness() matches Some(b) ==> b.value() <= MAX_BRIGHTNESS
    }
}

/// A direction's word names that direction.
pub proof fn direction_name_is_read_back(direction: Direction)
    ensures
        Direction::from_name(direction.spec_name()) == Some(direction),
{
    reveal_strlit("left-to-right");
    reveal_strlit("right-to-left");
    reveal_strlit("center-to-edge");
    reveal_strlit("edge-to-center");
    assert("left-to-right"@.len() == 13 && "left-to-right"@[0] == 'l');
    assert("right-to-left"@.len() == 13 && "right-to-left"@[0] == 'r');
    assert("center-to-edge"@.len() == 14 && "center-to-edge"@[0] == 'c');
    assert("edge-to-center"@.len() == 14 && "edge-to-center"@[0] == 'e');
}

} // verus!
