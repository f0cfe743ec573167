//! The stored configuration: for each model, the effect that was asked for
//! last, kept in an INI document with one section per model.

use vstd::prelude::*;
use vstd::string::*;
use vstd::utf8::*;
use ini::{Ini, LineSeparator, WriteOption};
use crate::color::{hex_round_trip, RgbColor};
use crate::command::{
    direction_name_is_read_back, Brightness, Command, Direction, Dpi, Speed, MAX_BRIGHTNESS,
};
use crate::model::GDeviceModel;
use crate::text::{
    decimal, decimal_chars, decimal_chars_differ, decimal_is_read_back, parse_decimal,
    parsed_decimal, str_eq,
};

verus! {

/// Where the configuration is kept.
pub const CONFIG_PATH: &'static str = "/etc/gdevd.conf";

/// `ini::Ini`: an INI document, held as the outside crate keeps it. Nothing
/// of its inside is known here; what it holds is named by `ini_entries`.
#[verifier::external_type_specification]
#[verifier::external_body]
pub struct ExIni(Ini);

/// What a configuration holds: a section's name and a key lead to a value.
pub type Entries = Map<(Seq<char>, Seq<char>), Seq<char>>;

/// What an INI document holds in its named sections: for a section's name
/// and a key, the first value under that key in the first section of that
/// name.
pub uninterp spec fn ini_entries(ini: Ini) -> Map<(Seq<char>, Seq<char>), Seq<char>>;

/// What a text holds when read as an INI document, where it can be read as one.
pub uninterp spec fn ini_parsed(text: Seq<char>) -> Option<Map<(Seq<char>, Seq<char>), Seq<char>>>;

/// An INI document written out as text, each line ended by `\n`.
pub uninterp spec fn ini_text(ini: Ini) -> Seq<char>;

/// `Ini::new`: a document without a named section.
#[verifier::external_body]
fn ini_new() -> (ini: Ini)
    ensures
        ini_entries(ini) == Entries::empty(),
{
    Ini::new()
}

/// `Ini::load_from_str`: the document that a text denotes, if it denotes
/// one. What it holds depends on the text alone.
#[verifier::external_body]
fn ini_load_from_str(text: &str) -> (r: Option<Ini>)
    ensures
        match r {
            Some(ini) => ini_parsed(text@) == Some(ini_entries(ini)),
            None => ini_parsed(text@) is None,
        },
{
    Ini::load_from_str(text).ok()
}

/// `Ini::get_from`: the first value under a key in the first section of a
/// name.
#[verifier::external_body]
fn ini_get<'a>(ini: &'a Ini, section: &str, key: &str) -> (r: Option<&'a str>)
    ensures
        match r {
            Some(value) => ini_entries(*ini).contains_key((section@, key@)) && ini_entries(
                *ini,
            )[(section@, key@)] == value@,
            None => !ini_entries(*ini).contains_key((section@, key@)),
        },
{
    ini.get_from(Some(section), key)
}

/// `SectionSetter::set`, on the setter that `Ini::with_section` gives: the
/// key gets this one value in the first section of the name, which is made
/// if there is none. Nothing else changes.
#[verifier::external_body]
fn ini_set(ini: &mut Ini, section: &str, key: &str, value: &str)
    ensures
        ini_entries(*final(ini)) == ini_entries(*old(ini)).insert((section@, key@), value@),
{
    ini.with_section(Some(section)).set(key, value);
}

/// `SectionSetter::delete`, on the setter that `Ini::with_section` gives:
/// the key leaves every section of the name. Nothing else changes.
#[verifier::external_body]
fn ini_delete(ini: &mut Ini, section: &str, key: &str)
    ensures
        ini_entries(*final(ini)) == ini_entries(*old(ini)).remove((section@, key@)),
{
    ini.with_section(Some(section)).delete(&key);
}

/// `Ini::write_to_opt`, into memory and with `\n` at the end of each line:
/// the document as text.
#[verifier::external_body]
fn ini_write(ini: &Ini) -> (text: String)
    ensures
        text@ == ini_text(*ini),
{
    let mut out: Vec<u8> = Vec::new();
    let opt = WriteOption { line_separator: LineSeparator::CR, ..Default::default() };
    let _ = ini.write_to_opt(&mut out, opt);
    String::from_utf8_lossy(&out).into_owned()
}

/// The value under a key of a section.
pub open spec fn lookup(entries: Entries, section: Seq<char>, key: Seq<char>) -> Option<Seq<char>> {
    if entries.contains_key((section, key)) {
        Some(entries[(section, key)])
    } else {
        None
    }
}

/// The key under which the colour of a sector is kept.
pub open spec fn sector_key(sector: nat) -> Seq<char> {
    "color-"@ + decimal_chars(sector)
}

/// The colour under a key; the default where there is none or it is no colour.
pub open spec fn color_prop(
    entries: Entries,
    section: Seq<char>,
    key: Seq<char>,
    default: RgbColor,
) -> RgbColor {
    match lookup(entries, section, key) {
        Some(text) => match RgbColor::from_hex_chars(text) {
            Ok(color) => color,
            Err(_) => default,
        },
        None => default,
    }
}

/// The number under a key, where there is one of at most `max`.
pub open spec fn number_prop(entries: Entries, section: Seq<char>, key: Seq<char>, max: nat) -> Option<
    nat,
> {
    match lookup(entries, section, key) {
        Some(text) => parsed_decimal(encode_utf8(text), max),
        None => None,
    }
}

/// The speed under a key; none where there is none or it is no speed.
pub open spec fn speed_prop(entries: Entries, section: Seq<char>, key: Seq<char>) -> Option<Speed> {
    match number_prop(entries, section, key, u16::MAX as nat) {
        Some(n) => Some(Speed(n as u16)),
        None => None,
    }
}

/// The brightness under a key; none where there is none or it is no
/// percentage of at most 100.
pub open spec fn brightness_prop(entries: Entries, section: Seq<char>, key: Seq<char>) -> Option<
    Brightness,
> {
    match number_prop(entries, section, key, MAX_BRIGHTNESS as nat) {
        Some(n) => Some(Brightness::of(n as u8)),
        None => None,
    }
}

/// The direction under a key; left to right where there is none or it names
/// none.
pub open spec fn direction_prop(entries: Entries, section: Seq<char>, key: Seq<char>) -> Direction {
    match lookup(entries, section, key) {
        Some(text) => match Direction::from_name(text) {
            Some(d) => d,
            None => Direction::LeftToRight,
        },
        None => Direction::LeftToRight,
    }
}

/// The truth value under a key: `true` or `false`, nothing else.
pub open spec fn bool_prop(entries: Entries, section: Seq<char>, key: Seq<char>) -> Option<bool> {
    match lookup(entries, section, key) {
        Some(text) => if text == "true"@ {
            Some(true)
        } else if text == "false"@ {
            Some(false)
        } else {
            None
        },
        None => None,
    }
}

/// The commands that a section of the given kind stands for.
///
/// `static` gives one command per sector, each with the sector's stored
/// colour; `static-all` one colour for all; an effect gives one command. A
/// kind that is not known gives none.
pub open spec fn commands_of_kind(
    entries: Entries,
    section: Seq<char>,
    kind: Seq<char>,
    sectors: u8,
    default: RgbColor,
) -> Seq<Command> {
    if kind == "static"@ {
        Seq::new(
            sectors as nat,
            |i: int|
                Command::ColorSector(
                    color_prop(entries, section, sector_key(i as nat), default),
                    Some(i as u8),
                ),
        )
    } else if kind == "static-all"@ {
        seq![Command::ColorSector(color_prop(entries, section, "color-0"@, default), None)]
    } else if kind == "breathe"@ || kind == "breath"@ {
        seq![
            Command::Breathe(
                color_prop(entries, section, "color"@, default),
                speed_prop(entries, section, "speed"@),
                brightness_prop(entries, section, "brightness"@),
            ),
        ]
    } else if kind == "cycle"@ {
        seq![
            Command::Cycle(
                speed_prop(entries, section, "speed"@),
                brightness_prop(entries, section, "brightness"@),
            ),
        ]
    } else if kind == "wave"@ {
        seq![
            Command::Wave(
                direction_prop(entries, section, "direction"@),
                speed_prop(entries, section, "speed"@),
                brightness_prop(entries, section, "brightness"@),
            ),
        ]
    } else if kind == "startEffect"@ {
        seq![
            Command::StartEffect(
                match bool_prop(entries, section, "state"@) {
                    Some(state) => state,
                    None => true,
                },
            ),
        ]
    } else if kind == "blend"@ {
        seq![
            Command::Blend(
                speed_prop(entries, section, "speed"@),
                brightness_prop(entries, section, "brightness"@),
            ),
        ]
    } else if kind == "dpi"@ {
        match number_prop(entries, section, "dpi"@, u16::MAX as nat) {
            Some(n) => seq![Command::Dpi(Dpi(n as u16))],
            None => Seq::empty(),
        }
    } else {
        Seq::empty()
    }
}

/// The commands stored for a model: those of its section's kind; none where
/// the model has no section or the section no kind.
pub open spec fn stored_commands(
    entries: Entries,
    section: Seq<char>,
    sectors: u8,
    default: RgbColor,
) -> Seq<Command> {
    match lookup(entries, section, "type"@) {
        Some(kind) => commands_of_kind(entries, section, kind, sectors, default),
        None => Seq::empty(),
    }
}

/// The entries with a speed stored, or with none where none is given.
pub open spec fn with_speed(entries: Entries, section: Seq<char>, speed: Option<Speed>) -> Entries {
    match speed {
        Some(s) => entries.insert((section, "speed"@), decimal_chars(s.0 as nat)),
        None => entries.remove((section, "speed"@)),
    }
}

/// The entries with a brightness stored, or with none where none is given.
pub open spec fn with_brightness(
    entries: Entries,
    section: Seq<char>,
    brightness: Option<Brightness>,
) -> Entries {
    match brightness {
        Some(b) => entries.insert((section, "brightness"@), decimal_chars(b.value() as nat)),
        None => entries.remove((section, "brightness"@)),
    }
}

/// The entries with the same colour stored for each of the first `count`
/// sectors.
pub open spec fn with_sector_colors(
    entries: Entries,
    section: Seq<char>,
    count: nat,
    color: Seq<char>,
) -> Entries
    decreases count,
{
    if count == 0 {
        entries
    } else {
        with_sector_colors(entries, section, (count - 1) as nat, color).insert(
            (section, sector_key((count - 1) as nat)),
            color,
        )
    }
}

/// The brightness that is stored for a model: the one asked for where the
/// model can dim, none where it cannot.
pub open spec fn stored_brightness(dims: bool, brightness: Option<Brightness>) -> Option<Brightness> {
    if dims {
        brightness
    } else {
        None
    }
}

/// The entries after a command was stored for a model.
pub open spec fn saved(
    entries: Entries,
    section: Seq<char>,
    sectors: u8,
    dims: bool,
    cmd: Command,
) -> Entries {
    match cmd {
        Command::ColorSector(color, Some(sector)) => entries.insert(
            (section, "type"@),
            "static"@,
        ).insert((section, sector_key(sector as nat)), color.hex_chars()),
        Command::ColorSector(color, None) => with_sector_colors(
            entries.insert((section, "type"@), "static-all"@),
            section,
            sectors as nat,
            color.hex_chars(),
        ),
        Command::Breathe(color, speed, brightness) => with_brightness(
            with_speed(
                entries.insert((section, "type"@), "breathe"@).insert(
                    (section, "color"@),
                    color.hex_chars(),
                ),
                section,
                speed,
            ),
            section,
            stored_brightness(dims, brightness),
        ),
        Command::Cycle(speed, brightness) => with_brightness(
            with_speed(entries.insert((section, "type"@), "cycle"@), section, speed),
            section,
            stored_brightness(dims, brightness),
        ),
        Command::Wave(direction, speed, brightness) => with_brightness(
            with_speed(
                entries.insert((section, "type"@), "wave"@).insert(
                    (section, "direction"@),
                    direction.spec_name(),
                ),
                section,
                speed,
            ),
            section,
            stored_brightness(dims, brightness),
        ),
        Command::StartEffect(state) => entries.insert((section, "type"@), "startEffect"@).insert(
            (section, "state"@),
            if state {
                "true"@
            } else {
                "false"@
            },
        ),
        Command::Blend(speed, brightness) => with_brightness(
            with_speed(entries.insert((section, "type"@), "blend"@), section, speed),
            section,
            stored_brightness(dims, brightness),
        ),
        Command::Dpi(dpi) => entries.insert((section, "type"@), "dpi"@).insert(
            (section, "dpi"@),
            decimal_chars(dpi.0 as nat),
        ),
    }
}

/// The stored configuration.
#[derive(Debug)]
pub struct Config(Ini);

impl Config {
    /// What the configuration holds.
    pub closed spec fn entries(&self) -> Entries {
        ini_entries(self.0)
    }

    /// The configuration written out as text.
    pub closed spec fn text(&self) -> Seq<char> {
        ini_text(self.0)
    }

    /// What a text holds when it is loaded: what it denotes as an INI
    /// document, and nothing where it denotes none.
    pub open spec fn loaded(text: Seq<char>) -> Entries {
        match ini_parsed(text) {
            Some(entries) => entries,
            None => Map::empty(),
        }
    }

    /// A configuration that holds nothing.
    pub fn new() -> (config: Config)
        ensures
            config.entries() == Entries::empty(),
    {
        Config(ini_new())
    }

    /// The configuration that a text holds. A text that is no INI document
    /// is treated as empty.
    pub fn load(text: &str) -> (config: Config)
        ensures
            config.entries() == Self::loaded(text@),
    {
        match ini_load_from_str(text) {
            Some(ini) => Config(ini),
            None => Config(ini_new()),
        }
    }

    /// The configuration as the text to keep.
    pub fn to_text(&self) -> (text: String)
        ensures
            text@ == self.text(),
    {
        ini_write(&self.0)
    }

    /// The commands to replay for a model, in order.
    pub fn commands_for<M: GDeviceModel>(&self, model: &M) -> (commands: Vec<Command>)
        ensures
            commands@ == stored_commands(
                self.entries(),
                model.name(),
                model.sectors(),
                model.default_color(),
            ),
    {
        match ini_get(&self.0, model.get_name(), "type") {
            Some(kind) => self.parse_model_config(kind, model),
            None => Vec::new(),
        }
    }

    fn parse_model_config<M: GDeviceModel>(&self, kind: &str, model: &M) -> (commands: Vec<Command>)
        ensures
            commands@ == commands_of_kind(
                self.entries(),
                model.name(),
                kind@,
                model.sectors(),
                model.default_color(),
            ),
    {
        let mut commands: Vec<Command> = Vec::new();
        if str_eq(kind, "static") {
            let sectors = model.get_sectors();
            let mut i: u8 = 0;
            while i < sectors
                invariant
                    i <= sectors,
                    sectors == model.sectors(),
                    commands@ == Seq::new(
                        i as nat,
                        |k: int|
                            Command::ColorSector(
                                color_prop(
                                    self.entries(),
                                    model.name(),
                                    sector_key(k as nat),
                                    model.default_color(),
                                ),
                                Some(k as u8),
                            ),
                    ),
                decreases sectors - i,
            {
                let key = Self::sector_key(i);
                let color = self.parse_color_prop(model, key.as_str());
                commands.push(Command::ColorSector(color, Some(i)));
                i += 1;
                assert(commands@ =~= Seq::new(
                    i as nat,
                    |k: int|
                        Command::ColorSector(
                            color_prop(
                                self.entries(),
                                model.name(),
                                sector_key(k as nat),
                                model.default_color(),
                            ),
                            Some(k as u8),
                        ),
                ));
            }
        } else if str_eq(kind, "static-all") {
            commands.push(Command::ColorSector(self.parse_color_prop(model, "color-0"), None));
        } else if str_eq(kind, "breathe") || str_eq(kind, "breath") {
            commands.push(
                Command::Breathe(
                    self.parse_color_prop(model, "color"),
                    self.parse_speed(model, "speed"),
                    self.parse_brightness(model, "brightness"),
                ),
            );
        } else if str_eq(kind, "cycle") {
            commands.push(
                Command::Cycle(
                    self.parse_speed(model, "speed"),
                    self.parse_brightness(model, "brightness"),
                ),
            );
        } else if str_eq(kind, "wave") {
            commands.push(
                Command::Wave(
                    self.parse_direction(model, "direction"),
                    self.parse_speed(model, "speed"),
                    self.parse_brightness(model, "brightness"),
                ),
            );
        } else if str_eq(kind, "startEffect") {
            let state = match self.parse_bool(model, "state") {
                Some(state) => state,
                None => true,
            };
            commands.push(Command::StartEffect(state));
        } else if str_eq(kind, "blend") {
            commands.push(
                Command::Blend(
                    self.parse_speed(model, "speed"),
                    self.parse_brightness(model, "brightness"),
                ),
            );
        } else if str_eq(kind, "dpi") {
            match self.parse_number(model, "dpi", 0xffff) {
                Some(n) => {
                    commands.push(Command::Dpi(Dpi(n as u16)));
                },
                None => {},
            }
        }
        assert(commands@ =~= commands_of_kind(
            self.entries(),
            model.name(),
            kind@,
            model.sectors(),
            model.default_color(),
        ));
        commands
    }

    fn sector_key(sector: u8) -> (key: String)
        ensures
            key@ == sector_key(sector as nat),
    {
        let mut key = String::from_str("color-");
        let number = decimal(sector as u32);
        key.append(number.as_str());
        key
    }

    fn parse_color_prop<M: GDeviceModel>(&self, model: &M, key: &str) -> (color: RgbColor)
        ensures
            color == color_prop(self.entries(), model.name(), key@, model.default_color()),
    {
        match ini_get(&self.0, model.get_name(), key) {
            Some(text) => match RgbColor::from_hex(text) {
                Ok(rgb) => rgb,
                Err(_) => model.get_default_color(),
            },
            None => model.get_default_color(),
        }
    }

    fn parse_number<M: GDeviceModel>(&self, model: &M, key: &str, max: u32) -> (r: Option<u32>)
        ensures
            match number_prop(self.entries(), model.name(), key@, max as nat) {
                Some(n) => r == Some(n as u32),
                None => r is None,
            },
    {
        match ini_get(&self.0, model.get_name(), key) {
            Some(text) => parse_decimal(text, max),
            None => None,
        }
    }

    fn parse_speed<M: GDeviceModel>(&self, model: &M, key: &str) -> (speed: Option<Speed>)
        ensures
            speed == speed_prop(self.entries(), model.name(), key@),
    {
        match self.parse_number(model, key, 0xffff) {
            Some(n) => Some(Speed(n as u16)),
            None => None,
        }
    }

    fn parse_brightness<M: GDeviceModel>(&self, model: &M, key: &str) -> (brightness: Option<
        Brightness,
    >)
        ensures
            brightness == brightness_prop(self.entries(), model.name(), key@),
    {
        match self.parse_number(model, key, MAX_BRIGHTNESS as u32) {
            Some(n) => match Brightness::new(n as u8) {
                Ok(b) => Some(b),
                Err(_) => None,
            },
            None => None,
        }
    }

    fn parse_direction<M: GDeviceModel>(&self, model: &M, key: &str) -> (direction: Direction)
        ensures
            direction == direction_prop(self.entries(), model.name(), key@),
    {
        match ini_get(&self.0, model.get_name(), key) {
            Some(text) => match Direction::parse(text) {
                Some(d) => d,
                None => Direction::LeftToRight,
            },
            None => Direction::LeftToRight,
        }
    }

    fn parse_bool<M: GDeviceModel>(&self, model: &M, key: &str) -> (r: Option<bool>)
        ensures
            r == bool_prop(self.entries(), model.name(), key@),
    {
        match ini_get(&self.0, model.get_name(), key) {
            Some(text) => if str_eq(text, "true") {
                Some(true)
            } else if str_eq(text, "false") {
                Some(false)
            } else {
                None
            },
            None => None,
        }
    }

    /// Stores a command as the model's effect, in place of what was stored
    /// for the model before. A speed or brightness that the command leaves
    /// open is not stored, and neither is a brightness for a model that
    /// cannot dim.
    pub fn save_command<M: GDeviceModel>(&mut self, model: &M, cmd: Command)
        ensures
            final(self).entries() == saved(
                old(self).entries(),
                model.name(),
                model.sectors(),
                model.dims(),
                cmd,
            ),
    {
        let name = model.get_name();
        let dims = model.supports_brightness();
        match cmd {
            Command::ColorSector(color, Some(sector)) => {
                ini_set(&mut self.0, name, "type", "static");
                let key = Self::sector_key(sector);
                let hex = color.to_hex();
                ini_set(&mut self.0, name, key.as_str(), hex.as_str());
            },
            Command::ColorSector(color, None) => {
                ini_set(&mut self.0, name, "type", "static-all");
                let hex = color.to_hex();
                let sectors = model.get_sectors();
                let ghost start = self.entries();
                let mut i: u8 = 0;
                while i < sectors
                    invariant
                        i <= sectors,
                        hex@ == color.hex_chars(),
                        name@ == model.name(),
                        self.entries() == with_sector_colors(start, name@, i as nat, hex@),
                    decreases sectors - i,
                {
                    let key = Self::sector_key(i);
                    ini_set(&mut self.0, name, key.as_str(), hex.as_str());
                    i += 1;
                }
            },
            Command::Breathe(color, speed, brightness) => {
                ini_set(&mut self.0, name, "type", "breathe");
                let hex = color.to_hex();
                ini_set(&mut self.0, name, "color", hex.as_str());
                self.set_speed(name, speed);
                self.set_brightness(name, if dims { brightness } else { None });
            },
            Command::Cycle(speed, brightness) => {
                ini_set(&mut self.0, name, "type", "cycle");
                self.set_speed(name, speed);
                self.set_brightness(name, if dims { brightness } else { None });
            },
            Command::Wave(direction, speed, brightness) => {
                ini_set(&mut self.0, name, "type", "wave");
                ini_set(&mut self.0, name, "direction", direction.name());
                self.set_speed(name, speed);
                self.set_brightness(name, if dims { brightness } else { None });
            },
            Command::StartEffect(state) => {
                ini_set(&mut self.0, name, "type", "startEffect");
                ini_set(&mut self.0, name, "state", if state { "true" } else { "false" });
            },
            Command::Blend(speed, brightness) => {
                ini_set(&mut self.0, name, "type", "blend");
                self.set_speed(name, speed);
                self.set_brightness(name, if dims { brightness } else { None });
            },
            Command::Dpi(dpi) => {
                ini_set(&mut self.0, name, "type", "dpi");
                let number = decimal(dpi.0 as u32);
                ini_set(&mut self.0, name, "dpi", number.as_str());
            },
        }
    }

    fn set_speed(&mut self, section: &str, speed: Option<Speed>)
        ensures
            final(self).entries() == with_speed(old(self).entries(), section@, speed),
    {
        match speed {
            Some(speed) => {
                let number = decimal(speed.0 as u32);
                ini_set(&mut self.0, section, "speed", number.as_str());
            },
            None => {
                ini_delete(&mut self.0, section, "speed");
            },
        }
    }

    fn set_brightness(&mut self, section: &str, brightness: Option<Brightness>)
        ensures
            final(self).entries() == with_brightness(old(self).entries(), section@, brightness),
    {
        match brightness {
            Some(brightness) => {
                let number = decimal(brightness.get() as u32);
                ini_set(&mut self.0, section, "brightness", number.as_str());
            },
            None => {
                ini_delete(&mut self.0, section, "brightness");
            },
        }
    }
}

/// The word under which the kind of a command is stored.
pub open spec fn kind_name(cmd: Command) -> Seq<char> {
    match cmd {
        Command::ColorSector(_, Some(_)) => "static"@,
        Command::ColorSector(_, None) => "static-all"@,
        Command::Breathe(_, _, _) => "breathe"@,
        Command::Cycle(_, _) => "cycle"@,
        Command::Wave(_, _, _) => "wave"@,
        Command::StartEffect(_) => "startEffect"@,
        Command::Blend(_, _) => "blend"@,
        Command::Dpi(_) => "dpi"@,
    }
}

/// Storing sector colours touches the colour keys of one section only.
pub proof fn sector_colors_keep_kind(
    entries: Entries,
    section: Seq<char>,
    count: nat,
    color: Seq<char>,
    other: Seq<char>,
)
    ensures
        lookup(with_sector_colors(entries, section, count, color), other, "type"@) == lookup(
            entries,
            other,
            "type"@,
        ),
    decreases count,
{
    if count > 0 {
        sector_colors_keep_kind(entries, section, (count - 1) as nat, color, other);
        sector_key_is_no_kind((count - 1) as nat);
    }
}

/// No sector's key is the key of the kind.
pub proof fn sector_key_is_no_kind(sector: nat)
    ensures
        sector_key(sector) != "type"@,
{
    reveal_strlit("type");
    reveal_strlit("color-");
    assert(sector_key(sector).len() >= 6);
}

/// The key of the kind is none of the other keys of a section.
pub proof fn kind_key_is_distinct()
    ensures
        "type"@ != "color"@,
        "type"@ != "speed"@,
        "type"@ != "brightness"@,
        "type"@ != "direction"@,
        "type"@ != "state"@,
        "type"@ != "dpi"@,
{
    reveal_strlit("type");
    reveal_strlit("color");
    reveal_strlit("speed");
    reveal_strlit("brightness");
    reveal_strlit("direction");
    reveal_strlit("state");
    reveal_strlit("dpi");
    assert("type"@.len() == 4);
    assert("color"@.len() == 5);
    assert("speed"@.len() == 5);
    assert("brightness"@.len() == 10);
    assert("direction"@.len() == 9);
    assert("state"@.len() == 5);
    assert("dpi"@.len() == 3);
}

/// Storing a speed and a brightness leaves the kind of every section.
pub proof fn timing_keeps_kind(
    entries: Entries,
    section: Seq<char>,
    speed: Option<Speed>,
    brightness: Option<Brightness>,
    other: Seq<char>,
)
    ensures
        lookup(
            with_brightness(with_speed(entries, section, speed), section, brightness),
            other,
            "type"@,
        ) == lookup(entries, other, "type"@),
{
    kind_key_is_distinct();
}

/// After a command was stored for a model, the model's section names the
/// command's kind, and the kind of every other section is as before.
pub proof fn saved_kind(
    entries: Entries,
    section: Seq<char>,
    sectors: u8,
    dims: bool,
    cmd: Command,
    other: Seq<char>,
)
    ensures
        lookup(saved(entries, section, sectors, dims, cmd), other, "type"@) == (if other
            == section {
            Some(kind_name(cmd))
        } else {
            lookup(entries, other, "type"@)
        }),
{
    kind_key_is_distinct();
    let named = entries.insert((section, "type"@), kind_name(cmd));
    assert(lookup(named, other, "type"@) == (if other == section {
        Some(kind_name(cmd))
    } else {
        lookup(entries, other, "type"@)
    }));
    match cmd {
        Command::ColorSector(color, Some(sector)) => {
            sector_key_is_no_kind(sector as nat);
        },
        Command::ColorSector(color, None) => {
            sector_colors_keep_kind(named, section, sectors as nat, color.hex_chars(), other);
        },
        Command::Breathe(color, speed, brightness) => {
            timing_keeps_kind(
                named.insert((section, "color"@), color.hex_chars()),
                section,
                speed,
                stored_brightness(dims, brightness),
                other,
            );
        },
        Command::Cycle(speed, brightness) => {
            timing_keeps_kind(named, section, speed, stored_brightness(dims, brightness), other);
        },
        Command::Wave(direction, speed, brightness) => {
            timing_keeps_kind(
                named.insert((section, "direction"@), direction.spec_name()),
                section,
                speed,
                stored_brightness(dims, brightness),
                other,
            );
        },
        Command::StartEffect(state) => {},
        Command::Blend(speed, brightness) => {
            timing_keeps_kind(named, section, speed, stored_brightness(dims, brightness), other);
        },
        Command::Dpi(dpi) => {},
    }
}

/// The keys of a section are different words.
pub proof fn keys_are_distinct()
    ensures
        "color"@ != "speed"@,
        "color"@ != "brightness"@,
        "speed"@ != "brightness"@,
        "direction"@ != "speed"@,
        "direction"@ != "brightness"@,
        "type"@ != "color"@,
        "type"@ != "speed"@,
        "type"@ != "brightness"@,
        "type"@ != "direction"@,
        "type"@ != "state"@,
        "type"@ != "dpi"@,
{
    kind_key_is_distinct();
    reveal_strlit("color");
    reveal_strlit("speed");
    reveal_strlit("brightness");
    reveal_strlit("direction");
    assert("color"@.len() == 5 && "color"@[0] == 'c');
    assert("speed"@.len() == 5 && "speed"@[0] == 's');
    assert("brightness"@.len() == 10);
    assert("direction"@.len() == 9);
}

/// The words for the kinds are different words.
pub proof fn kinds_are_distinct(a: Command, b: Command)
    ensures
        kind_name(a) == kind_name(b) <==> (a is Breathe && b is Breathe) || (a is Cycle && b
            is Cycle) || (a is Wave && b is Wave) || (a is StartEffect && b is StartEffect) || (a
            is Blend && b is Blend) || (a is Dpi && b is Dpi) || (a matches Command::ColorSector(
            _,
            x,
        ) && b matches Command::ColorSector(_, y) && (x is Some <==> y is Some)),
        kind_name(a) != "breath"@,
{
    reveal_strlit("static");
    reveal_strlit("static-all");
    reveal_strlit("breathe");
    reveal_strlit("breath");
    reveal_strlit("cycle");
    reveal_strlit("wave");
    reveal_strlit("startEffect");
    reveal_strlit("blend");
    reveal_strlit("dpi");
    assert("static"@.len() == 6 && "static"@[0] == 's');
    assert("static-all"@.len() == 10);
    assert("breathe"@.len() == 7);
    assert("breath"@.len() == 6 && "breath"@[0] == 'b');
    assert("cycle"@.len() == 5 && "cycle"@[0] == 'c');
    assert("wave"@.len() == 4);
    assert("startEffect"@.len() == 11);
    assert("blend"@.len() == 5 && "blend"@[0] == 'b');
    assert("dpi"@.len() == 3);
}

/// No two sectors share a key, and no sector's key is another key of a
/// section.
pub proof fn sector_keys_are_distinct(a: nat, b: nat)
    ensures
        a != b ==> sector_key(a) != sector_key(b),
        sector_key(a) != "type"@,
        sector_key(0) == "color-0"@,
{
    sector_key_is_no_kind(a);
    reveal_strlit("color-");
    reveal_strlit("color-0");
    assert("color-"@.len() == 6);
    if a != b {
        decimal_chars_differ(a, b);
        assert(sector_key(a).skip(6) =~= decimal_chars(a));
        assert(sector_key(b).skip(6) =~= decimal_chars(b));
    }
    assert(sector_key(0) =~= "color-0"@);
}

/// A speed and a brightness that were stored are read back, and storing
/// them leaves every other key.
pub proof fn timing_is_read_back(
    entries: Entries,
    section: Seq<char>,
    speed: Option<Speed>,
    brightness: Option<Brightness>,
)
    requires
        brightness matches Some(b) ==> b.value() <= MAX_BRIGHTNESS,
    ensures
        ({
            let after = with_brightness(with_speed(entries, section, speed), section, brightness);
            &&& speed_prop(after, section, "speed"@) == speed
            &&& brightness_prop(after, section, "brightness"@) == brightness
            &&& forall|key: Seq<char>|
                key != "speed"@ && key != "brightness"@ ==> lookup(after, section, key) == lookup(
                    entries,
                    section,
                    key,
                )
        }),
{
    keys_are_distinct();
    match speed {
        Some(s) => {
            decimal_is_read_back(s.0 as nat, u16::MAX as nat);
        },
        None => {},
    }
    match brightness {
        Some(b) => {
            decimal_is_read_back(b.value() as nat, MAX_BRIGHTNESS as nat);
            b.of_value();
        },
        None => {},
    }
}

/// The same colour, stored for the first sectors, is what each of them
/// holds.
pub proof fn sector_colors_are_stored(
    entries: Entries,
    section: Seq<char>,
    count: nat,
    color: Seq<char>,
    sector: nat,
)
    requires
        sector < count,
    ensures
        lookup(with_sector_colors(entries, section, count, color), section, sector_key(sector))
            == Some(color),
    decreases count,
{
    if sector < count - 1 {
        sector_colors_are_stored(entries, section, (count - 1) as nat, color, sector);
    }
}

/// A command as it is stored for a model: without its brightness where the
/// model cannot dim.
pub open spec fn stored_form(cmd: Command, dims: bool) -> Command {
    match cmd {
        Command::Breathe(color, speed, brightness) => Command::Breathe(
            color,
            speed,
            stored_brightness(dims, brightness),
        ),
        Command::Cycle(speed, brightness) => Command::Cycle(
            speed,
            stored_brightness(dims, brightness),
        ),
        Command::Wave(direction, speed, brightness) => Command::Wave(
            direction,
            speed,
            stored_brightness(dims, brightness),
        ),
        Command::Blend(speed, brightness) => Command::Blend(
            speed,
            stored_brightness(dims, brightness),
        ),
        _ => cmd,
    }
}

/// What was stored last for a model is what is replayed for it.
///
/// An effect, or one colour for all sectors, is replayed as the one command
/// that was stored. A colour for one sector is replayed among the colours
/// of all sectors: that sector with the new colour, every other sector with
/// the colour that it had.
pub proof fn saved_command_is_replayed(
    entries: Entries,
    section: Seq<char>,
    sectors: u8,
    default: RgbColor,
    dims: bool,
    cmd: Command,
)
    requires
        cmd.valid(),
        sectors > 0,
    ensures
        ({
            let replayed = stored_commands(
                saved(entries, section, sectors, dims, cmd),
                section,
                sectors,
                default,
            );
            match cmd {
                Command::ColorSector(color, Some(sector)) => {
                    &&& replayed.len() == sectors
                    &&& forall|i: int|
                        0 <= i < sectors ==> #[trigger] replayed[i] == Command::ColorSector(
                            if i == sector {
                                color
                            } else {
                                color_prop(entries, section, sector_key(i as nat), default)
                            },
                            Some(i as u8),
                        )
                },
                _ => replayed == seq![stored_form(cmd, dims)],
            }
        }),
{
    let after = saved(entries, section, sectors, dims, cmd);
    let replayed = stored_commands(after, section, sectors, default);
    saved_kind(entries, section, sectors, dims, cmd, section);
    keys_are_distinct();
    kinds_are_distinct(cmd, Command::ColorSector(default, Some(0)));
    kinds_are_distinct(cmd, Command::ColorSector(default, None));
    kinds_are_distinct(cmd, Command::Breathe(default, None, None));
    kinds_are_distinct(cmd, Command::Cycle(None, None));
    kinds_are_distinct(cmd, Command::Wave(Direction::LeftToRight, None, None));
    kinds_are_distinct(cmd, Command::StartEffect(true));
    kinds_are_distinct(cmd, Command::Blend(None, None));
    kinds_are_distinct(cmd, Command::Dpi(Dpi(0)));
    let named = entries.insert((section, "type"@), kind_name(cmd));
    match cmd {
        Command::ColorSector(color, Some(sector)) => {
            hex_round_trip(color);
            assert forall|i: int| 0 <= i < sectors implies #[trigger] replayed[i]
                == Command::ColorSector(
                if i == sector {
                    color
                } else {
                    color_prop(entries, section, sector_key(i as nat), default)
                },
                Some(i as u8),
            ) by {
                sector_keys_are_distinct(i as nat, sector as nat);
            }
        },
        Command::ColorSector(color, None) => {
            hex_round_trip(color);
            sector_keys_are_distinct(0, 0);
            sector_colors_are_stored(named, section, sectors as nat, color.hex_chars(), 0);
            assert(replayed =~= seq![stored_form(cmd, dims)]);
        },
        Command::Breathe(color, speed, brightness) => {
            hex_round_trip(color);
            timing_is_read_back(
                named.insert((section, "color"@), color.hex_chars()),
                section,
                speed,
                stored_brightness(dims, brightness),
            );
            assert(replayed =~= seq![stored_form(cmd, dims)]);
        },
        Command::Cycle(speed, brightness) => {
            timing_is_read_back(named, section, speed, stored_brightness(dims, brightness));
            assert(replayed =~= seq![stored_form(cmd, dims)]);
        },
        Command::Wave(direction, speed, brightness) => {
            direction_name_is_read_back(direction);
            timing_is_read_back(
                named.insert((section, "direction"@), direction.spec_name()),
                section,
                speed,
                stored_brightness(dims, brightness),
            );
            assert(replayed =~= seq![stored_form(cmd, dims)]);
        },
        Command::StartEffect(state) => {
            reveal_strlit("true");
            reveal_strlit("false");
            assert("true"@.len() == 4);
            assert("false"@.len() == 5);
            assert(replayed =~= seq![stored_form(cmd, dims)]);
        },
        Command::Blend(speed, brightness) => {
            timing_is_read_back(named, section, speed, stored_brightness(dims, brightness));
            assert(replayed =~= seq![stored_form(cmd, dims)]);
        },
        Command::Dpi(dpi) => {
            decimal_is_read_back(dpi.0 as nat, u16::MAX as nat);
            assert(replayed =~= seq![stored_form(cmd, dims)]);
        },
    }
}

} // verus!
