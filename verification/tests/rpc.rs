use gdevd::rpc::{self, InvalidArg};
use gdevd::{Brightness, Command, Direction, RgbColor, Speed};

fn percent(value: u8) -> Option<Brightness> {
    Some(Brightness::new(value).unwrap())
}

#[test]
fn color_calls() {
    assert_eq!(
        rpc::color_sector("00ff00", 3),
        Ok(Command::ColorSector(RgbColor(0, 0xff, 0), Some(3)))
    );
    assert_eq!(rpc::color_sectors("00FF00"), Ok(Command::ColorSector(RgbColor(0, 0xff, 0), None)));
    assert_eq!(rpc::color_sector("00ff0", 3), Err(InvalidArg::Color));
    assert_eq!(rpc::color_sectors("green"), Err(InvalidArg::Color));
    assert_eq!(rpc::color_sectors("#00ff00"), Err(InvalidArg::Color));
}

#[test]
fn effect_calls() {
    assert_eq!(
        rpc::breathe("ff00ff", 500, 100),
        Ok(Command::Breathe(RgbColor(0xff, 0, 0xff), Some(Speed(500)), percent(100)))
    );
    assert_eq!(rpc::cycle(1000, 0), Ok(Command::Cycle(Some(Speed(1000)), percent(0))));
    assert_eq!(
        rpc::wave("center-to-edge", 65535, 50),
        Ok(Command::Wave(Direction::CenterToEdge, Some(Speed(65535)), percent(50)))
    );
}

#[test]
fn invalid_arguments_are_named() {
    assert_eq!(rpc::breathe("ff00ff", 500, 101), Err(InvalidArg::Brightness));
    assert_eq!(rpc::breathe("ff00f", 500, 101), Err(InvalidArg::Color));
    assert_eq!(rpc::cycle(500, 200), Err(InvalidArg::Brightness));
    assert_eq!(rpc::wave("diagonal", 500, 100), Err(InvalidArg::Direction));
    assert_eq!(rpc::wave("diagonal", 500, 101), Err(InvalidArg::Direction));
    assert_eq!(rpc::wave("left-to-right", 500, 101), Err(InvalidArg::Brightness));
    assert_eq!(rpc::parse_brightness(100), Ok(percent(100)));
    assert_eq!(rpc::parse_brightness(101), Err(InvalidArg::Brightness));
}

#[test]
fn faults_have_their_texts() {
    assert_eq!(InvalidArg::Color.message(), "color");
    assert_eq!(InvalidArg::Direction.message(), "direction");
    assert_eq!(InvalidArg::Brightness.message(), "brightness must be between 0 and 100");
}
