use gdevd::{Brightness, Command, CommandError, Direction, RgbColor, Speed};

#[test]
fn brightness_accepts_up_to_one_hundred() {
    for percent in [0u8, 1, 50, 99, 100] {
        let brightness = Brightness::try_from(percent).expect("a percentage is a brightness");
        assert_eq!(brightness.get(), percent);
    }
}

#[test]
fn brightness_rejects_more_than_one_hundred() {
    assert_eq!(
        Brightness::try_from(101),
        Err(CommandError::InvalidArgument("brightness", "101 > 100".to_string()))
    );
    assert_eq!(
        Brightness::new(255),
        Err(CommandError::InvalidArgument("brightness", "255 > 100".to_string()))
    );
}

#[test]
fn brightness_defaults_to_full() {
    assert_eq!(Brightness::default().get(), 100);
    assert_eq!(Brightness::default(), Brightness::new(100).unwrap());
}

#[test]
fn direction_codes() {
    assert_eq!(Direction::LeftToRight.code(), 1);
    assert_eq!(Direction::RightToLeft.code(), 6);
    assert_eq!(Direction::CenterToEdge.code(), 3);
    assert_eq!(Direction::EdgeToCenter.code(), 8);
}

#[test]
fn direction_is_read_from_its_word() {
    assert_eq!(Direction::try_from("left-to-right"), Ok(Direction::LeftToRight));
    assert_eq!(Direction::try_from("right-to-left"), Ok(Direction::RightToLeft));
    assert_eq!(Direction::try_from("center-to-edge"), Ok(Direction::CenterToEdge));
    assert_eq!(Direction::try_from("edge-to-center"), Ok(Direction::EdgeToCenter));
    assert_eq!(Direction::try_from("Left-To-Right"), Err(()));
    assert_eq!(Direction::try_from(""), Err(()));
    assert_eq!(Direction::try_from("left-to-right "), Err(()));
    assert_eq!(Direction::parse("up"), None);
}

#[test]
fn direction_word_round_trip() {
    for direction in [
        Direction::LeftToRight,
        Direction::RightToLeft,
        Direction::CenterToEdge,
        Direction::EdgeToCenter,
    ] {
        assert_eq!(Direction::parse(direction.name()), Some(direction));
    }
}

#[test]
fn direction_defaults_to_left_to_right() {
    assert_eq!(Direction::default(), Direction::LeftToRight);
}

#[test]
fn speed_from_number() {
    assert_eq!(Speed::from(500), Speed(500));
    let speed: Speed = 32u16.into();
    assert_eq!(speed.0, 32);
}

#[test]
fn commands_are_values() {
    let cmd = Command::Breathe(RgbColor(1, 2, 3), Some(Speed(500)), None);
    let copy = cmd;
    assert_eq!(cmd, copy);
    assert_ne!(cmd, Command::Breathe(RgbColor(1, 2, 3), None, None));
}
