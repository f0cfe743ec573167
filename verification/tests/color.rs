use gdevd::{FromHexError, RgbColor};

#[test]
fn from_hex_reads_six_digits() {
    assert_eq!(RgbColor::from_hex("ff00ff"), Ok(RgbColor(0xff, 0x00, 0xff)));
    assert_eq!(RgbColor::from_hex("00A9e0"), Ok(RgbColor(0x00, 0xa9, 0xe0)));
}

#[test]
fn to_hex_writes_lower_case() {
    assert_eq!(RgbColor(0x00, 0xa9, 0xe0).to_hex(), "00a9e0");
    assert_eq!(RgbColor(255, 0, 255).to_hex(), "ff00ff");
}

#[test]
fn hex_round_trip_on_samples() {
    for r in [0u8, 1, 9, 10, 15, 16, 127, 128, 254, 255] {
        for g in [0u8, 7, 99, 160, 255] {
            for b in [0u8, 33, 171, 255] {
                let color = RgbColor(r, g, b);
                assert_eq!(RgbColor::from_hex(&color.to_hex()), Ok(color));
            }
        }
    }
}

#[test]
fn from_hex_rejects_wrong_length() {
    assert_eq!(RgbColor::from_hex("fff"), Err(FromHexError::OddLength));
    assert_eq!(RgbColor::from_hex("ffff"), Err(FromHexError::InvalidStringLength));
    assert_eq!(RgbColor::from_hex(""), Err(FromHexError::InvalidStringLength));
    assert_eq!(RgbColor::from_hex("ff00ff00"), Err(FromHexError::InvalidStringLength));
}

#[test]
fn from_hex_rejects_other_characters() {
    assert_eq!(
        RgbColor::from_hex("ff00fg"),
        Err(FromHexError::InvalidHexCharacter { c: 'g', index: 5 })
    );
    assert_eq!(
        RgbColor::from_hex("zz00ff"),
        Err(FromHexError::InvalidHexCharacter { c: 'z', index: 0 })
    );
    assert_eq!(
        RgbColor::from_hex("ff 0ff"),
        Err(FromHexError::InvalidHexCharacter { c: ' ', index: 2 })
    );
}

#[test]
fn to_int_packs_the_channels() {
    assert_eq!(RgbColor(0x12, 0x34, 0x56).to_int(), 0x123456);
    assert_eq!(RgbColor(0, 0, 0).to_int(), 0);
    assert_eq!(RgbColor(255, 255, 255).to_int(), 0xffffff);
}

#[test]
fn channels_are_in_order() {
    let c = RgbColor(1, 2, 3);
    assert_eq!((c.red(), c.green(), c.blue()), (1, 2, 3));
}
