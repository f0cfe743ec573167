use gdevd::drivers::g203_lightsync::G203LightsyncModel;
use gdevd::drivers::g213::G213Model;
use gdevd::{Brightness, Command, Config, Direction, Dpi, RgbColor, Speed};

fn percent(value: u8) -> Brightness {
    Brightness::new(value).unwrap()
}

const DEFAULT: RgbColor = RgbColor(0x00, 0xa9, 0xe0);

#[test]
fn an_empty_configuration_holds_no_command() {
    assert_eq!(Config::new().commands_for(&G213Model), vec![]);
    assert_eq!(Config::load("").commands_for(&G213Model), vec![]);
    assert_eq!(Config::load("").commands_for(&G203LightsyncModel), vec![]);
}

#[test]
fn a_text_that_is_no_document_is_treated_as_empty() {
    let config = Config::load("[G213\ntype=cycle\n");
    assert_eq!(config.commands_for(&G213Model), vec![]);
}

#[test]
fn a_section_without_kind_or_of_unknown_kind_holds_no_command() {
    assert_eq!(Config::load("[G213]\ncolor=ff0000\n").commands_for(&G213Model), vec![]);
    assert_eq!(Config::load("[G213]\ntype=disco\n").commands_for(&G213Model), vec![]);
    assert_eq!(Config::load("[G213]\ntype=Cycle\n").commands_for(&G213Model), vec![]);
}

#[test]
fn a_section_belongs_to_its_model() {
    let config = Config::load("[G213]\ntype=cycle\nspeed=700\n");
    assert_eq!(config.commands_for(&G213Model), vec![Command::Cycle(Some(Speed(700)), None)]);
    assert_eq!(config.commands_for(&G203LightsyncModel), vec![]);
}

#[test]
fn static_gives_one_command_per_sector() {
    let config = Config::load("[G213]\ntype=static\ncolor-0=ff0000\ncolor-3=0000FF\ncolor-4=xyz\n");
    assert_eq!(
        config.commands_for(&G213Model),
        vec![
            Command::ColorSector(RgbColor(0xff, 0, 0), Some(0)),
            Command::ColorSector(DEFAULT, Some(1)),
            Command::ColorSector(DEFAULT, Some(2)),
            Command::ColorSector(RgbColor(0, 0, 0xff), Some(3)),
            Command::ColorSector(DEFAULT, Some(4)),
        ]
    );
    let config = Config::load("[G203 LIGHTSYNC]\ntype=static\ncolor-1=010203\n");
    assert_eq!(
        config.commands_for(&G203LightsyncModel),
        vec![
            Command::ColorSector(RgbColor(0, 0, 0), Some(0)),
            Command::ColorSector(RgbColor(1, 2, 3), Some(1)),
            Command::ColorSector(RgbColor(0, 0, 0), Some(2)),
        ]
    );
}

#[test]
fn static_all_gives_one_command() {
    let config = Config::load("[G213]\ntype=static-all\ncolor-0=102030\ncolor-1=ffffff\n");
    assert_eq!(
        config.commands_for(&G213Model),
        vec![Command::ColorSector(RgbColor(0x10, 0x20, 0x30), None)]
    );
    let config = Config::load("[G213]\ntype=static-all\n");
    assert_eq!(config.commands_for(&G213Model), vec![Command::ColorSector(DEFAULT, None)]);
}

#[test]
fn effects_are_read_with_their_parameters() {
    let config = Config::load("[G213]\ntype=breathe\ncolor=ff00ff\nspeed=500\nbrightness=40\n");
    assert_eq!(
        config.commands_for(&G213Model),
        vec![Command::Breathe(RgbColor(0xff, 0, 0xff), Some(Speed(500)), Some(percent(40)))]
    );
    let config = Config::load("[G213]\ntype=breath\ncolor=ff00ff\n");
    assert_eq!(
        config.commands_for(&G213Model),
        vec![Command::Breathe(RgbColor(0xff, 0, 0xff), None, None)]
    );
    let config = Config::load("[G213]\ntype=cycle\nspeed=65535\nbrightness=100\n");
    assert_eq!(
        config.commands_for(&G213Model),
        vec![Command::Cycle(Some(Speed(65535)), Some(percent(100)))]
    );
    let config = Config::load("[G213]\ntype=wave\ndirection=edge-to-center\nspeed=90\n");
    assert_eq!(
        config.commands_for(&G213Model),
        vec![Command::Wave(Direction::EdgeToCenter, Some(Speed(90)), None)]
    );
    let config = Config::load("[G203 LIGHTSYNC]\ntype=blend\nspeed=2000\nbrightness=5\n");
    assert_eq!(
        config.commands_for(&G203LightsyncModel),
        vec![Command::Blend(Some(Speed(2000)), Some(percent(5)))]
    );
    let config = Config::load("[G203 LIGHTSYNC]\ntype=dpi\ndpi=800\n");
    assert_eq!(config.commands_for(&G203LightsyncModel), vec![Command::Dpi(Dpi(800))]);
}

#[test]
fn start_effect_defaults_to_on() {
    let on = vec![Command::StartEffect(true)];
    let off = vec![Command::StartEffect(false)];
    assert_eq!(Config::load("[G213]\ntype=startEffect\n").commands_for(&G213Model), on);
    assert_eq!(Config::load("[G213]\ntype=startEffect\nstate=true\n").commands_for(&G213Model), on);
    assert_eq!(Config::load("[G213]\ntype=startEffect\nstate=yes\n").commands_for(&G213Model), on);
    assert_eq!(
        Config::load("[G213]\ntype=startEffect\nstate=false\n").commands_for(&G213Model),
        off
    );
}

#[test]
fn values_that_cannot_be_read_are_passed_over() {
    let config = Config::load(
        "[G213]\ntype=wave\ndirection=sideways\nspeed=fast\nbrightness=101\n",
    );
    assert_eq!(
        config.commands_for(&G213Model),
        vec![Command::Wave(Direction::LeftToRight, None, None)]
    );
    let config = Config::load("[G213]\ntype=breathe\ncolor=ff00f\nspeed=65536\nbrightness=-1\n");
    assert_eq!(config.commands_for(&G213Model), vec![Command::Breathe(DEFAULT, None, None)]);
    let config = Config::load("[G203 LIGHTSYNC]\ntype=dpi\ndpi=many\n");
    assert_eq!(config.commands_for(&G203LightsyncModel), vec![]);
}

#[test]
fn a_saved_effect_is_read_back() {
    let commands = [
        Command::ColorSector(RgbColor(1, 2, 3), None),
        Command::Breathe(RgbColor(0xff, 0, 0xff), Some(Speed(500)), Some(percent(30))),
        Command::Breathe(RgbColor(0xff, 0, 0xff), None, None),
        Command::Cycle(Some(Speed(3000)), None),
        Command::Cycle(None, Some(percent(0))),
        Command::Wave(Direction::RightToLeft, Some(Speed(1234)), Some(percent(100))),
        Command::Wave(Direction::CenterToEdge, None, None),
        Command::StartEffect(true),
        Command::StartEffect(false),
        Command::Blend(Some(Speed(1000)), Some(percent(77))),
        Command::Dpi(Dpi(1600)),
    ];
    let mut config = Config::new();
    for cmd in commands {
        config.save_command(&G203LightsyncModel, cmd);
        assert_eq!(config.commands_for(&G203LightsyncModel), vec![cmd]);
        let kept = Config::load(&config.to_text());
        assert_eq!(kept.commands_for(&G203LightsyncModel), vec![cmd]);
    }
}

#[test]
fn a_saved_sector_is_read_back_among_the_sectors() {
    let mut config = Config::new();
    config.save_command(&G213Model, Command::ColorSector(RgbColor(1, 2, 3), Some(2)));
    config.save_command(&G213Model, Command::ColorSector(RgbColor(4, 5, 6), Some(4)));
    assert_eq!(
        config.commands_for(&G213Model),
        vec![
            Command::ColorSector(DEFAULT, Some(0)),
            Command::ColorSector(DEFAULT, Some(1)),
            Command::ColorSector(RgbColor(1, 2, 3), Some(2)),
            Command::ColorSector(DEFAULT, Some(3)),
            Command::ColorSector(RgbColor(4, 5, 6), Some(4)),
        ]
    );
}

#[test]
fn one_colour_for_all_is_saved_for_every_sector() {
    let mut config = Config::new();
    config.save_command(&G213Model, Command::ColorSector(RgbColor(0xaa, 0xbb, 0xcc), None));
    let text = config.to_text();
    assert!(text.contains("type=static-all"));
    for sector in 0..5 {
        assert!(text.contains(&format!("color-{sector}=aabbcc")), "{text}");
    }
    assert!(!text.contains("color-5"));
    config.save_command(&G213Model, Command::ColorSector(RgbColor(1, 1, 1), Some(1)));
    assert_eq!(
        config.commands_for(&G213Model),
        vec![
            Command::ColorSector(RgbColor(0xaa, 0xbb, 0xcc), Some(0)),
            Command::ColorSector(RgbColor(1, 1, 1), Some(1)),
            Command::ColorSector(RgbColor(0xaa, 0xbb, 0xcc), Some(2)),
            Command::ColorSector(RgbColor(0xaa, 0xbb, 0xcc), Some(3)),
            Command::ColorSector(RgbColor(0xaa, 0xbb, 0xcc), Some(4)),
        ]
    );
}

#[test]
fn what_a_command_leaves_open_is_deleted() {
    let mut config = Config::new();
    config.save_command(
        &G203LightsyncModel,
        Command::Cycle(Some(Speed(3000)), Some(percent(30))),
    );
    let text = config.to_text();
    assert!(text.contains("speed=3000"));
    assert!(text.contains("brightness=30"));
    config.save_command(&G203LightsyncModel, Command::Cycle(None, None));
    let text = config.to_text();
    assert!(text.contains("type=cycle"));
    assert!(!text.contains("speed"));
    assert!(!text.contains("brightness"));
    assert_eq!(config.commands_for(&G203LightsyncModel), vec![Command::Cycle(None, None)]);
}

#[test]
fn brightness_is_not_stored_for_a_model_that_cannot_dim() {
    let mut config = Config::load("[G213]\ntype=cycle\nbrightness=100\n");
    config.save_command(
        &G213Model,
        Command::Breathe(RgbColor(0xff, 0, 0xff), Some(Speed(500)), Some(percent(100))),
    );
    let text = config.to_text();
    assert!(text.contains("[G213]"));
    assert!(text.contains("type=breathe"));
    assert!(text.contains("color=ff00ff"));
    assert!(text.contains("speed=500"));
    assert!(!text.contains("brightness"));
    assert_eq!(
        config.commands_for(&G213Model),
        vec![Command::Breathe(RgbColor(0xff, 0, 0xff), Some(Speed(500)), None)]
    );
}

#[test]
fn saving_for_one_model_leaves_the_other() {
    let mut config = Config::load("[G213]\ntype=cycle\nspeed=700\n");
    config.save_command(&G203LightsyncModel, Command::StartEffect(false));
    assert_eq!(config.commands_for(&G213Model), vec![Command::Cycle(Some(Speed(700)), None)]);
    assert_eq!(config.commands_for(&G203LightsyncModel), vec![Command::StartEffect(false)]);
}

#[test]
fn the_first_of_repeated_entries_counts() {
    let config = Config::load("[G213]\ntype=cycle\nspeed=100\nspeed=200\n[G213]\ntype=wave\n");
    assert_eq!(config.commands_for(&G213Model), vec![Command::Cycle(Some(Speed(100)), None)]);
    let mut config = config;
    config.save_command(&G213Model, Command::Cycle(None, None));
    assert_eq!(config.commands_for(&G213Model), vec![Command::Cycle(None, None)]);
    config.save_command(&G213Model, Command::Cycle(Some(Speed(300)), None));
    assert_eq!(config.commands_for(&G213Model), vec![Command::Cycle(Some(Speed(300)), None)]);
}
