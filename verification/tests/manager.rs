use gdevd::drivers::{g203_lightsync, g213, GInterface, OpenStep, Opened};
use gdevd::rpc;
use gdevd::usb_ext::{UsbReply, UsbRequest};
use gdevd::{
    Arrival, Command, CommandError, Config, GDevice, GDeviceDriver, GDeviceManager,
    GDeviceManagerEvent, GDeviceModel, ManagerAction, Phase, RgbColor, Speed, Transmission,
    UsbDevice, UsbError,
};

const VENDOR: u16 = 0x046d;

fn keyboard_at(address: u8) -> UsbDevice {
    UsbDevice { bus_number: 1, address, vendor_id: VENDOR, product_id: 0xc336 }
}

fn mouse_at(address: u8) -> UsbDevice {
    UsbDevice { bus_number: 1, address, vendor_id: VENDOR, product_id: 0xc092 }
}

fn serial(text: &str) -> Opened {
    Ok(text.to_string())
}

fn manager(config: &str) -> GDeviceManager {
    GDeviceManager::try_new(Ok(()), Config::load(config)).unwrap()
}

fn reports(plan: &[Transmission]) -> Vec<(UsbDevice, Vec<[u8; 20]>)> {
    plan.iter().map(|t| (t.device, t.session.reports.clone())).collect()
}

/// Drives a sending to its end on a device that works, or on one whose
/// transfers time out; gives the reports that were written and the result.
fn perform(mut session: GInterface, works: bool) -> (Vec<[u8; 20]>, Result<(), CommandError>) {
    let mut written = Vec::new();
    while let Some(request) = session.request() {
        let reply = match request {
            UsbRequest::KernelDriverActive { .. } => UsbReply::KernelDriver(true),
            UsbRequest::WriteControl { data, .. } if works => {
                written.push(data);
                UsbReply::Done
            }
            UsbRequest::WriteControl { .. } => UsbReply::Failed(UsbError::Timeout),
            _ => UsbReply::Done,
        };
        session.step(reply);
    }
    (written, session.result())
}

fn names(manager: &GDeviceManager) -> Vec<(String, String)> {
    rpc::list(manager).into_iter().map(|(model, serial)| (model.to_string(), serial)).collect()
}

#[test]
fn a_new_manager_has_every_driver_and_no_device() {
    let manager = manager("");
    assert_eq!(rpc::list_drivers(&manager), vec!["G213", "G203 LIGHTSYNC"]);
    assert_eq!(manager.list_drivers().len(), 2);
    assert!(manager.list().is_empty());
    assert_eq!(manager.get_phase(), Phase::Initializing);
}

#[test]
fn a_manager_needs_the_usb_layer() {
    let failed = GDeviceManager::try_new(Err(UsbError::Other), Config::new());
    assert_eq!(
        failed.err(),
        Some(CommandError::Usb("creating USB context".to_string(), UsbError::Other))
    );
}

#[test]
fn a_driver_is_found_by_vendor_and_product() {
    let manager = manager("");
    let found = manager.find_driver_for_device(&keyboard_at(1)).unwrap();
    assert_eq!(found.get_model().get_name(), "G213");
    let found = manager.find_driver_for_device(&mouse_at(1)).unwrap();
    assert_eq!(found.get_model().get_name(), "G203 LIGHTSYNC");
    let other_product = UsbDevice { product_id: 0xc337, ..keyboard_at(1) };
    assert!(manager.find_driver_for_device(&other_product).is_none());
    let other_vendor = UsbDevice { vendor_id: 0x1234, ..keyboard_at(1) };
    assert!(manager.find_driver_for_device(&other_vendor).is_none());
}

#[test]
fn a_scan_tracks_what_could_be_opened() {
    let mut manager = manager("");
    let found = vec![
        (keyboard_at(2), serial("K1")),
        (UsbDevice { vendor_id: 0x1234, ..keyboard_at(3) }, serial("X")),
        (mouse_at(4), Err((OpenStep::Open, UsbError::Access))),
        (mouse_at(5), serial("M1")),
        (keyboard_at(2), serial("K1")),
    ];
    let plan = manager.load_devices(Ok(found)).unwrap();
    assert_eq!(
        names(&manager),
        vec![
            ("G213".to_string(), "K1".to_string()),
            ("G203 LIGHTSYNC".to_string(), "M1".to_string())
        ]
    );
    assert_eq!(manager.get_phase(), Phase::Running);
    assert_eq!(
        reports(&plan),
        vec![
            (keyboard_at(2), vec![g213::DeviceCommand::for_reset().bytes]),
            (mouse_at(5), vec![g203_lightsync::DeviceCommand::for_reset().bytes]),
        ]
    );
}

#[test]
fn a_scan_that_fails_changes_nothing() {
    let mut manager = manager("");
    manager.load_devices(Ok(vec![(keyboard_at(2), serial("K1"))])).unwrap();
    assert_eq!(
        manager.load_devices(Err(UsbError::NoMem)).err(),
        Some(CommandError::Usb("listing USB devices".to_string(), UsbError::NoMem))
    );
    assert_eq!(names(&manager).len(), 1);
}

#[test]
fn a_scan_replaces_what_was_tracked() {
    let mut manager = manager("");
    manager.load_devices(Ok(vec![(keyboard_at(2), serial("K1"))])).unwrap();
    manager.load_devices(Ok(vec![(mouse_at(7), serial("M7"))])).unwrap();
    assert_eq!(names(&manager), vec![("G203 LIGHTSYNC".to_string(), "M7".to_string())]);
}

#[test]
fn a_scan_replays_the_stored_configuration() {
    let mut manager = manager("[G213]\ntype=static\ncolor-1=ff0000\n[G203 LIGHTSYNC]\ntype=cycle\n");
    let plan = manager
        .load_devices(Ok(vec![(mouse_at(5), serial("M1")), (keyboard_at(2), serial("K1"))]))
        .unwrap();
    let mut expected = vec![(
        mouse_at(5),
        g203_lightsync::encode(Command::Cycle(None, None)).unwrap(),
    )];
    let default = g213::G213Model.get_default_color();
    for sector in 0..5u8 {
        let color = if sector == 1 { RgbColor(0xff, 0, 0) } else { default };
        expected
            .push((keyboard_at(2), g213::encode(Command::ColorSector(color, Some(sector))).unwrap()));
    }
    assert_eq!(reports(&plan), expected);
    assert_eq!(reports(&manager.apply_config()), expected);
}

#[test]
fn an_arrival_of_a_known_device_asks_to_open_it() {
    let mut manager = manager("");
    assert_eq!(
        manager.handle_event(GDeviceManagerEvent::Arrived(keyboard_at(9))),
        ManagerAction::Open(keyboard_at(9))
    );
    let stranger = UsbDevice { product_id: 1, ..keyboard_at(9) };
    assert_eq!(manager.handle_event(GDeviceManagerEvent::Arrived(stranger)), ManagerAction::Nothing);
    assert!(manager.list().is_empty());
}

#[test]
fn an_opened_device_is_tracked_and_configured() {
    let mut manager = manager("[G213]\ntype=wave\ndirection=right-to-left\n");
    let arrival = manager.device_opened(&keyboard_at(9), &serial("K9"));
    let Arrival::Added(plan) = arrival else { panic!("the device was not added") };
    assert_eq!(
        reports(&plan),
        vec![(
            keyboard_at(9),
            g213::encode(Command::Wave(gdevd::Direction::RightToLeft, None, None)).unwrap()
        )]
    );
    assert_eq!(names(&manager), vec![("G213".to_string(), "K9".to_string())]);
    assert_eq!(manager.list()[0].get_debug_info(), "K9");
    assert_eq!(manager.list()[0].usb().dev, keyboard_at(9));
}

#[test]
fn a_device_that_cannot_be_opened_is_not_available() {
    let mut manager = manager("");
    let failed = Err((OpenStep::ReadSerialNumber, UsbError::Pipe));
    assert_eq!(manager.device_opened(&keyboard_at(9), &failed), Arrival::Unavailable);
    let stranger = UsbDevice { vendor_id: 7, ..keyboard_at(9) };
    assert_eq!(manager.device_opened(&stranger, &serial("S")), Arrival::Unavailable);
    assert!(manager.list().is_empty());
}

#[test]
fn a_duplicate_arrival_is_passed_over() {
    let mut manager = manager("");
    assert!(matches!(manager.device_opened(&keyboard_at(9), &serial("K9")), Arrival::Added(_)));
    assert_eq!(manager.device_opened(&keyboard_at(9), &serial("K9")), Arrival::Duplicate);
    assert_eq!(names(&manager), vec![("G213".to_string(), "K9".to_string())]);
    // another serial number or another place is another device
    assert!(matches!(manager.device_opened(&keyboard_at(9), &serial("K10")), Arrival::Added(_)));
    assert!(matches!(manager.device_opened(&keyboard_at(10), &serial("K9")), Arrival::Added(_)));
    assert_eq!(manager.list().len(), 3);
    assert_eq!(manager.device_opened(&keyboard_at(10), &serial("K9")), Arrival::Duplicate);
    assert_eq!(manager.list().len(), 3);
}

#[test]
fn a_departure_ends_the_tracking() {
    let mut manager = manager("");
    manager
        .load_devices(Ok(vec![
            (keyboard_at(2), serial("K1")),
            (mouse_at(5), serial("M1")),
            (keyboard_at(6), serial("K2")),
        ]))
        .unwrap();
    assert_eq!(
        manager.handle_event(GDeviceManagerEvent::Departed(mouse_at(5))),
        ManagerAction::Nothing
    );
    assert_eq!(
        names(&manager),
        vec![("G213".to_string(), "K1".to_string()), ("G213".to_string(), "K2".to_string())]
    );
    // a departure of what is not tracked is no error
    assert_eq!(
        manager.handle_event(GDeviceManagerEvent::Departed(mouse_at(5))),
        ManagerAction::Nothing
    );
    assert_eq!(manager.list().len(), 2);
    // departure before arrival leaves the device absent
    manager.handle_event(GDeviceManagerEvent::Departed(keyboard_at(8)));
    assert_eq!(manager.list().len(), 2);
}

#[test]
fn a_shutdown_ends_the_run_loop() {
    let mut manager = manager("");
    manager.load_devices(Ok(vec![(keyboard_at(2), serial("K1"))])).unwrap();
    assert_eq!(manager.handle_event(GDeviceManagerEvent::Shutdown), ManagerAction::Stop);
    assert_eq!(manager.get_phase(), Phase::ShuttingDown);
    assert_eq!(
        manager.handle_event(GDeviceManagerEvent::Departed(keyboard_at(2))),
        ManagerAction::Stop
    );
    assert_eq!(
        manager.handle_event(GDeviceManagerEvent::Arrived(keyboard_at(3))),
        ManagerAction::Stop
    );
    assert_eq!(manager.list().len(), 1);
}

#[test]
fn a_command_goes_to_every_device_and_is_stored_for_each_model() {
    let mut manager = manager("");
    manager
        .load_devices(Ok(vec![(keyboard_at(2), serial("A")), (mouse_at(5), serial("B"))]))
        .unwrap();
    let cmd = Command::Cycle(Some(Speed(2000)), None);
    let plan = manager.send_command(cmd);
    assert_eq!(
        reports(&plan),
        vec![
            (keyboard_at(2), g213::encode(cmd).unwrap()),
            (mouse_at(5), g203_lightsync::encode(cmd).unwrap()),
        ]
    );
    // whatever becomes of the transmissions, the command is stored for both
    let stored = Config::load(&manager.config_to_text());
    assert_eq!(stored.commands_for(&g213::G213Model), vec![cmd]);
    assert_eq!(stored.commands_for(&g203_lightsync::G203LightsyncModel), vec![cmd]);
}

#[test]
fn a_command_that_one_model_refuses_still_goes_to_the_other() {
    let mut manager = manager("");
    manager
        .load_devices(Ok(vec![(keyboard_at(2), serial("A")), (mouse_at(5), serial("B"))]))
        .unwrap();
    let cmd = Command::Cycle(Some(Speed(500)), None);
    let plan = manager.send_command(cmd);
    assert_eq!(plan[0].session.rejection, None);
    assert_eq!(plan[0].session.reports, g213::encode(cmd).unwrap());
    assert_eq!(
        plan[1].session.rejection,
        Some(CommandError::InvalidArgument("speed", "500 < 1000".to_string()))
    );
    assert_eq!(plan[1].session.reports, vec![g203_lightsync::DeviceCommand::for_reset().bytes]);
    let stored = Config::load(&manager.config_to_text());
    assert_eq!(stored.commands_for(&g203_lightsync::G203LightsyncModel), vec![cmd]);
}

#[test]
fn a_device_that_fails_does_not_stop_the_others() {
    let mut manager = manager("");
    manager
        .load_devices(Ok(vec![(keyboard_at(2), serial("A")), (mouse_at(5), serial("B"))]))
        .unwrap();
    let cmd = Command::StartEffect(true);
    let plan = manager.send_command(cmd);
    let mut outcomes = Vec::new();
    for transmission in plan {
        let works = transmission.device == keyboard_at(2);
        outcomes.push(perform(transmission.session, works));
    }
    assert_eq!(outcomes[0], (g213::encode(cmd).unwrap(), Ok(())));
    assert_eq!(
        outcomes[1],
        (vec![], Err(CommandError::Usb("write_control".to_string(), UsbError::Timeout)))
    );
    let stored = Config::load(&manager.config_to_text());
    assert_eq!(stored.commands_for(&g213::G213Model), vec![cmd]);
    assert_eq!(stored.commands_for(&g203_lightsync::G203LightsyncModel), vec![cmd]);
}

#[test]
fn a_command_to_no_device_does_nothing() {
    let mut manager = manager("");
    assert!(manager.send_command(Command::StartEffect(true)).is_empty());
    assert_eq!(Config::load(&manager.config_to_text()).commands_for(&g213::G213Model), vec![]);
}

#[test]
fn a_refresh_twice_sends_the_same() {
    let mut manager = manager("");
    manager
        .load_devices(Ok(vec![(keyboard_at(2), serial("A")), (mouse_at(5), serial("B"))]))
        .unwrap();
    let text = "[G213]\ntype=breathe\ncolor=010203\nspeed=40\n[G203 LIGHTSYNC]\ntype=static-all\n";
    let first = manager.refresh(text);
    let second = manager.refresh(text);
    assert_eq!(first, second);
    assert_eq!(
        reports(&first),
        vec![
            (
                keyboard_at(2),
                g213::encode(Command::Breathe(RgbColor(1, 2, 3), Some(Speed(40)), None)).unwrap()
            ),
            (
                mouse_at(5),
                g203_lightsync::encode(Command::ColorSector(RgbColor(0, 0, 0), None)).unwrap()
            ),
        ]
    );
}

#[test]
fn a_refresh_takes_the_new_text() {
    let mut manager = manager("[G213]\ntype=cycle\n");
    manager.load_devices(Ok(vec![(keyboard_at(2), serial("A"))])).unwrap();
    let plan = manager.refresh("[G213]\ntype=startEffect\nstate=false\n");
    assert_eq!(
        reports(&plan),
        vec![(keyboard_at(2), g213::encode(Command::StartEffect(false)).unwrap())]
    );
    let plan = manager.refresh("");
    assert_eq!(
        reports(&plan),
        vec![(keyboard_at(2), vec![g213::DeviceCommand::for_reset().bytes])]
    );
}

#[test]
fn from_an_empty_configuration_to_a_stored_breathe() {
    // the configuration file is empty and one keyboard is attached
    let mut manager = GDeviceManager::try_new(Ok(()), Config::load("")).unwrap();
    let keyboard = keyboard_at(3);
    assert!(manager.find_driver_for_device(&keyboard).is_some());
    let plan = manager.load_devices(Ok(vec![(keyboard, serial("1A2B"))])).unwrap();
    // nothing is stored: the reset report and no effect
    assert_eq!(plan.len(), 1);
    assert_eq!(plan[0].device, keyboard);
    assert_eq!(plan[0].session.reports, vec![g213::DeviceCommand::for_reset().bytes]);
    assert_eq!(plan[0].session.rejection, None);

    // a client asks for breathe("ff00ff", 500, 100)
    let cmd = rpc::breathe("ff00ff", 500, 100).unwrap();
    let plan = manager.send_command(cmd);
    assert_eq!(plan.len(), 1);
    let sent = &plan[0].session.reports;
    assert_eq!(sent.len(), 2);
    assert_eq!(sent[0], g213::DeviceCommand::for_reset().bytes);
    assert_eq!(&sent[1][..6], &[0x11, 0xff, 0x0c, 0x3a, 0x00, 0x02]);
    assert_eq!(&sent[1][6..9], &[0xff, 0x00, 0xff]);
    assert_eq!(&sent[1][9..11], &[0x01, 0xf4]);
    assert_eq!(plan[0].session.rejection, None);

    // the configuration now holds the effect, without a brightness
    let text = manager.config_to_text();
    assert!(text.contains("[G213]"), "{text}");
    assert!(text.contains("type=breathe"), "{text}");
    assert!(text.contains("color=ff00ff"), "{text}");
    assert!(text.contains("speed=500"), "{text}");
    assert!(!text.contains("brightness"), "{text}");

    // and a refresh from it replays the effect
    let replayed = manager.refresh(&text);
    assert_eq!(reports(&replayed), reports(&plan));
}
