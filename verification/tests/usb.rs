use gdevd::drivers::{
    g213, GInterface, GUsbDriver, OpenStep, TransferState, ENDPOINT_ADDRESS, INTERFACE, REQUEST,
    REQUEST_TYPE, VALUE,
};
use gdevd::usb_ext::{DetachedHandle, GuardState, UsbReply, UsbRequest};
use gdevd::{Command, CommandError, GDevice, GDeviceDriver, RgbColor, Speed, UsbDevice, UsbError};

/// A USB layer that answers every request, and fails those of one kind.
struct Bus {
    kernel_driver: bool,
    claimed: bool,
    fails: Option<fn(&UsbRequest) -> bool>,
    log: Vec<UsbRequest>,
}

impl Bus {
    fn new(kernel_driver: bool) -> Bus {
        Bus { kernel_driver, claimed: false, fails: None, log: Vec::new() }
    }

    fn failing(kernel_driver: bool, fails: fn(&UsbRequest) -> bool) -> Bus {
        Bus { kernel_driver, claimed: false, fails: Some(fails), log: Vec::new() }
    }

    fn perform(&mut self, request: UsbRequest) -> UsbReply {
        self.log.push(request);
        if let Some(fails) = self.fails {
            if fails(&request) {
                return UsbReply::Failed(UsbError::Timeout);
            }
        }
        match request {
            UsbRequest::KernelDriverActive { .. } => UsbReply::KernelDriver(self.kernel_driver),
            UsbRequest::DetachKernelDriver { .. } => {
                self.kernel_driver = false;
                UsbReply::Done
            }
            UsbRequest::AttachKernelDriver { .. } => {
                self.kernel_driver = true;
                UsbReply::Done
            }
            UsbRequest::ClaimInterface { .. } => {
                self.claimed = true;
                UsbReply::Done
            }
            UsbRequest::ReleaseInterface { .. } => {
                self.claimed = false;
                UsbReply::Done
            }
            _ => UsbReply::Done,
        }
    }

    fn run(&mut self, mut session: GInterface) -> Result<(), CommandError> {
        let mut steps = 0;
        while let Some(request) = session.request() {
            let reply = self.perform(request);
            session.step(reply);
            steps += 1;
            assert!(steps < 100, "the sending does not end");
        }
        assert!(session.is_finished());
        session.result()
    }

    fn written(&self) -> Vec<[u8; 20]> {
        self.log
            .iter()
            .filter_map(|r| match r {
                UsbRequest::WriteControl { data, .. } => Some(*data),
                _ => None,
            })
            .collect()
    }
}

fn keyboard() -> impl GDevice {
    let place = UsbDevice { bus_number: 1, address: 4, vendor_id: 0x046d, product_id: 0xc336 };
    g213::G213Driver::new().open_device(&place, &Ok("0123".to_string())).unwrap()
}

fn write(data: [u8; 20]) -> UsbRequest {
    UsbRequest::WriteControl {
        request_type: 0x21,
        request: 0x09,
        value: 0x0211,
        index: 1,
        data,
        timeout_secs: 5,
    }
}

fn read() -> UsbRequest {
    UsbRequest::ReadInterrupt { endpoint: 0x82, length: 20, timeout_secs: 5 }
}

#[test]
fn transfer_constants() {
    assert_eq!(REQUEST_TYPE, 0x21);
    assert_eq!(REQUEST, 0x09);
    assert_eq!(VALUE, 0x0211);
    assert_eq!(INTERFACE, 1);
    assert_eq!(ENDPOINT_ADDRESS, 0x82);
}

#[test]
fn handle_takes_and_gives_back_a_free_interface() {
    let mut handle = DetachedHandle::new(1);
    assert_eq!(handle.request(), Some(UsbRequest::KernelDriverActive { iface: 1 }));
    handle.step(UsbReply::KernelDriver(false));
    assert_eq!(handle.request(), Some(UsbRequest::ClaimInterface { iface: 1 }));
    handle.step(UsbReply::Done);
    assert!(handle.is_held());
    assert_eq!(handle.request(), None);
    handle.release();
    assert_eq!(handle.request(), Some(UsbRequest::ReleaseInterface { iface: 1 }));
    handle.step(UsbReply::Done);
    assert!(handle.is_closed());
    assert_eq!(handle.request(), None);
    assert_eq!(handle.failure, None);
}

#[test]
fn handle_detaches_and_binds_the_kernel_driver_again() {
    let mut handle = DetachedHandle::new(1);
    handle.step(UsbReply::KernelDriver(true));
    assert_eq!(handle.request(), Some(UsbRequest::DetachKernelDriver { iface: 1 }));
    handle.step(UsbReply::Done);
    assert_eq!(handle.request(), Some(UsbRequest::ClaimInterface { iface: 1 }));
    handle.step(UsbReply::Done);
    assert!(handle.is_held());
    assert!(handle.was_attached);
    handle.release();
    handle.step(UsbReply::Done);
    assert_eq!(handle.request(), Some(UsbRequest::AttachKernelDriver { iface: 1 }));
    handle.step(UsbReply::Done);
    assert!(handle.is_closed());
}

#[test]
fn handle_binds_the_kernel_driver_again_when_the_claim_fails() {
    let mut handle = DetachedHandle::new(1);
    handle.step(UsbReply::KernelDriver(true));
    handle.step(UsbReply::Done);
    handle.step(UsbReply::Failed(UsbError::Busy));
    assert!(!handle.is_held());
    assert_eq!(handle.request(), Some(UsbRequest::AttachKernelDriver { iface: 1 }));
    handle.step(UsbReply::Done);
    assert!(handle.is_closed());
    assert_eq!(handle.failure, Some(UsbError::Busy));
}

#[test]
fn handle_gives_up_when_the_query_or_the_detaching_fails() {
    let mut handle = DetachedHandle::new(1);
    handle.step(UsbReply::Failed(UsbError::NoDevice));
    assert!(handle.is_closed());
    assert_eq!(handle.failure, Some(UsbError::NoDevice));
    assert_eq!(handle.request(), None);

    let mut handle = DetachedHandle::new(1);
    handle.step(UsbReply::KernelDriver(true));
    handle.step(UsbReply::Failed(UsbError::Access));
    assert!(handle.is_closed());
    assert_eq!(handle.failure, Some(UsbError::Access));
}

#[test]
fn handle_gives_back_even_when_the_release_fails() {
    let mut handle = DetachedHandle::new(1);
    handle.step(UsbReply::KernelDriver(true));
    handle.step(UsbReply::Done);
    handle.step(UsbReply::Done);
    handle.release();
    handle.step(UsbReply::Failed(UsbError::Io));
    assert_eq!(handle.state, GuardState::Reattaching);
    handle.step(UsbReply::Failed(UsbError::Io));
    assert!(handle.is_closed());
    assert_eq!(handle.failure, None);
}

#[test]
fn release_of_a_handle_that_does_not_hold_changes_nothing() {
    let mut handle = DetachedHandle::new(1);
    let before = handle;
    handle.release();
    assert_eq!(handle, before);
}

#[test]
fn a_command_is_sent_as_reset_then_effect() {
    let device = keyboard();
    let cmd = Command::Breathe(RgbColor(0xff, 0, 0xff), Some(Speed(500)), None);
    let reports = g213::encode(cmd).unwrap();
    let mut bus = Bus::new(true);
    assert_eq!(bus.run(device.send_command(cmd)), Ok(()));
    assert_eq!(
        bus.log,
        vec![
            UsbRequest::KernelDriverActive { iface: 1 },
            UsbRequest::DetachKernelDriver { iface: 1 },
            UsbRequest::ClaimInterface { iface: 1 },
            write(reports[0]),
            read(),
            write(reports[1]),
            read(),
            UsbRequest::ReleaseInterface { iface: 1 },
            UsbRequest::AttachKernelDriver { iface: 1 },
        ]
    );
    assert!(bus.kernel_driver);
    assert!(!bus.claimed);
}

#[test]
fn a_refused_command_is_sent_as_reset_alone() {
    let device = keyboard();
    let cmd = Command::Cycle(Some(Speed(5)), None);
    let mut bus = Bus::new(false);
    assert_eq!(
        bus.run(device.send_command(cmd)),
        Err(CommandError::InvalidArgument("speed", "5 < 32".to_string()))
    );
    assert_eq!(bus.written(), vec![g213::DeviceCommand::for_reset().bytes]);
    assert!(!bus.claimed);
    assert!(!bus.kernel_driver);
}

#[test]
fn a_failed_write_ends_the_sending_and_gives_the_interface_back() {
    let device = keyboard();
    let cmd = Command::StartEffect(true);
    let mut bus = Bus::failing(true, |r| matches!(r, UsbRequest::WriteControl { .. }));
    assert_eq!(
        bus.run(device.send_command(cmd)),
        Err(CommandError::Usb("write_control".to_string(), UsbError::Timeout))
    );
    assert_eq!(bus.written().len(), 1);
    assert_eq!(
        &bus.log[bus.log.len() - 2..],
        &[UsbRequest::ReleaseInterface { iface: 1 }, UsbRequest::AttachKernelDriver { iface: 1 }]
    );
    assert!(bus.kernel_driver);
    assert!(!bus.claimed);
}

#[test]
fn a_failed_read_ends_the_sending_and_gives_the_interface_back() {
    let device = keyboard();
    let mut bus = Bus::failing(false, |r| matches!(r, UsbRequest::ReadInterrupt { .. }));
    assert_eq!(
        bus.run(device.send_command(Command::StartEffect(true))),
        Err(CommandError::Usb("read_interrupt".to_string(), UsbError::Timeout))
    );
    assert_eq!(bus.written().len(), 1);
    assert_eq!(bus.log.last(), Some(&UsbRequest::ReleaseInterface { iface: 1 }));
    assert!(!bus.claimed);
}

#[test]
fn a_usb_failure_comes_before_the_refusal() {
    let device = keyboard();
    let mut bus = Bus::failing(false, |r| matches!(r, UsbRequest::WriteControl { .. }));
    assert_eq!(
        bus.run(device.send_command(Command::Cycle(Some(Speed(5)), None))),
        Err(CommandError::Usb("write_control".to_string(), UsbError::Timeout))
    );
}

#[test]
fn an_interface_that_cannot_be_taken_gets_no_report() {
    let device = keyboard();
    let mut bus = Bus::failing(true, |r| matches!(r, UsbRequest::ClaimInterface { .. }));
    assert_eq!(
        bus.run(device.send_command(Command::StartEffect(true))),
        Err(CommandError::Usb("detaching USB device from kernel".to_string(), UsbError::Timeout))
    );
    assert!(bus.written().is_empty());
    assert!(bus.kernel_driver, "the kernel driver is bound again");

    let mut bus = Bus::failing(true, |r| matches!(r, UsbRequest::KernelDriverActive { .. }));
    assert_eq!(
        bus.run(device.send_command(Command::StartEffect(true))),
        Err(CommandError::Usb("detaching USB device from kernel".to_string(), UsbError::Timeout))
    );
    assert_eq!(bus.log.len(), 1);
}

#[test]
fn the_reset_alone_can_be_sent() {
    let device = keyboard();
    let mut bus = Bus::new(false);
    assert_eq!(bus.run(device.send_reset()), Ok(()));
    assert_eq!(bus.written(), vec![g213::DeviceCommand::for_reset().bytes]);
}

#[test]
fn an_interface_without_reports_is_taken_and_given_back() {
    let place = UsbDevice { bus_number: 1, address: 4, vendor_id: 0x046d, product_id: 0xc336 };
    let driver = GUsbDriver::open_device(g213::description(), &place, &Ok("S".to_string())).unwrap();
    let session = driver.open_interface(Vec::new(), None);
    assert_eq!(session.progress.state, TransferState::Opening);
    let mut bus = Bus::new(false);
    assert_eq!(bus.run(session), Ok(()));
    assert_eq!(
        bus.log,
        vec![
            UsbRequest::KernelDriverActive { iface: 1 },
            UsbRequest::ClaimInterface { iface: 1 },
            UsbRequest::ReleaseInterface { iface: 1 },
        ]
    );
}

#[test]
fn opening_keeps_what_the_device_reported() {
    let place = UsbDevice { bus_number: 3, address: 9, vendor_id: 0x046d, product_id: 0xc336 };
    let driver =
        GUsbDriver::try_open_device(g213::description(), &place, &Ok("ABC".to_string())).unwrap();
    assert_eq!(driver.serial_number(), "ABC");
    assert_eq!(driver.dev(), &place);
    assert_eq!(driver.description, g213::description());
}

#[test]
fn a_failure_to_open_is_labelled_by_its_step() {
    let place = UsbDevice { bus_number: 3, address: 9, vendor_id: 0x046d, product_id: 0xc336 };
    let cases = [
        (OpenStep::Open, "opening USB device"),
        (OpenStep::ReadDescriptor, "reading device descriptor"),
        (OpenStep::ReadSerialNumber, "reading serial number"),
    ];
    for (step, label) in cases {
        let opened = Err((step, UsbError::Access));
        assert_eq!(
            GUsbDriver::try_open_device(g213::description(), &place, &opened),
            Err(CommandError::Usb(label.to_string(), UsbError::Access))
        );
        assert_eq!(GUsbDriver::open_device(g213::description(), &place, &opened), None);
        assert!(g213::G213Driver::new().open_device(&place, &opened).is_none());
    }
}
