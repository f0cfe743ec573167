//! The device manager: which devices are connected, what is stored for
//! their models, and what each of them is to be sent.
//!
//! The manager decides and its caller performs. An operation returns the
//! transmissions to carry out, each an interface that is driven step by step
//! (see `usb_ext`); what the USB layer makes of them does not change what the
//! manager holds.

use vstd::prelude::*;
use vstd::string::*;
use crate::command::Command;
use crate::config::{kind_name, lookup, saved, saved_kind, stored_commands, Config, Entries};
use crate::drivers::g203_lightsync::G203LightsyncDriver;
use crate::drivers::g213::G213Driver;
use crate::drivers::{report_bytes, reports_sent, GInterface, Opened, Progress, INTERFACE};
use crate::error::{CommandError, CommandErrorView, CommandResult, UsbError};
use crate::model::{GDevice, GDeviceDriver, GDeviceModel, UsbDevice, LOGITECH_USB_VENDOR_ID};
use crate::registry::{DeviceView, GDeviceDriverRef, GDeviceModelRef, GDeviceRef};

verus! {

/// What reaches the manager through its mailbox.
#[derive(Copy, Clone, Debug, PartialEq, Eq, Structural)]
pub enum GDeviceManagerEvent {
    /// A device was plugged in.
    Arrived(UsbDevice),
    /// A device was unplugged.
    Departed(UsbDevice),
    /// The daemon is to end.
    Shutdown,
}

/// Where the manager stands in the life of the daemon.
#[derive(Copy, Clone, Debug, PartialEq, Eq, Structural)]
pub enum Phase {
    Initializing,
    Running,
    ShuttingDown,
}

/// What the caller is to do after an event.
#[derive(Copy, Clone, Debug, PartialEq, Eq, Structural)]
pub enum ManagerAction {
    /// Nothing.
    Nothing,
    /// Open the device and report what came of it with `device_opened`.
    Open(UsbDevice),
    /// Leave the run loop.
    Stop,
}

/// Something to send to one device.
#[derive(Clone, Debug, PartialEq, Eq)]
pub struct Transmission {
    /// Where the device sits on the bus.
    pub device: UsbDevice,
    pub session: GInterface,
}

/// A transmission with its reports as bytes.
pub struct TransmissionView {
    pub device: UsbDevice,
    pub reports: Seq<Seq<u8>>,
    /// Why the command's effect is not among the reports.
    pub rejection: Option<CommandErrorView>,
    pub progress: Progress,
}

impl View for Transmission {
    type V = TransmissionView;

    open spec fn view(&self) -> TransmissionView {
        TransmissionView {
            device: self.device,
            reports: report_bytes(self.session.reports@),
            rejection: match self.session.rejection {
                Some(e) => Some(e@),
                None => None,
            },
            progress: self.session.progress,
        }
    }
}

/// What became of a device that was opened.
#[derive(Clone, Debug, PartialEq, Eq)]
pub enum Arrival {
    /// No driver knows the device, or it could not be opened.
    Unavailable,
    /// The device is connected already; the arrival is passed over.
    Duplicate,
    /// The device is connected from now on, and this is what it is to be sent.
    Added(Vec<Transmission>),
}

/// Each transmission of a plan, with its reports as bytes.
pub open spec fn views(plan: Seq<Transmission>) -> Seq<TransmissionView> {
    Seq::new(plan.len(), |i: int| plan[i]@)
}

/// What the manager keeps of each device of a list.
pub open spec fn device_views(devices: Seq<GDeviceRef>) -> Seq<DeviceView> {
    Seq::new(devices.len(), |i: int| devices[i]@)
}

/// The drivers that a manager is made with.
pub open spec fn all_drivers() -> Seq<GDeviceDriverRef> {
    seq![
        GDeviceDriverRef::G213(G213Driver { model: crate::drivers::g213::G213Model }),
        GDeviceDriverRef::G203Lightsync(
            G203LightsyncDriver { model: crate::drivers::g203_lightsync::G203LightsyncModel },
        ),
    ]
}

/// The first driver whose model has the product identifier.
pub open spec fn first_driver(drivers: Seq<GDeviceDriverRef>, product_id: u16) -> Option<
    GDeviceDriverRef,
>
    decreases drivers.len(),
{
    if drivers.len() == 0 {
        None
    } else if drivers[0].model().product_id() == product_id {
        Some(drivers[0])
    } else {
        first_driver(drivers.drop_first(), product_id)
    }
}

/// The driver for a device: the vendor must be the supported one, the
/// product that of the driver's model.
pub open spec fn driver_for(drivers: Seq<GDeviceDriverRef>, device: UsbDevice) -> Option<
    GDeviceDriverRef,
> {
    if device.vendor_id == LOGITECH_USB_VENDOR_ID {
        first_driver(drivers, device.product_id)
    } else {
        None
    }
}

/// Whether a device is among the connected ones.
pub open spec fn is_connected(devices: Seq<DeviceView>, device: DeviceView) -> bool {
    exists|i: int| 0 <= i < devices.len() && (#[trigger] devices[i]).same_identity(device)
}

/// Whether no device occurs twice.
pub open spec fn distinct(devices: Seq<DeviceView>) -> bool
    decreases devices.len(),
{
    devices.len() == 0 || (distinct(devices.drop_last()) && !is_connected(
        devices.drop_last(),
        devices.last(),
    ))
}

/// The connected devices after one more was opened: it joins them unless it
/// is among them already.
pub open spec fn admitted(devices: Seq<DeviceView>, device: DeviceView) -> Seq<DeviceView> {
    if is_connected(devices, device) {
        devices
    } else {
        devices.push(device)
    }
}

/// The connected devices without those at a place on the bus.
pub open spec fn without_place(devices: Seq<DeviceView>, place: UsbDevice) -> Seq<DeviceView>
    decreases devices.len(),
{
    if devices.len() == 0 {
        devices
    } else if devices.last().place.same_place(place) {
        without_place(devices.drop_last(), place)
    } else {
        without_place(devices.drop_last(), place).push(devices.last())
    }
}

/// What a device is sent for a command.
pub open spec fn transmission(device: DeviceView, cmd: Command) -> TransmissionView {
    TransmissionView {
        device: device.place,
        reports: reports_sent(device.model.encoding(cmd), device.model.reset_report()),
        rejection: match device.model.encoding(cmd) {
            Ok(_) => None,
            Err(e) => Some(e),
        },
        progress: Progress::initial(INTERFACE),
    }
}

/// The reset report alone, for a device.
pub open spec fn reset_transmission(device: DeviceView) -> TransmissionView {
    TransmissionView {
        device: device.place,
        reports: seq![device.model.reset_report()],
        rejection: None,
        progress: Progress::initial(INTERFACE),
    }
}

/// What a device is sent when stored commands are applied to it: each
/// command in turn, and the reset report alone where nothing is stored.
pub open spec fn replay(device: DeviceView, commands: Seq<Command>) -> Seq<TransmissionView> {
    if commands.len() == 0 {
        seq![reset_transmission(device)]
    } else {
        Seq::new(commands.len(), |i: int| transmission(device, commands[i]))
    }
}

/// The commands stored for a model.
pub open spec fn commands_of(entries: Entries, model: GDeviceModelRef) -> Seq<Command> {
    stored_commands(entries, model.name(), model.sectors(), model.default_color())
}

/// What the devices are sent when the configuration is applied: device by
/// device, what is stored for its model.
pub open spec fn replay_all(devices: Seq<DeviceView>, entries: Entries) -> Seq<TransmissionView>
    decreases devices.len(),
{
    if devices.len() == 0 {
        Seq::empty()
    } else {
        replay_all(devices.drop_last(), entries) + replay(
            devices.last(),
            commands_of(entries, devices.last().model),
        )
    }
}

/// What the devices are sent for a command: one transmission each, in order.
pub open spec fn dispatch(devices: Seq<DeviceView>, cmd: Command) -> Seq<TransmissionView> {
    Seq::new(devices.len(), |i: int| transmission(devices[i], cmd))
}

/// The configuration after a command was stored for the model of each
/// device.
pub open spec fn saved_for_all(entries: Entries, devices: Seq<DeviceView>, cmd: Command) -> Entries
    decreases devices.len(),
{
    if devices.len() == 0 {
        entries
    } else {
        let model = devices.last().model;
        saved(
            saved_for_all(entries, devices.drop_last(), cmd),
            model.name(),
            model.sectors(),
            model.dims(),
            cmd,
        )
    }
}

/// What a scan found of one device: where it sits, and its serial number
/// where it could be opened.
pub open spec fn found_view(found: (UsbDevice, Opened)) -> (UsbDevice, Option<Seq<char>>) {
    (
        found.0,
        match found.1 {
            Ok(serial) => Some(serial@),
            Err(_) => None,
        },
    )
}

/// The device that a driver makes of what was opened.
pub open spec fn opened_device(
    drivers: Seq<GDeviceDriverRef>,
    place: UsbDevice,
    serial: Option<Seq<char>>,
) -> Option<DeviceView> {
    match (driver_for(drivers, place), serial) {
        (Some(driver), Some(serial)) => Some(DeviceView { model: driver.model(), serial, place }),
        _ => None,
    }
}

/// The devices that are connected after a scan: those that a driver knows and
/// that could be opened, each once, in the order in which they were found.
pub open spec fn scanned(
    drivers: Seq<GDeviceDriverRef>,
    found: Seq<(UsbDevice, Option<Seq<char>>)>,
) -> Seq<DeviceView>
    decreases found.len(),
{
    if found.len() == 0 {
        Seq::empty()
    } else {
        let before = scanned(drivers, found.drop_last());
        match opened_device(drivers, found.last().0, found.last().1) {
            Some(device) => admitted(before, device),
            None => before,
        }
    }
}

pub proof fn connected_after_removal(devices: Seq<DeviceView>, place: UsbDevice, device: DeviceView)
    ensures
        is_connected(without_place(devices, place), device) ==> is_connected(devices, device),
    decreases devices.len(),
{
    if devices.len() > 0 {
        let rest = without_place(devices.drop_last(), place);
        connected_after_removal(devices.drop_last(), place, device);
        if is_connected(without_place(devices, place), device) {
            let i = choose|i: int|
                0 <= i < without_place(devices, place).len() && (#[trigger] without_place(
                    devices,
                    place,
                )[i]).same_identity(device);
            if i < rest.len() {
                assert(rest[i].same_identity(device));
                let k = choose|k: int|
                    0 <= k < devices.drop_last().len() && (#[trigger] devices.drop_last()[k]).same_identity(
                    device);
                assert(devices[k].same_identity(device));
            } else {
                assert(devices[devices.len() - 1].same_identity(device));
            }
        }
    }
}

/// Removing devices leaves the others distinct.
pub proof fn distinct_after_removal(devices: Seq<DeviceView>, place: UsbDevice)
    requires
        distinct(devices),
    ensures
        distinct(without_place(devices, place)),
    decreases devices.len(),
{
    if devices.len() > 0 {
        distinct_after_removal(devices.drop_last(), place);
        if !devices.last().place.same_place(place) {
            let rest = without_place(devices.drop_last(), place);
            connected_after_removal(devices.drop_last(), place, devices.last());
            assert(rest.push(devices.last()).drop_last() =~= rest);
        }
    }
}

/// A device that joins the connected ones leaves them distinct.
pub proof fn distinct_after_admission(devices: Seq<DeviceView>, device: DeviceView)
    requires
        distinct(devices),
    ensures
        distinct(admitted(devices, device)),
{
    if !is_connected(devices, device) {
        assert(devices.push(device).drop_last() =~= devices);
    }
}

/// The devices that a scan leaves are distinct.
pub proof fn distinct_after_scan(
    drivers: Seq<GDeviceDriverRef>,
    found: Seq<(UsbDevice, Option<Seq<char>>)>,
)
    ensures
        distinct(scanned(drivers, found)),
    decreases found.len(),
{
    if found.len() > 0 {
        distinct_after_scan(drivers, found.drop_last());
        match opened_device(drivers, found.last().0, found.last().1) {
            Some(device) => distinct_after_admission(scanned(drivers, found.drop_last()), device),
            None => {},
        }
    }
}

/// What a scan found, with the serial numbers as sequences of characters.
pub open spec fn found_views(found: Seq<(UsbDevice, Opened)>) -> Seq<(UsbDevice, Option<Seq<char>>)> {
    Seq::new(found.len(), |i: int| found_view(found[i]))
}

/// The connected devices, in the order in which they came; none of them
/// twice.
#[derive(Debug)]
pub struct DeviceList {
    devices: Vec<GDeviceRef>,
}

impl DeviceList {
    #[verifier::type_invariant]
    spec fn no_device_twice(self) -> bool {
        distinct(device_views(self.devices@))
    }

    /// What the manager keeps of each device, in order.
    pub closed spec fn views(&self) -> Seq<DeviceView> {
        device_views(self.devices@)
    }

    pub fn new() -> (list: DeviceList)
        ensures
            list.views() == Seq::<DeviceView>::empty(),
    {
        let devices: Vec<GDeviceRef> = Vec::new();
        assert(device_views(devices@) =~= Seq::<DeviceView>::empty());
        DeviceList { devices }
    }

    /// The devices.
    pub fn as_slice(&self) -> (devices: &[GDeviceRef])
        ensures
            device_views(devices@) == self.views(),
            distinct(self.views()),
    {
        proof {
            use_type_invariant(self);
        }
        self.devices.as_slice()
    }

    /// Whether a device is in the list.
    pub fn contains(&self, device: &GDeviceRef) -> (r: bool)
        ensures
            r == is_connected(self.views(), device@),
    {
        let mut i: usize = 0;
        while i < self.devices.len()
            invariant
                i <= self.devices@.len(),
                forall|k: int|
                    0 <= k < i ==> !(#[trigger] device_views(self.devices@)[k]).same_identity(
                        device@,
                    ),
            decreases self.devices@.len() - i,
        {
            if self.devices[i].is_same_device(device) {
                assert(device_views(self.devices@)[i as int].same_identity(device@));
                return true;
            }
            i += 1;
        }
        false
    }

    /// Adds a device, unless it is in the list already; says whether it
    /// was added.
    pub fn insert(&mut self, device: GDeviceRef) -> (added: bool)
        ensures
            final(self).views() == admitted(old(self).views(), device@),
            added == !is_connected(old(self).views(), device@),
            distinct(final(self).views()),
    {
        proof {
            use_type_invariant(&*self);
        }
        if self.contains(&device) {
            return false;
        }
        let ghost before = self.views();
        let mut devices: Vec<GDeviceRef> = Vec::new();
        assert(device_views(devices@) =~= Seq::<DeviceView>::empty());
        core::mem::swap(&mut self.devices, &mut devices);
        proof {
            distinct_after_admission(before, device@);
        }
        let ghost view = device@;
        devices.push(device);
        assert(device_views(devices@) =~= before.push(view));
        self.devices = devices;
        true
    }

    /// Drops every device at a place on the bus.
    pub fn forget(&mut self, place: &UsbDevice)
        ensures
            final(self).views() == without_place(old(self).views(), *place),
            distinct(final(self).views()),
    {
        proof {
            use_type_invariant(&*self);
        }
        let ghost known = self.views();
        let mut rest: Vec<GDeviceRef> = Vec::new();
        assert(device_views(rest@) =~= Seq::<DeviceView>::empty());
        core::mem::swap(&mut self.devices, &mut rest);
        let mut kept: Vec<GDeviceRef> = Vec::new();
        let ghost mut done: int = 0;
        assert(known.take(0) =~= Seq::empty());
        assert(known.skip(0) =~= known);
        assert(device_views(kept@) =~= Seq::<DeviceView>::empty());
        while rest.len() > 0
            invariant
                0 <= done <= known.len(),
                device_views(rest@) == known.skip(done),
                device_views(kept@) == without_place(known.take(done), *place),
            decreases rest@.len(),
        {
            let ghost before = device_views(kept@);
            let ghost rest_before = device_views(rest@);
            let ghost rest_seq = rest@;
            let device = rest.remove(0);
            assert(rest_before.len() == rest_seq.len());
            assert(device == rest_seq[0]);
            assert(rest_before[0] == rest_seq[0]@);
            assert(known.skip(done)[0] == known[done]);
            assert(device@ == known[done]);
            assert forall|k: int| 0 <= k < rest@.len() implies device_views(rest@)[k] == known.skip(
                done + 1,
            )[k] by {
                assert(rest@[k] == rest_seq[k + 1]);
                assert(rest_before[k + 1] == rest_seq[k + 1]@);
                assert(known.skip(done)[k + 1] == known[done + k + 1]);
            }
            assert(device_views(rest@) =~= known.skip(done + 1));
            assert(known.take(done + 1).drop_last() =~= known.take(done));
            if !device.usb().dev().at_same_place(place) {
                let ghost view = device@;
                kept.push(device);
                assert(device_views(kept@) =~= before.push(view));
            }
            proof {
                done = done + 1;
            }
        }
        assert(known.take(done) =~= known);
        proof {
            distinct_after_removal(known, *place);
        }
        self.devices = kept;
    }
}

/// The device manager: the registered drivers, the connected devices and
/// the stored configuration, changed only as a whole.
#[derive(Debug)]
pub struct GDeviceManager {
    config: Config,
    drivers: Vec<GDeviceDriverRef>,
    devices: DeviceList,
    phase: Phase,
}

impl GDeviceManager {

    /// What the stored configuration holds.
    pub closed spec fn entries(&self) -> Entries {
        self.config.entries()
    }

    /// The stored configuration written out as text.
    pub closed spec fn config_text(&self) -> Seq<char> {
        self.config.text()
    }

    /// The connected devices, in the order in which they came.
    pub closed spec fn connected(&self) -> Seq<DeviceView> {
        self.devices.views()
    }

    /// The registered drivers.
    pub closed spec fn drivers(&self) -> Seq<GDeviceDriverRef> {
        self.drivers@
    }

    pub closed spec fn phase(&self) -> Phase {
        self.phase
    }

    /// The connected devices and the stored configuration.
    pub open spec fn state(&self) -> ManagerState {
        ManagerState { connected: self.connected(), entries: self.entries() }
    }

    /// A manager with every driver registered and no device connected yet,
    /// once the USB layer is ready; its failure under its label otherwise.
    pub fn try_new(context: Result<(), UsbError>, config: Config) -> (r: CommandResult<Self>)
        ensures
            match context {
                Ok(_) => r matches Ok(m) && m.entries() == config.entries() && m.config_text()
                    == config.text() && m.connected() == Seq::<DeviceView>::empty() && m.drivers()
                    == all_drivers() && m.phase() == Phase::Initializing,
                Err(code) => r matches Err(e) && e@ == CommandErrorView::Usb(
                    "creating USB context"@,
                    code,
                ),
            },
    {
        match context {
            Ok(_) => {
                let mut drivers: Vec<GDeviceDriverRef> = Vec::new();
                drivers.push(GDeviceDriverRef::G213(G213Driver::new()));
                drivers.push(GDeviceDriverRef::G203Lightsync(G203LightsyncDriver::new()));
                assert(drivers@ =~= all_drivers());
                Ok(Self { config, drivers, devices: DeviceList::new(), phase: Phase::Initializing })
            },
            Err(code) => Err(CommandError::usb("creating USB context", code)),
        }
    }

    /// Takes the result of a scan of the bus: the devices found become the
    /// connected ones, and the stored configuration is applied to each.
    ///
    /// `scan` holds, for each device on the bus that a driver knows, what
    /// opening it came to; or the failure to list the bus, which leaves
    /// everything as it was.
    pub fn load_devices(&mut self, scan: Result<Vec<(UsbDevice, Opened)>, UsbError>) -> (r:
        CommandResult<Vec<Transmission>>)
        ensures
            final(self).entries() == old(self).entries(),
            final(self).config_text() == old(self).config_text(),
            final(self).drivers() == old(self).drivers(),
            distinct(final(self).connected()),
            match scan {
                Ok(found) => {
                    &&& r matches Ok(plan) && views(plan@) == replay_all(
                        final(self).connected(),
                        final(self).entries(),
                    )
                    &&& final(self).connected() == scanned(old(self).drivers(), found_views(found@))
                    &&& final(self).phase() == Phase::Running
                },
                Err(code) => {
                    &&& r matches Err(e) && e@ == CommandErrorView::Usb("listing USB devices"@, code)
                    &&& final(self).connected() == old(self).connected()
                    &&& final(self).phase() == old(self).phase()
                },
            },
    {
        match scan {
            Err(code) => {
                proof {
                    use_type_invariant(&self.devices);
                }
                Err(CommandError::usb("listing USB devices", code))
            },
            Ok(found) => {
                let mut devices = DeviceList::new();
                let mut i: usize = 0;
                assert(found_views(found@).take(0) =~= Seq::empty());
                while i < found.len()
                    invariant
                        i <= found@.len(),
                        self.drivers@ == old(self).drivers@,
                        self.config == old(self).config,
                        devices.views() == scanned(self.drivers@, found_views(found@).take(i as int)),
                    decreases found@.len() - i,
                {
                    let ghost all = found_views(found@);
                    assert(all.take(i + 1).drop_last() =~= all.take(i as int));
                    assert(all.take(i + 1).last() == found_view(found@[i as int]));
                    match self.try_open_device(&found[i].0, &found[i].1) {
                        Some(device) => {
                            devices.insert(device);
                        },
                        None => {},
                    }
                    i += 1;
                }
                assert(found_views(found@).take(i as int) =~= found_views(found@));
                proof {
                    distinct_after_scan(self.drivers@, found_views(found@));
                }
                self.devices = devices;
                self.phase = Phase::Running;
                Ok(self.apply_config())
            },
        }
    }

    /// The driver for a device: the first whose model has the device's
    /// product, for a device of the supported vendor.
    pub fn find_driver_for_device(&self, device: &UsbDevice) -> (r: Option<GDeviceDriverRef>)
        ensures
            r == driver_for(self.drivers(), *device),
    {
        if device.vendor_id != LOGITECH_USB_VENDOR_ID {
            return None;
        }
        let mut i: usize = 0;
        assert(self.drivers@.skip(0) =~= self.drivers@);
        while i < self.drivers.len()
            invariant
                i <= self.drivers@.len(),
                device.vendor_id == LOGITECH_USB_VENDOR_ID,
                first_driver(self.drivers@, device.product_id) == first_driver(
                    self.drivers@.skip(i as int),
                    device.product_id,
                ),
            decreases self.drivers@.len() - i,
        {
            let driver = self.drivers[i];
            assert(self.drivers@.skip(i as int)[0] == driver);
            if driver.get_model().usb_product_id() == device.product_id {
                assert(first_driver(self.drivers@.skip(i as int), device.product_id) == Some(
                    driver,
                ));
                return Some(driver);
            }
            assert(self.drivers@.skip(i as int).drop_first() =~= self.drivers@.skip(i + 1));
            i += 1;
        }
        None
    }

    /// The device that the matching driver makes of what was opened; none
    /// where no driver matches or opening failed.
    pub fn try_open_device(&self, device: &UsbDevice, opened: &Opened) -> (r: Option<GDeviceRef>)
        ensures
            match opened_device(self.drivers(), *device, found_view((*device, *opened)).1) {
                Some(view) => r matches Some(d) && d@ == view,
                None => r is None,
            },
    {
        match self.find_driver_for_device(device) {
            Some(driver) => driver.open_device(device, opened),
            None => None,
        }
    }

    /// The connected devices.
    pub fn list(&self) -> (devices: &[GDeviceRef])
        ensures
            device_views(devices@) == self.connected(),
            distinct(self.connected()),
    {
        self.devices.as_slice()
    }

    /// The registered drivers.
    pub fn list_drivers(&self) -> (drivers: &[GDeviceDriverRef])
        ensures
            drivers@ == self.drivers(),
    {
        self.drivers.as_slice()
    }

    /// The stored configuration as the text to keep.
    pub fn config_to_text(&self) -> (text: String)
        ensures
            text@ == self.config_text(),
    {
        self.config.to_text()
    }

    pub fn get_phase(&self) -> (phase: Phase)
        ensures
            phase == self.phase(),
    {
        self.phase
    }

    /// Send command to all devices
    ///
    /// Each connected device gets one transmission, and the command is stored
    /// for the model of each, whether or not the model takes the command and
    /// whatever becomes of the transmission.
    pub fn send_command(&mut self, cmd: Command) -> (plan: Vec<Transmission>)
        ensures
            (final(self).state(), views(plan@)) == commanded(old(self).state(), cmd),
            final(self).drivers() == old(self).drivers(),
            final(self).phase() == old(self).phase(),
    {
        let mut plan: Vec<Transmission> = Vec::new();
        let ghost known = self.connected();
        let ghost entries = self.entries();
        let devices = self.devices.as_slice();
        let mut i: usize = 0;
        assert(known.take(0) =~= Seq::empty());
        assert(views(plan@) =~= dispatch(known.take(0), cmd));
        while i < devices.len()
            invariant
                i <= devices@.len(),
                known == device_views(devices@),
                self.devices == old(self).devices,
                self.drivers == old(self).drivers,
                self.phase == old(self).phase,
                views(plan@) == dispatch(known.take(i as int), cmd),
                self.config.entries() == saved_for_all(entries, known.take(i as int), cmd),
            decreases devices@.len() - i,
        {
            let session = devices[i].send_command(cmd);
            let place = devices[i].usb().dev;
            let model = devices[i].get_model();
            let ghost before = views(plan@);
            let item = Transmission { device: place, session };
            assert(item@ == transmission(known[i as int], cmd));
            let ghost view = item@;
            plan.push(item);
            assert(views(plan@) =~= before.push(view));
            self.config.save_command(&model, cmd);
            assert(known.take(i + 1).drop_last() =~= known.take(i as int));
            assert(views(plan@) =~= dispatch(known.take(i + 1), cmd));
            i += 1;
        }
        assert(known.take(i as int) =~= known);
        plan
    }

    fn replay_device(&self, device: &GDeviceRef) -> (plan: Vec<Transmission>)
        ensures
            views(plan@) == replay(device@, commands_of(self.entries(), device@.model)),
    {
        let model = device.get_model();
        let commands = self.config.commands_for(&model);
        let place = device.usb().dev;
        let mut plan: Vec<Transmission> = Vec::new();
        if commands.len() == 0 {
            let item = Transmission { device: place, session: device.send_reset() };
            assert(item@ == reset_transmission(device@));
            plan.push(item);
            assert(views(plan@) =~= seq![reset_transmission(device@)]);
            return plan;
        }
        let mut i: usize = 0;
        while i < commands.len()
            invariant
                i <= commands@.len(),
                place == device@.place,
                views(plan@) == Seq::new(i as nat, |k: int| transmission(device@, commands@[k])),
            decreases commands@.len() - i,
        {
            let ghost before = views(plan@);
            let item = Transmission { device: place, session: device.send_command(commands[i]) };
            assert(item@ == transmission(device@, commands@[i as int]));
            let ghost view = item@;
            plan.push(item);
            assert(views(plan@) =~= before.push(view));
            i += 1;
            assert(views(plan@) =~= Seq::new(
                i as nat,
                |k: int| transmission(device@, commands@[k]),
            ));
        }
        plan
    }

    /// Send current config to device
    ///
    /// Every connected device is sent what is stored for its model.
    pub fn apply_config(&self) -> (plan: Vec<Transmission>)
        ensures
            views(plan@) == replay_all(self.connected(), self.entries()),
    {
        let mut plan: Vec<Transmission> = Vec::new();
        let ghost known = self.connected();
        let devices = self.devices.as_slice();
        let mut i: usize = 0;
        assert(known.take(0) =~= Seq::empty());
        assert(views(plan@) =~= replay_all(known.take(0), self.entries()));
        while i < devices.len()
            invariant
                i <= devices@.len(),
                known == device_views(devices@),
                views(plan@) == replay_all(known.take(i as int), self.entries()),
            decreases devices@.len() - i,
        {
            let ghost before = plan@;
            let mut part = self.replay_device(&devices[i]);
            let ghost added = part@;
            plan.append(&mut part);
            assert(known.take(i + 1).drop_last() =~= known.take(i as int));
            assert(views(before + added) =~= views(before) + views(added));
            i += 1;
        }
        assert(known.take(i as int) =~= known);
        plan
    }

    /// Refresh config from filesystem and send config
    ///
    /// `text` is what the configuration file holds now. It takes the place
    /// of the stored configuration and is applied to every connected device.
    pub fn refresh(&mut self, text: &str) -> (plan: Vec<Transmission>)
        ensures
            (final(self).state(), views(plan@)) == refreshed(old(self).state(), text@),
            final(self).drivers() == old(self).drivers(),
            final(self).phase() == old(self).phase(),
    {
        self.config = Config::load(text);
        self.apply_config()
    }

    /// Takes a message from the mailbox.
    ///
    /// An arrival of a device that a driver knows asks the caller to open
    /// it; any other arrival is passed over. A departure ends the connection of
    /// every device at that place on the bus. A shutdown ends the run loop,
    /// and after it every message only repeats that.
    pub fn handle_event(&mut self, event: GDeviceManagerEvent) -> (action: ManagerAction)
        ensures
            final(self).entries() == old(self).entries(),
            final(self).config_text() == old(self).config_text(),
            final(self).drivers() == old(self).drivers(),
            distinct(final(self).connected()),
            old(self).phase() == Phase::ShuttingDown ==> action == ManagerAction::Stop
                && final(self).connected() == old(self).connected() && final(self).phase()
                == Phase::ShuttingDown,
            old(self).phase() != Phase::ShuttingDown ==> match event {
                GDeviceManagerEvent::Arrived(device) => final(self).connected() == old(self).connected()
                    && final(self).phase() == old(self).phase() && action == (if driver_for(
                    old(self).drivers(),
                    device,
                ) is Some {
                    ManagerAction::Open(device)
                } else {
                    ManagerAction::Nothing
                }),
                GDeviceManagerEvent::Departed(device) => final(self).connected() == without_place(
                    old(self).connected(),
                    device,
                ) && final(self).phase() == old(self).phase() && action == ManagerAction::Nothing,
                GDeviceManagerEvent::Shutdown => final(self).connected() == old(self).connected()
                    && final(self).phase() == Phase::ShuttingDown && action == ManagerAction::Stop,
            },
    {
        proof {
            use_type_invariant(&self.devices);
        }
        match self.phase {
            Phase::ShuttingDown => {
                return ManagerAction::Stop;
            },
            _ => {},
        }
        match event {
            GDeviceManagerEvent::Arrived(device) => match self.find_driver_for_device(&device) {
                Some(_) => ManagerAction::Open(device),
                None => ManagerAction::Nothing,
            },
            GDeviceManagerEvent::Departed(device) => {
                self.devices.forget(&device);
                ManagerAction::Nothing
            },
            GDeviceManagerEvent::Shutdown => {
                self.phase = Phase::ShuttingDown;
                ManagerAction::Stop
            },
        }
    }

    /// Takes what opening an arrived device came to.
    ///
    /// A device that no driver knows or that could not be opened is passed
    /// over, and so is one that is connected already. Any other is connected from
    /// now on, and what is stored for its model is applied to it.
    pub fn device_opened(&mut self, device: &UsbDevice, opened: &Opened) -> (r: Arrival)
        ensures
            final(self).entries() == old(self).entries(),
            final(self).config_text() == old(self).config_text(),
            final(self).drivers() == old(self).drivers(),
            final(self).phase() == old(self).phase(),
            distinct(final(self).connected()),
            match opened_device(old(self).drivers(), *device, found_view((*device, *opened)).1) {
                None => r is Unavailable && final(self).connected() == old(self).connected(),
                Some(view) => final(self).connected() == admitted(old(self).connected(), view) && (
                if is_connected(old(self).connected(), view) {
                    r is Duplicate
                } else {
                    r matches Arrival::Added(plan) && views(plan@) == replay(
                        view,
                        commands_of(old(self).entries(), view.model),
                    )
                }),
            },
    {
        proof {
            use_type_invariant(&self.devices);
        }
        match self.try_open_device(device, opened) {
            None => Arrival::Unavailable,
            Some(new_device) => {
                if self.devices.contains(&new_device) {
                    Arrival::Duplicate
                } else {
                    let plan = self.replay_device(&new_device);
                    self.devices.insert(new_device);
                    Arrival::Added(plan)
                }
            },
        }
    }
}

/// How often a device occurs among the connected ones.
pub open spec fn occurrences(devices: Seq<DeviceView>, device: DeviceView) -> nat
    decreases devices.len(),
{
    if devices.len() == 0 {
        0
    } else {
        occurrences(devices.drop_last(), device) + (if devices.last().same_identity(device) {
            1nat
        } else {
            0nat
        })
    }
}

/// A device occurs among distinct devices once if it is connected, and
/// never if it is not.
pub proof fn occurrences_among_distinct(devices: Seq<DeviceView>, device: DeviceView)
    requires
        distinct(devices),
    ensures
        occurrences(devices, device) == (if is_connected(devices, device) {
            1nat
        } else {
            0nat
        }),
    decreases devices.len(),
{
    if devices.len() > 0 {
        let rest = devices.drop_last();
        occurrences_among_distinct(rest, device);
        if is_connected(rest, device) {
            let i = choose|i: int| 0 <= i < rest.len() && (#[trigger] rest[i]).same_identity(device);
            assert(devices[i].same_identity(device));
            if devices.last().same_identity(device) {
                assert(rest[i].same_identity(devices.last()));
            }
        } else if devices.last().same_identity(device) {
            assert(devices[devices.len() - 1].same_identity(device));
        } else if is_connected(devices, device) {
            let i = choose|i: int|
                0 <= i < devices.len() && (#[trigger] devices[i]).same_identity(device);
            assert(rest[i].same_identity(device));
        }
    }
}

/// A device that arrives twice is connected once: the second arrival
/// changes nothing.
pub proof fn duplicate_arrival_changes_nothing(devices: Seq<DeviceView>, device: DeviceView)
    requires
        distinct(devices),
    ensures
        admitted(admitted(devices, device), device) == admitted(devices, device),
        is_connected(admitted(devices, device), device),
        occurrences(admitted(admitted(devices, device), device), device) == 1,
{
    let once = admitted(devices, device);
    if !is_connected(devices, device) {
        assert(once[once.len() - 1].same_identity(device));
    }
    distinct_after_admission(devices, device);
    occurrences_among_distinct(once, device);
}

/// What the manager holds besides its drivers: the connected devices and
/// the stored configuration.
pub struct ManagerState {
    pub connected: Seq<DeviceView>,
    pub entries: Entries,
}

/// A refresh: the text takes the place of the stored configuration, and
/// every connected device is sent what the text holds for its model.
pub open spec fn refreshed(state: ManagerState, text: Seq<char>) -> (ManagerState, Seq<
    TransmissionView,
>) {
    let entries = Config::loaded(text);
    (ManagerState { connected: state.connected, entries }, replay_all(state.connected, entries))
}

/// A command to all devices: every connected device is sent the command,
/// and the command is stored for the model of each.
pub open spec fn commanded(state: ManagerState, cmd: Command) -> (ManagerState, Seq<
    TransmissionView,
>) {
    (
        ManagerState {
            connected: state.connected,
            entries: saved_for_all(state.entries, state.connected, cmd),
        },
        dispatch(state.connected, cmd),
    )
}

/// A second refresh from the same text sends what the first one sent, and
/// leaves what the first one left.
pub proof fn refresh_is_idempotent(state: ManagerState, text: Seq<char>)
    ensures
        refreshed(refreshed(state, text).0, text) == refreshed(state, text),
{
}

/// After a command to all devices, the section of every connected device's
/// model names the command's kind: the command is stored for each of them,
/// and what becomes of the transmissions plays no part in it.
pub proof fn command_is_stored_for_every_device(
    entries: Entries,
    devices: Seq<DeviceView>,
    cmd: Command,
    i: int,
)
    requires
        0 <= i < devices.len(),
    ensures
        lookup(saved_for_all(entries, devices, cmd), devices[i].model.name(), "type"@) == Some(
            kind_name(cmd),
        ),
        dispatch(devices, cmd)[i] == transmission(devices[i], cmd),
    decreases devices.len(),
{
    let model = devices.last().model;
    saved_kind(
        saved_for_all(entries, devices.drop_last(), cmd),
        model.name(),
        model.sectors(),
        model.dims(),
        cmd,
        devices[i].model.name(),
    );
    if i < devices.len() - 1 {
        command_is_stored_for_every_device(entries, devices.drop_last(), cmd, i);
    }
}

/// After the devices at a place were dropped, no device is at that place.
pub proof fn nothing_is_left_at_the_place(devices: Seq<DeviceView>, place: UsbDevice, i: int)
    requires
        0 <= i < without_place(devices, place).len(),
    ensures
        !without_place(devices, place)[i].place.same_place(place),
    decreases devices.len(),
{
    if devices.len() > 0 {
        let rest = without_place(devices.drop_last(), place);
        if i < rest.len() {
            nothing_is_left_at_the_place(devices.drop_last(), place, i);
        }
    }
}

/// A device that arrives and then departs is absent, whatever was connected
/// before.
pub proof fn departure_after_arrival_leaves_absent(devices: Seq<DeviceView>, device: DeviceView)
    ensures
        !is_connected(without_place(admitted(devices, device), device.place), device),
{
    let after = without_place(admitted(devices, device), device.place);
    if is_connected(after, device) {
        let i = choose|i: int| 0 <= i < after.len() && (#[trigger] after[i]).same_identity(device);
        nothing_is_left_at_the_place(admitted(devices, device), device.place, i);
    }
}

/// A command to no device sends nothing and stores nothing.
pub proof fn command_to_no_device_does_nothing(entries: Entries, cmd: Command)
    ensures
        commanded(ManagerState { connected: Seq::empty(), entries }, cmd) == (
            ManagerState { connected: Seq::empty(), entries },
            Seq::<TransmissionView>::empty(),
        ),
{
    assert(dispatch(Seq::empty(), cmd) =~= Seq::<TransmissionView>::empty());
}

} // verus!
