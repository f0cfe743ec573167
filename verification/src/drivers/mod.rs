//! What the drivers share: the limits of a product line, the shape of a
//! report, and the sending of reports through an interface of an open device.

use vstd::prelude::*;
use vstd::array::*;
use vstd::string::*;
use crate::command::{Brightness, Dpi, Speed, MAX_BRIGHTNESS};
use crate::error::{CommandError, CommandErrorView, CommandResult, UsbError, limit_message};
use crate::model::UsbDevice;
use crate::usb_ext::{
    balanced, fits, gave_back_badly, performed, DetachedHandle, GuardState, InterfaceState, Run,
    UsbReply, UsbRequest,
};

pub mod g203_lightsync;
pub mod g213;

verus! {

/// The endpoint from which a device's acknowledgment is read.
pub const ENDPOINT_ADDRESS: u8 = 0x82;

/// Host to device, class request, to an interface.
pub const REQUEST_TYPE: u8 = 0x21;

/// The HID request that sets a report.
pub const REQUEST: u8 = 0x09;

/// An output report with the identifier `0x11`.
pub const VALUE: u16 = 0x0211;

/// The interface that takes the reports.
pub const INTERFACE: u8 = 0x0001;

/// The bound on each transfer, in seconds.
pub const TRANSFER_TIMEOUT_SECS: u64 = 5;

/// The length of every report.
pub const REPORT_LEN: usize = 20;

/// The limits of a product line.
#[derive(Copy, Clone, Debug, PartialEq, Eq, Structural)]
pub struct DeviceDescription {
    pub product_id: u16,
    pub min_speed: Speed,
    pub default_speed: Speed,
    pub max_speed: Speed,
    /// Whether effects can be dimmed.
    pub brightness: bool,
    /// The smallest resolution, `u16::MAX` where the resolution cannot be set.
    pub min_dpi: Dpi,
}

/// A report: the given bytes, then zeros up to twenty bytes.
pub open spec fn padded_report(prefix: Seq<u8>) -> Seq<u8> {
    prefix + Seq::new((REPORT_LEN - prefix.len()) as nat, |i: int| 0u8)
}

/// The high byte of a speed.
pub open spec fn speed_high(speed: Speed) -> u8 {
    (speed.0 / 256) as u8
}

/// The low byte of a speed.
pub open spec fn speed_low(speed: Speed) -> u8 {
    (speed.0 % 256) as u8
}

pub fn high_byte(speed: Speed) -> (b: u8)
    ensures
        b == speed_high(speed),
{
    let s = speed.0;
    assert((s >> 8) == s / 256 && (s >> 8) < 256) by (bit_vector);
    (s >> 8) as u8
}

pub fn low_byte(speed: Speed) -> (b: u8)
    ensures
        b == speed_low(speed),
{
    let s = speed.0;
    assert((s & 0xff) == s % 256 && (s & 0xff) < 256) by (bit_vector);
    (s & 0xff) as u8
}

/// Copies the given bytes to the head of a report of zeros.
pub fn fill_report(b: &[u8]) -> (bytes: [u8; 20])
    requires
        b@.len() <= REPORT_LEN,
    ensures
        bytes@ == padded_report(b@),
{
    let mut bytes: [u8; 20] = [0, 0, 0, 0, 0, 0, 0, 0, 0, 0, 0, 0, 0, 0, 0, 0, 0, 0, 0, 0];
    let mut i: usize = 0;
    while i < b.len()
        invariant
            i <= b@.len() <= REPORT_LEN,
            forall|k: int| 0 <= k < i ==> bytes@[k] == b@[k],
            forall|k: int| i <= k < REPORT_LEN ==> bytes@[k] == 0,
        decreases b@.len() - i,
    {
        bytes[i] = b[i];
        i += 1;
    }
    assert(bytes@ =~= padded_report(b@));
    bytes
}

impl DeviceDescription {
    /// The speed to use for a request, or why the requested one is refused.
    pub open spec fn speed_for(self, speed: Option<Speed>) -> Result<Speed, CommandErrorView> {
        match speed {
            None => Ok(self.default_speed),
            Some(s) => if s.0 < self.min_speed.0 {
                Err(
                    CommandErrorView::InvalidArgument(
                        "speed"@,
                        limit_message(s.0 as nat, " < "@, self.min_speed.0 as nat),
                    ),
                )
            } else if s.0 > self.max_speed.0 {
                Err(
                    CommandErrorView::InvalidArgument(
                        "speed"@,
                        limit_message(s.0 as nat, " > "@, self.max_speed.0 as nat),
                    ),
                )
            } else {
                Ok(s)
            },
        }
    }

    /// The brightness to use for a request, or why the requested one is
    /// refused: a model that cannot dim takes full brightness only.
    pub open spec fn brightness_for(self, brightness: Option<Brightness>) -> Result<
        Brightness,
        CommandErrorView,
    > {
        match brightness {
            None => Ok(Brightness::of(MAX_BRIGHTNESS)),
            Some(b) => if !self.brightness && b.value() != MAX_BRIGHTNESS {
                Err(
                    CommandErrorView::InvalidArgument(
                        "brightness"@,
                        limit_message(b.value() as nat, " != "@, MAX_BRIGHTNESS as nat),
                    ),
                )
            } else {
                Ok(b)
            },
        }
    }

    /// The speed and the brightness to use for a request; the speed is
    /// judged first.
    pub open spec fn timing_for(self, speed: Option<Speed>, brightness: Option<Brightness>) -> Result<
        (Speed, Brightness),
        CommandErrorView,
    > {
        match self.speed_for(speed) {
            Err(e) => Err(e),
            Ok(s) => match self.brightness_for(brightness) {
                Err(e) => Err(e),
                Ok(b) => Ok((s, b)),
            },
        }
    }

    /// What a check of a resolution answers. A resolution below the model's
    /// smallest is refused under the name `speed`.
    pub open spec fn dpi_checked(self, dpi: Dpi) -> Result<(), CommandErrorView> {
        if dpi.0 < self.min_dpi.0 {
            Err(
                CommandErrorView::InvalidArgument(
                    "speed"@,
                    limit_message(dpi.0 as nat, " < "@, self.min_dpi.0 as nat),
                ),
            )
        } else {
            Ok(())
        }
    }

    /// The requested speed where it lies within the model's range, the
    /// model's default where none is requested.
    pub fn get_speed(&self, speed: Option<Speed>) -> (r: CommandResult<Speed>)
        ensures
            match self.speed_for(speed) {
                Ok(s) => r == Ok::<Speed, CommandError>(s),
                Err(e) => r is Err && r->Err_0@ == e,
            },
    {
        match speed {
            Some(s) => {
                if s.0 < self.min_speed.0 {
                    return Err(
                        CommandError::out_of_range(
                            "speed",
                            s.0 as u32,
                            " < ",
                            self.min_speed.0 as u32,
                        ),
                    );
                }
                if s.0 > self.max_speed.0 {
                    return Err(
                        CommandError::out_of_range(
                            "speed",
                            s.0 as u32,
                            " > ",
                            self.max_speed.0 as u32,
                        ),
                    );
                }
                Ok(s)
            },
            None => Ok(self.default_speed),
        }
    }

    /// The requested brightness where the model takes it, full brightness
    /// where none is requested.
    pub fn get_brightness(&self, brightness: Option<Brightness>) -> (r: CommandResult<Brightness>)
        ensures
            match self.brightness_for(brightness) {
                Ok(b) => r == Ok::<Brightness, CommandError>(b),
                Err(e) => r is Err && r->Err_0@ == e,
            },
    {
        match brightness {
            Some(b) => {
                if !self.brightness && b.get() != MAX_BRIGHTNESS {
                    return Err(
                        CommandError::out_of_range(
                            "brightness",
                            b.get() as u32,
                            " != ",
                            MAX_BRIGHTNESS as u32,
                        ),
                    );
                }
                Ok(b)
            },
            None => Ok(Brightness::default()),
        }
    }

    /// The speed and the brightness to use for a request, or why one of
    /// them is refused.
    pub fn get_timing(&self, speed: Option<Speed>, brightness: Option<Brightness>) -> (r:
        CommandResult<(Speed, Brightness)>)
        ensures
            match self.timing_for(speed, brightness) {
                Ok(t) => r == Ok::<(Speed, Brightness), CommandError>(t),
                Err(e) => r is Err && r->Err_0@ == e,
            },
    {
        match self.get_speed(speed) {
            Err(e) => Err(e),
            Ok(s) => match self.get_brightness(brightness) {
                Err(e) => Err(e),
                Ok(b) => Ok((s, b)),
            },
        }
    }

    /// Checks a resolution against the model's smallest. Only for a model
    /// whose resolution can be set.
    pub fn check_dpi(&self, dpi: Dpi) -> (r: CommandResult<()>)
        requires
            self.min_dpi.0 != u16::MAX,
        ensures
            match self.dpi_checked(dpi) {
                Ok(u) => r is Ok,
                Err(e) => r is Err && r->Err_0@ == e,
            },
    {
        if dpi.0 < self.min_dpi.0 {
            Err(CommandError::out_of_range("speed", dpi.0 as u32, " < ", self.min_dpi.0 as u32))
        } else {
            Ok(())
        }
    }
}

/// The bytes of each report of a list.
pub open spec fn report_bytes(reports: Seq<[u8; 20]>) -> Seq<Seq<u8>> {
    Seq::new(reports.len(), |i: int| reports[i]@)
}

/// What a device is sent for a command: the encoder's reports, or the reset
/// report alone where the encoder refuses the command.
pub open spec fn reports_sent(
    encoding: Result<Seq<Seq<u8>>, CommandErrorView>,
    reset: Seq<u8>,
) -> Seq<Seq<u8>> {
    match encoding {
        Ok(reports) => reports,
        Err(_) => seq![reset],
    }
}

/// What an encoder gives for an effect: the reset report, then the effect's
/// report; or the reason for which the effect is refused.
pub open spec fn after_reset(reset: Seq<u8>, effect: Result<Seq<u8>, CommandErrorView>) -> Result<
    Seq<Seq<u8>>,
    CommandErrorView,
> {
    match effect {
        Ok(report) => Ok(seq![reset, report]),
        Err(e) => Err(e),
    }
}

/// The reset report, then the effect's report.
pub fn reset_then(reset: [u8; 20], effect: [u8; 20]) -> (reports: Vec<[u8; 20]>)
    ensures
        report_bytes(reports@) == seq![reset@, effect@],
{
    let mut reports = Vec::new();
    reports.push(reset);
    reports.push(effect);
    assert(report_bytes(reports@) =~= seq![reset@, effect@]);
    reports
}

/// The reset report alone.
pub fn reset_only(reset: [u8; 20]) -> (reports: Vec<[u8; 20]>)
    ensures
        report_bytes(reports@) == seq![reset@],
{
    let mut reports = Vec::new();
    reports.push(reset);
    assert(report_bytes(reports@) =~= seq![reset@]);
    reports
}

/// The steps of opening a device, in the order in which they are taken.
#[derive(Copy, Clone, Debug, PartialEq, Eq, Structural)]
pub enum OpenStep {
    Open,
    ReadDescriptor,
    ReadSerialNumber,
}

impl OpenStep {
    pub open spec fn spec_label(self) -> Seq<char> {
        match self {
            OpenStep::Open => "opening USB device"@,
            OpenStep::ReadDescriptor => "reading device descriptor"@,
            OpenStep::ReadSerialNumber => "reading serial number"@,
        }
    }

    /// The words under which a failure of this step is reported.
    pub fn label(self) -> (s: &'static str)
        ensures
            s@ == self.spec_label(),
    {
        match self {
            OpenStep::Open => "opening USB device",
            OpenStep::ReadDescriptor => "reading device descriptor",
            OpenStep::ReadSerialNumber => "reading serial number",
        }
    }
}

/// What opening a device came to: its serial number, or the step that failed
/// and how.
pub type Opened = Result<String, (OpenStep, UsbError)>;

/// An open USB device of a supported product line.
#[derive(Clone, Debug, PartialEq, Eq)]
pub struct GUsbDriver {
    pub dev: UsbDevice,
    pub serial_number: String,
    pub description: DeviceDescription,
}

impl GUsbDriver {
    /// The open device, or nothing where opening failed: a device that
    /// cannot be opened is not available, and that is no error.
    pub fn open_device(description: DeviceDescription, device: &UsbDevice, opened: &Opened) -> (r:
        Option<Self>)
        ensures
            match *opened {
                Ok(serial) => r matches Some(d) && d.dev == *device && d.serial_number@ == serial@
                    && d.description == description,
                Err(_) => r is None,
            },
    {
        match Self::try_open_device(description, device, opened) {
            Ok(s) => Some(s),
            Err(_) => None,
        }
    }

    /// The open device, or the USB failure under the label of the step that
    /// failed.
    pub fn try_open_device(description: DeviceDescription, device: &UsbDevice, opened: &Opened) -> (r:
        CommandResult<Self>)
        ensures
            match *opened {
                Ok(serial) => r matches Ok(d) && d.dev == *device && d.serial_number@ == serial@
                    && d.description == description,
                Err((step, code)) => r matches Err(e) && e@ == CommandErrorView::Usb(
                    step.spec_label(),
                    code,
                ),
            },
    {
        match opened {
            Ok(serial) => Ok(
                Self {
                    dev: *device,
                    serial_number: String::from_str(serial.as_str()),
                    description,
                },
            ),
            Err(failure) => Err(CommandError::usb(failure.0.label(), failure.1)),
        }
    }

    /// Begins to send the given reports through the device's interface.
    pub fn open_interface(&self, reports: Vec<[u8; 20]>, rejection: Option<CommandError>) -> (r:
        GInterface)
        ensures
            r.progress == Progress::initial(INTERFACE),
            r.reports == reports,
            r.rejection == rejection,
    {
        GInterface {
            progress: Progress {
                handle: DetachedHandle::new(INTERFACE),
                sent: 0,
                state: TransferState::Opening,
                failure: None,
            },
            reports,
            rejection,
        }
    }

    pub fn serial_number(&self) -> (s: &str)
        ensures
            s@ == self.serial_number@,
    {
        self.serial_number.as_str()
    }

    pub fn dev(&self) -> (d: &UsbDevice)
        ensures
            *d == self.dev,
    {
        &self.dev
    }
}

/// The part of a transfer that can fail.
#[derive(Copy, Clone, Debug, PartialEq, Eq, Structural)]
pub enum TransferStep {
    /// Taking the interface.
    Open,
    WriteControl,
    ReadInterrupt,
}

impl TransferStep {
    pub open spec fn spec_label(self) -> Seq<char> {
        match self {
            TransferStep::Open => "detaching USB device from kernel"@,
            TransferStep::WriteControl => "write_control"@,
            TransferStep::ReadInterrupt => "read_interrupt"@,
        }
    }

    /// The words under which a failure of this step is reported.
    pub fn label(self) -> (s: &'static str)
        ensures
            s@ == self.spec_label(),
    {
        match self {
            TransferStep::Open => "detaching USB device from kernel",
            TransferStep::WriteControl => "write_control",
            TransferStep::ReadInterrupt => "read_interrupt",
        }
    }
}

/// A failure of the USB layer and the part of the transfer in which it came.
#[derive(Copy, Clone, Debug, PartialEq, Eq, Structural)]
pub struct TransferFailure {
    pub step: TransferStep,
    pub code: UsbError,
}

/// Where the sending of a list of reports stands.
#[derive(Copy, Clone, Debug, PartialEq, Eq, Structural)]
pub enum TransferState {
    /// The interface is being taken.
    Opening,
    /// A report is being written.
    Writing,
    /// The acknowledgment of the report just written is being read.
    Reading,
    /// The interface is being given back.
    Closing,
    Finished,
}

/// What changes while a list of reports is sent.
#[derive(Copy, Clone, Debug, PartialEq, Eq, Structural)]
pub struct Progress {
    pub handle: DetachedHandle,
    /// The number of reports written and acknowledged.
    pub sent: usize,
    pub state: TransferState,
    /// The first failure of the USB layer, which ended the sending.
    pub failure: Option<TransferFailure>,
}

impl Progress {
    pub open spec fn initial(iface: u8) -> Progress {
        Progress {
            handle: DetachedHandle::initial(iface),
            sent: 0,
            state: TransferState::Opening,
            failure: None,
        }
    }

    /// Gives the interface back: nothing more is written.
    pub open spec fn closing(self) -> Progress {
        Progress { handle: self.handle.released(), state: TransferState::Closing, ..self }
    }

    /// The progress after the answer to the outstanding request, where
    /// `count` reports are to be sent in all.
    ///
    /// Reports go out in order, each written and then acknowledged. The first
    /// failure ends the sending; the interface is given back in every case in
    /// which it was taken.
    pub open spec fn after(self, reply: UsbReply, count: nat) -> Progress {
        match self.state {
            TransferState::Opening => {
                let handle = self.handle.after(reply);
                if handle.state == GuardState::Held {
                    if count > 0 {
                        Progress { handle, state: TransferState::Writing, ..self }
                    } else {
                        Progress { handle, ..self }.closing()
                    }
                } else if handle.state == GuardState::Closed {
                    Progress {
                        handle,
                        state: TransferState::Finished,
                        failure: match handle.failure {
                            Some(e) => Some(TransferFailure { step: TransferStep::Open, code: e }),
                            None => self.failure,
                        },
                        ..self
                    }
                } else {
                    Progress { handle, ..self }
                }
            },
            TransferState::Writing => match reply {
                UsbReply::Failed(e) => Progress {
                    failure: Some(TransferFailure { step: TransferStep::WriteControl, code: e }),
                    ..self
                }.closing(),
                _ => Progress { state: TransferState::Reading, ..self },
            },
            TransferState::Reading => match reply {
                UsbReply::Failed(e) => Progress {
                    failure: Some(TransferFailure { step: TransferStep::ReadInterrupt, code: e }),
                    ..self
                }.closing(),
                _ => {
                    let sent = if self.sent < count {
                        (self.sent + 1) as usize
                    } else {
                        self.sent
                    };
                    if sent < count {
                        Progress { sent, state: TransferState::Writing, ..self }
                    } else {
                        Progress { sent, ..self }.closing()
                    }
                },
            },
            TransferState::Closing => {
                let handle = self.handle.after(reply);
                if handle.state == GuardState::Closed {
                    Progress { handle, state: TransferState::Finished, ..self }
                } else {
                    Progress { handle, ..self }
                }
            },
            TransferState::Finished => self,
        }
    }

    /// The request that is outstanding.
    pub open spec fn pending(self, reports: Seq<[u8; 20]>) -> Option<UsbRequest> {
        match self.state {
            TransferState::Opening | TransferState::Closing => self.handle.pending(),
            TransferState::Writing => if self.sent < reports.len() {
                Some(
                    UsbRequest::WriteControl {
                        request_type: REQUEST_TYPE,
                        request: REQUEST,
                        value: VALUE,
                        index: INTERFACE as u16,
                        data: reports[self.sent as int],
                        timeout_secs: TRANSFER_TIMEOUT_SECS,
                    },
                )
            } else {
                None
            },
            TransferState::Reading => Some(
                UsbRequest::ReadInterrupt {
                    endpoint: ENDPOINT_ADDRESS,
                    length: REPORT_LEN,
                    timeout_secs: TRANSFER_TIMEOUT_SECS,
                },
            ),
            TransferState::Finished => None,
        }
    }
}

/// An interface of an open device and the reports that go through it.
#[derive(Clone, Debug, PartialEq, Eq)]
pub struct GInterface {
    pub progress: Progress,
    /// The reports to send, in order.
    pub reports: Vec<[u8; 20]>,
    /// Why the command's effect is not among the reports.
    pub rejection: Option<CommandError>,
}

impl GInterface {
    /// Whether this is the start of sending what a device is sent for a
    /// command with the given encoding.
    pub open spec fn carries(
        self,
        encoding: Result<Seq<Seq<u8>>, CommandErrorView>,
        reset: Seq<u8>,
    ) -> bool {
        &&& self.progress == Progress::initial(INTERFACE)
        &&& report_bytes(self.reports@) == reports_sent(encoding, reset)
        &&& match encoding {
            Ok(_) => self.rejection is None,
            Err(e) => self.rejection matches Some(r) && r@ == e,
        }
    }

    /// What the sending came to: the first USB failure under the label of
    /// its step; else the reason for which the command was refused; else
    /// success.
    pub open spec fn outcome(self) -> Result<(), CommandErrorView> {
        match self.progress.failure {
            Some(f) => Err(CommandErrorView::Usb(f.step.spec_label(), f.code)),
            None => match self.rejection {
                Some(e) => Err(e@),
                None => Ok(()),
            },
        }
    }

    /// The request to perform next; none when the sending is over.
    pub fn request(&self) -> (r: Option<UsbRequest>)
        ensures
            r == self.progress.pending(self.reports@),
    {
        match self.progress.state {
            TransferState::Opening | TransferState::Closing => self.progress.handle.request(),
            TransferState::Writing => if self.progress.sent < self.reports.len() {
                Some(
                    UsbRequest::WriteControl {
                        request_type: REQUEST_TYPE,
                        request: REQUEST,
                        value: VALUE,
                        index: INTERFACE as u16,
                        data: self.reports[self.progress.sent],
                        timeout_secs: TRANSFER_TIMEOUT_SECS,
                    },
                )
            } else {
                None
            },
            TransferState::Reading => Some(
                UsbRequest::ReadInterrupt {
                    endpoint: ENDPOINT_ADDRESS,
                    length: REPORT_LEN,
                    timeout_secs: TRANSFER_TIMEOUT_SECS,
                },
            ),
            TransferState::Finished => None,
        }
    }

    /// Takes the answer to the outstanding request.
    pub fn step(&mut self, reply: UsbReply)
        ensures
            final(self).progress == old(self).progress.after(reply, old(self).reports@.len()),
            final(self).reports == old(self).reports,
            final(self).rejection == old(self).rejection,
    {
        let count = self.reports.len();
        match self.progress.state {
            TransferState::Opening => {
                self.progress.handle.step(reply);
                if self.progress.handle.is_held() {
                    if count > 0 {
                        self.progress.state = TransferState::Writing;
                    } else {
                        self.close();
                    }
                } else if self.progress.handle.is_closed() {
                    self.progress.state = TransferState::Finished;
                    match self.progress.handle.failure {
                        Some(e) => {
                            self.progress.failure = Some(TransferFailure { step: TransferStep::Open, code: e });
                        },
                        None => {},
                    }
                }
            },
            TransferState::Writing => match reply {
                UsbReply::Failed(e) => {
                    self.progress.failure = Some(TransferFailure { step: TransferStep::WriteControl, code: e });
                    self.close();
                },
                _ => {
                    self.progress.state = TransferState::Reading;
                },
            },
            TransferState::Reading => match reply {
                UsbReply::Failed(e) => {
                    self.progress.failure = Some(TransferFailure { step: TransferStep::ReadInterrupt, code: e });
                    self.close();
                },
                _ => {
                    if self.progress.sent < count {
                        self.progress.sent = self.progress.sent + 1;
                    }
                    if self.progress.sent < count {
                        self.progress.state = TransferState::Writing;
                    } else {
                        self.close();
                    }
                },
            },
            TransferState::Closing => {
                self.progress.handle.step(reply);
                if self.progress.handle.is_closed() {
                    self.progress.state = TransferState::Finished;
                }
            },
            TransferState::Finished => {},
        }
    }

    fn close(&mut self)
        ensures
            final(self).progress == old(self).progress.closing(),
            final(self).reports == old(self).reports,
            final(self).rejection == old(self).rejection,
    {
        self.progress.handle.release();
        self.progress.state = TransferState::Closing;
    }

    /// Whether the sending is over.
    pub fn is_finished(&self) -> (r: bool)
        ensures
            r == (self.progress.state == TransferState::Finished),
    {
        match self.progress.state {
            TransferState::Finished => true,
            _ => false,
        }
    }

    /// What the sending came to.
    pub fn result(self) -> (r: CommandResult<()>)
        ensures
            match self.outcome() {
                Ok(u) => r is Ok,
                Err(e) => r is Err && r->Err_0@ == e,
            },
    {
        match self.progress.failure {
            Some(f) => Err(CommandError::usb(f.step.label(), f.code)),
            None => match self.rejection {
                Some(e) => Err(e),
                None => Ok(()),
            },
        }
    }
}

/// Full brightness is taken by every model, whether it can dim or not.
pub proof fn full_brightness_is_accepted(description: DeviceDescription)
    ensures
        description.brightness_for(Some(Brightness::of(MAX_BRIGHTNESS))) == Ok::<
            Brightness,
            CommandErrorView,
        >(Brightness::of(MAX_BRIGHTNESS)),
        description.brightness_for(None) == Ok::<Brightness, CommandErrorView>(
            Brightness::of(MAX_BRIGHTNESS),
        ),
{
    Brightness::value_of(MAX_BRIGHTNESS);
}

/// A speed is taken exactly when it lies between the model's minimum and
/// maximum, both included; one below the minimum is refused as too small.
pub proof fn speed_limits(description: DeviceDescription, speed: Speed)
    ensures
        description.speed_for(Some(speed)) is Ok <==> description.min_speed.0 <= speed.0
            <= description.max_speed.0,
        speed.0 < description.min_speed.0 ==> description.speed_for(Some(speed)) == Err::<
            Speed,
            CommandErrorView,
        >(
            CommandErrorView::InvalidArgument(
                "speed"@,
                limit_message(speed.0 as nat, " < "@, description.min_speed.0 as nat),
            ),
        ),
{
}

/// The sending of a list of reports together with the interface that it
/// acts on.
pub struct Sending {
    pub progress: Progress,
    pub interface: InterfaceState,
    /// Whether every reply so far fitted and nothing was given back badly.
    pub sound: bool,
    /// The reports that were written without failure, in the order in which
    /// they were written.
    pub written: Seq<[u8; 20]>,
}

/// A sending after the answer to its outstanding request.
pub open spec fn sent_on(sending: Sending, reply: UsbReply, reports: Seq<[u8; 20]>) -> Sending {
    match sending.progress.pending(reports) {
        Some(request) => Sending {
            progress: sending.progress.after(reply, reports.len()),
            interface: performed(sending.interface, request, reply),
            sound: sending.sound && fits(sending.interface, request, reply) && !gave_back_badly(
                request,
                reply,
            ),
            written: match request {
                UsbRequest::WriteControl { data, .. } => if reply is Failed {
                    sending.written
                } else {
                    sending.written.push(data)
                },
                _ => sending.written,
            },
        },
        None => sending,
    }
}

/// The sending of a list of reports from its start through a sequence of
/// answers.
pub open spec fn sending_of(
    reports: Seq<[u8; 20]>,
    interface: InterfaceState,
    replies: Seq<UsbReply>,
) -> Sending
    decreases replies.len(),
{
    if replies.len() == 0 {
        Sending {
            progress: Progress::initial(INTERFACE),
            interface,
            sound: true,
            written: Seq::empty(),
        }
    } else {
        sent_on(sending_of(reports, interface, replies.drop_last()), replies.last(), reports)
    }
}

/// What holds of a sending at every step.
pub open spec fn on_course(sending: Sending, reports: Seq<[u8; 20]>, start: InterfaceState) -> bool {
    let progress = sending.progress;
    let handle = progress.handle;
    let written = sending.written;
    let complete = progress.failure is None ==> progress.sent == reports.len() && written.len()
        == reports.len();
    &&& written.len() <= reports.len()
    &&& written == reports.take(written.len() as int)
    &&& sending.sound ==> balanced(
        Run { handle, interface: sending.interface, sound: true },
        start,
    )
    &&& match progress.state {
        TransferState::Opening => progress.sent == 0 && written.len() == 0 && progress.failure
            is None && (handle.state == GuardState::Querying || handle.state
            == GuardState::Detaching || handle.state == GuardState::Claiming || (handle.state
            == GuardState::Reattaching && handle.failure is Some)),
        TransferState::Writing => handle.state == GuardState::Held && progress.sent
            < reports.len() && written.len() == progress.sent && progress.failure is None,
        TransferState::Reading => handle.state == GuardState::Held && progress.sent
            < reports.len() && written.len() == progress.sent + 1 && progress.failure is None,
        TransferState::Closing => (handle.state == GuardState::Releasing || handle.state
            == GuardState::Reattaching) && complete,
        TransferState::Finished => handle.state == GuardState::Closed && complete,
    }
}

/// Whatever the USB layer answers while a list of reports is sent:
/// the reports go out in order and none twice; a sending that ends without
/// failure has written them all; and once it has ended, the interface is as
/// it was before, provided the USB layer says truly whether a kernel driver
/// is bound and does not fail to give back.
pub proof fn sending_keeps_its_course(
    reports: Seq<[u8; 20]>,
    start: InterfaceState,
    replies: Seq<UsbReply>,
)
    requires
        !start.claimed,
        reports.len() <= usize::MAX,
    ensures
        on_course(sending_of(reports, start, replies), reports, start),
        sending_of(reports, start, replies).written == reports.take(
            sending_of(reports, start, replies).written.len() as int,
        ),
        sending_of(reports, start, replies).progress.state == TransferState::Finished
            && sending_of(reports, start, replies).progress.failure is None ==> sending_of(
            reports,
            start,
            replies,
        ).written == reports,
        sending_of(reports, start, replies).progress.state == TransferState::Finished
            && sending_of(reports, start, replies).sound ==> sending_of(
            reports,
            start,
            replies,
        ).interface == start,
    decreases replies.len(),
{
    if replies.len() > 0 {
        let before = sending_of(reports, start, replies.drop_last());
        let after = sending_of(reports, start, replies);
        sending_keeps_its_course(reports, start, replies.drop_last());
        match before.progress.pending(reports) {
            Some(request) => {
                match request {
                    UsbRequest::WriteControl { data, .. } => {
                        if !(replies.last() is Failed) {
                            assert(after.written =~= reports.take(after.written.len() as int));
                        }
                    },
                    _ => {},
                }
            },
            None => {},
        }
        assert(on_course(after, reports, start));
    } else {
        assert(Seq::<[u8; 20]>::empty() =~= reports.take(0));
    }
    let last = sending_of(reports, start, replies);
    if last.progress.state == TransferState::Finished && last.progress.failure is None {
        assert(last.written =~= reports);
    }
}

} // verus!
