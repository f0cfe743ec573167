//! Exclusive use of a USB interface, taken and given back in steps.
//!
//! The library decides and the caller performs: a value here names the
//! request that is outstanding, the caller hands that request to the USB
//! layer and reports what came back, and the value moves on.

use vstd::prelude::*;
use vstd::array::*;
use crate::error::UsbError;

verus! {

/// One request to the USB layer, for one open device.
#[derive(Copy, Clone, Debug, PartialEq, Eq)]
pub enum UsbRequest {
    /// Ask whether a kernel driver is bound to the interface.
    KernelDriverActive { iface: u8 },
    DetachKernelDriver { iface: u8 },
    ClaimInterface { iface: u8 },
    ReleaseInterface { iface: u8 },
    AttachKernelDriver { iface: u8 },
    /// Send a report in a control transfer.
    WriteControl {
        request_type: u8,
        request: u8,
        value: u16,
        index: u16,
        data: [u8; 20],
        timeout_secs: u64,
    },
    /// Read up to `length` bytes from an interrupt endpoint and drop them.
    ReadInterrupt { endpoint: u8, length: usize, timeout_secs: u64 },
}

/// What the USB layer answered to a request.
///
/// Only the question after the kernel driver has an answer of its own. Where
/// that question is answered with `Done`, no kernel driver is taken to be
/// bound; any other request takes every answer but `Failed` as `Done`.
#[derive(Copy, Clone, Debug, PartialEq, Eq, Structural)]
pub enum UsbReply {
    /// The request was carried out.
    Done,
    /// The answer to `KernelDriverActive`.
    KernelDriver(bool),
    Failed(UsbError),
}

/// How far taking or giving back an interface has come.
#[derive(Copy, Clone, Debug, PartialEq, Eq, Structural)]
pub enum GuardState {
    /// Asked whether a kernel driver is bound.
    Querying,
    /// Asked to detach the kernel driver.
    Detaching,
    /// Asked to claim the interface.
    Claiming,
    /// The interface is claimed and can be used.
    Held,
    /// Asked to release the interface.
    Releasing,
    /// Asked to bind the kernel driver again.
    Reattaching,
    /// Nothing is held and nothing is outstanding.
    Closed,
}

/// Handle with detached kernel and claimed interface
#[derive(Copy, Clone, Debug, PartialEq, Eq, Structural)]
pub struct DetachedHandle {
    pub iface: u8,
    /// Whether a kernel driver was bound and has been detached.
    pub was_attached: bool,
    pub state: GuardState,
    /// Why the interface could not be taken.
    pub failure: Option<UsbError>,
}

impl DetachedHandle {
    /// The handle before anything was asked: the first request is the query.
    pub open spec fn initial(iface: u8) -> DetachedHandle {
        DetachedHandle { iface, was_attached: false, state: GuardState::Querying, failure: None }
    }

    /// The request that is outstanding.
    pub open spec fn pending(self) -> Option<UsbRequest> {
        match self.state {
            GuardState::Querying => Some(UsbRequest::KernelDriverActive { iface: self.iface }),
            GuardState::Detaching => Some(UsbRequest::DetachKernelDriver { iface: self.iface }),
            GuardState::Claiming => Some(UsbRequest::ClaimInterface { iface: self.iface }),
            GuardState::Releasing => Some(UsbRequest::ReleaseInterface { iface: self.iface }),
            GuardState::Reattaching => Some(UsbRequest::AttachKernelDriver { iface: self.iface }),
            GuardState::Held | GuardState::Closed => None,
        }
    }

    /// The state after giving back what is held: closed, or on the way to
    /// binding the kernel driver again where one was detached.
    pub open spec fn restoring(self) -> DetachedHandle {
        if self.was_attached {
            DetachedHandle { state: GuardState::Reattaching, ..self }
        } else {
            DetachedHandle { state: GuardState::Closed, ..self }
        }
    }

    /// The handle after the answer to the outstanding request.
    ///
    /// A failure while taking the interface ends the attempt, after binding
    /// the kernel driver again if it had been detached. A failure while giving
    /// back is passed over: what is left to give back is still given back.
    pub open spec fn after(self, reply: UsbReply) -> DetachedHandle {
        match self.state {
            GuardState::Querying => match reply {
                UsbReply::Failed(e) => DetachedHandle {
                    state: GuardState::Closed,
                    failure: Some(e),
                    ..self
                },
                UsbReply::KernelDriver(true) => DetachedHandle {
                    state: GuardState::Detaching,
                    ..self
                },
                _ => DetachedHandle { state: GuardState::Claiming, ..self },
            },
            GuardState::Detaching => match reply {
                UsbReply::Failed(e) => DetachedHandle {
                    state: GuardState::Closed,
                    failure: Some(e),
                    ..self
                },
                _ => DetachedHandle { state: GuardState::Claiming, was_attached: true, ..self },
            },
            GuardState::Claiming => match reply {
                UsbReply::Failed(e) => DetachedHandle { failure: Some(e), ..self }.restoring(),
                _ => DetachedHandle { state: GuardState::Held, ..self },
            },
            GuardState::Releasing => self.restoring(),
            GuardState::Reattaching => DetachedHandle { state: GuardState::Closed, ..self },
            GuardState::Held | GuardState::Closed => self,
        }
    }

    /// The handle after the holder is done with the interface.
    pub open spec fn released(self) -> DetachedHandle {
        if self.state == GuardState::Held {
            DetachedHandle { state: GuardState::Releasing, ..self }
        } else {
            self
        }
    }

    /// Starts to take the interface.
    pub fn new(iface: u8) -> (handle: DetachedHandle)
        ensures
            handle == Self::initial(iface),
    {
        DetachedHandle { iface, was_attached: false, state: GuardState::Querying, failure: None }
    }

    /// The request to perform next, if there is one.
    pub fn request(&self) -> (r: Option<UsbRequest>)
        ensures
            r == self.pending(),
    {
        match self.state {
            GuardState::Querying => Some(UsbRequest::KernelDriverActive { iface: self.iface }),
            GuardState::Detaching => Some(UsbRequest::DetachKernelDriver { iface: self.iface }),
            GuardState::Claiming => Some(UsbRequest::ClaimInterface { iface: self.iface }),
            GuardState::Releasing => Some(UsbRequest::ReleaseInterface { iface: self.iface }),
            GuardState::Reattaching => Some(UsbRequest::AttachKernelDriver { iface: self.iface }),
            GuardState::Held | GuardState::Closed => None,
        }
    }

    /// Takes the answer to the outstanding request.
    pub fn step(&mut self, reply: UsbReply)
        ensures
            *final(self) == old(self).after(reply),
    {
        match self.state {
            GuardState::Querying => match reply {
                UsbReply::Failed(e) => {
                    self.state = GuardState::Closed;
                    self.failure = Some(e);
                },
                UsbReply::KernelDriver(true) => {
                    self.state = GuardState::Detaching;
                },
                _ => {
                    self.state = GuardState::Claiming;
                },
            },
            GuardState::Detaching => match reply {
                UsbReply::Failed(e) => {
                    self.state = GuardState::Closed;
                    self.failure = Some(e);
                },
                _ => {
                    self.state = GuardState::Claiming;
                    self.was_attached = true;
                },
            },
            GuardState::Claiming => match reply {
                UsbReply::Failed(e) => {
                    self.failure = Some(e);
                    self.restore();
                },
                _ => {
                    self.state = GuardState::Held;
                },
            },
            GuardState::Releasing => {
                self.restore();
            },
            GuardState::Reattaching => {
                self.state = GuardState::Closed;
            },
            GuardState::Held | GuardState::Closed => {},
        }
    }

    fn restore(&mut self)
        ensures
            *final(self) == old(self).restoring(),
    {
        if self.was_attached {
            self.state = GuardState::Reattaching;
        } else {
            self.state = GuardState::Closed;
        }
    }

    /// Ends the use of the interface: what was taken is given back, step by
    /// step, whatever happened while it was held.
    pub fn release(&mut self)
        ensures
            *final(self) == old(self).released(),
    {
        if self.is_held() {
            self.state = GuardState::Releasing;
        }
    }

    /// Whether the interface is claimed and free to use.
    pub fn is_held(&self) -> (r: bool)
        ensures
            r == (self.state == GuardState::Held),
    {
        match self.state {
            GuardState::Held => true,
            _ => false,
        }
    }

    /// Whether nothing is held and nothing is left to do.
    pub fn is_closed(&self) -> (r: bool)
        ensures
            r == (self.state == GuardState::Closed),
    {
        match self.state {
            GuardState::Closed => true,
            _ => false,
        }
    }
}

/// What the USB layer holds for one interface of a device.
pub struct InterfaceState {
    /// Whether a kernel driver is bound to the interface.
    pub kernel_driver: bool,
    /// Whether the interface is claimed.
    pub claimed: bool,
}

/// The interface after a request was answered. A request that failed leaves
/// the interface as it was.
pub open spec fn performed(
    interface: InterfaceState,
    request: UsbRequest,
    reply: UsbReply,
) -> InterfaceState {
    if reply is Failed {
        interface
    } else {
        match request {
            UsbRequest::DetachKernelDriver { .. } => InterfaceState {
                kernel_driver: false,
                ..interface
            },
            UsbRequest::AttachKernelDriver { .. } => InterfaceState {
                kernel_driver: true,
                ..interface
            },
            UsbRequest::ClaimInterface { .. } => InterfaceState { claimed: true, ..interface },
            UsbRequest::ReleaseInterface { .. } => InterfaceState { claimed: false, ..interface },
            _ => interface,
        }
    }
}

/// Whether a reply fits the request and the interface: the question after
/// the kernel driver is answered, and answered as it is.
pub open spec fn fits(interface: InterfaceState, request: UsbRequest, reply: UsbReply) -> bool {
    request is KernelDriverActive ==> reply is Failed || reply == UsbReply::KernelDriver(
        interface.kernel_driver,
    )
}

/// Whether giving back went wrong: a release or a new binding of the kernel
/// driver that failed.
pub open spec fn gave_back_badly(request: UsbRequest, reply: UsbReply) -> bool {
    reply is Failed && (request is ReleaseInterface || request is AttachKernelDriver)
}

/// One thing that happens to a handle: the answer to its outstanding
/// request, or the end of its use by the holder.
pub enum Move {
    Reply(UsbReply),
    Release,
}

/// A handle together with the interface that it acts on.
pub struct Run {
    pub handle: DetachedHandle,
    pub interface: InterfaceState,
    /// Whether every reply so far fitted and nothing was given back badly.
    pub sound: bool,
}

/// A run after one more move.
pub open spec fn moved(run: Run, m: Move) -> Run {
    match m {
        Move::Release => Run { handle: run.handle.released(), ..run },
        Move::Reply(reply) => match run.handle.pending() {
            Some(request) => Run {
                handle: run.handle.after(reply),
                interface: performed(run.interface, request, reply),
                sound: run.sound && fits(run.interface, request, reply) && !gave_back_badly(
                    request,
                    reply,
                ),
            },
            None => run,
        },
    }
}

/// The run of a fresh handle through a sequence of moves.
pub open spec fn run_of(iface: u8, interface: InterfaceState, moves: Seq<Move>) -> Run
    decreases moves.len(),
{
    if moves.len() == 0 {
        Run { handle: DetachedHandle::initial(iface), interface, sound: true }
    } else {
        moved(run_of(iface, interface, moves.drop_last()), moves.last())
    }
}

/// How the interface stands to what it was at the start, state by state.
pub open spec fn balanced(run: Run, start: InterfaceState) -> bool {
    let handle = run.handle;
    let now = run.interface;
    let detached = handle.was_attached && start.kernel_driver && !now.kernel_driver;
    let untouched = !handle.was_attached && now.kernel_driver == start.kernel_driver;
    match handle.state {
        GuardState::Querying => now == start && !handle.was_attached,
        GuardState::Detaching => now == start && !handle.was_attached && start.kernel_driver,
        GuardState::Claiming => !now.claimed && (detached || untouched),
        GuardState::Held | GuardState::Releasing => now.claimed && (detached || untouched),
        GuardState::Reattaching => !now.claimed && detached,
        GuardState::Closed => now == start,
    }
}

/// Whatever happens while an interface is taken, used and given back: once
/// the handle is closed, the interface is as it was before, with its kernel
/// driver bound again if it had one and with no claim left on it. This
/// holds of every sequence of answers in which the USB layer says truly
/// whether a kernel driver is bound and does not fail to give back.
pub proof fn closed_handle_leaves_no_trace(iface: u8, start: InterfaceState, moves: Seq<Move>)
    requires
        !start.claimed,
    ensures
        run_of(iface, start, moves).sound ==> balanced(run_of(iface, start, moves), start),
        run_of(iface, start, moves).sound && run_of(iface, start, moves).handle.state
            == GuardState::Closed ==> run_of(iface, start, moves).interface == start,
    decreases moves.len(),
{
    if moves.len() > 0 {
        closed_handle_leaves_no_trace(iface, start, moves.drop_last());
    }
}

} // verus!
