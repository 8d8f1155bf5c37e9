use vstd::prelude::*;

use crate::error::Error;
use crate::syscalls::{CallbackMessage, Syscall};
use crate::task::{DriverTask, DriverTaskClient};

verus! {

/// The alarm's entry in the kernel's driver table.
pub const DRIVER_NUM: usize = 0;

/// Identifier of the alarm upcall.
pub const SUBSCRIBE_CALLBACK: usize = 0;

/// Command that tells whether an alarm is present.
pub const COMMAND_PRESENT: usize = 0;

/// Command that gives the clock frequency in hertz.
pub const COMMAND_CLOCK_FREQUENCY: usize = 1;

/// Command that gives the current tick.
pub const COMMAND_TICK: usize = 2;

/// Command that disarms the alarm set for a tick.
pub const COMMAND_STOP: usize = 3;

/// Command that arms the alarm for a tick.
pub const COMMAND_START: usize = 4;

/// What an alarm event reports: the tick at which it fired and the tick it
/// was set for.
#[derive(Clone, Copy, Debug, PartialEq, Eq, Structural)]
pub struct AlarmEventData {
    pub now: usize,
    pub expiration: usize,
}

impl AlarmEventData {
    pub fn new(now: usize, expiration: usize) -> (r: AlarmEventData)
        ensures
            r == (AlarmEventData { now, expiration }),
    {
        AlarmEventData { now, expiration }
    }

    pub fn get_now(&self) -> (r: usize)
        ensures
            r == self.now,
    {
        self.now
    }

    pub fn get_expiration(&self) -> (r: usize)
        ensures
            r == self.expiration,
    {
        self.expiration
    }
}

/// An alarm event, as the application sees it.
#[derive(Clone, Copy, Debug, PartialEq, Eq, Structural)]
pub enum AlarmClientMessage {
    Event(AlarmEventData),
}

/// The client message that a raw alarm event becomes: its first word is the
/// current tick, its second the tick the alarm was set for.
pub open spec fn alarm_message(ev: CallbackMessage) -> AlarmClientMessage {
    AlarmClientMessage::Event(AlarmEventData { now: ev.arg0, expiration: ev.arg1 })
}

/// Ticks in `ms` milliseconds at `frequency` hertz, whole seconds first.
pub open spec fn ms_to_tic(ms: usize, frequency: usize) -> int {
    (ms / 1000) as int * frequency as int + (ms % 1000) as int * (frequency / 1000) as int
}

/// The kernel call that issues alarm command `num` with argument `arg0`.
pub open spec fn alarm_command(num: usize, arg0: usize) -> Syscall {
    Syscall::Command { driver: DRIVER_NUM, num, arg0, arg1: 0 }
}

/// The task half of the alarm: its raw mailbox.
pub struct Alarm {
    mailbox: Option<CallbackMessage>,
}

impl View for Alarm {
    type V = Option<CallbackMessage>;

    closed spec fn view(&self) -> Option<CallbackMessage> {
        self.mailbox
    }
}

impl Alarm {
    pub fn new() -> (r: Alarm)
        ensures
            r@ is None,
    {
        Alarm { mailbox: None }
    }

    /// Interrupt side: stores a raw event, replacing one not yet drained.
    pub fn deliver(&mut self, ev: CallbackMessage)
        ensures
            final(self)@ == Some(ev),
    {
        self.mailbox = Some(ev);
    }

    /// Task half: drains the mailbox; an event found there becomes the
    /// client's message.
    pub fn advance(&mut self, client: &mut AlarmClient)
        ensures
            final(self)@ is None,
            match old(self)@ {
                None => final(client)@ == old(client)@,
                Some(ev) => final(client)@ == Some(alarm_message(ev)),
            },
    {
        if let Some(ev) = self.mailbox.take() {
            client.message = Some(
                AlarmClientMessage::Event(AlarmEventData::new(ev.get_arg0(), ev.get_arg1())),
            );
        }
    }

    /// The kernel call that routes alarm events to this driver.
    pub fn initiate(&self) -> (r: Syscall)
        ensures
            r == (Syscall::Subscribe { driver: DRIVER_NUM, num: SUBSCRIBE_CALLBACK }),
    {
        Syscall::Subscribe { driver: DRIVER_NUM, num: SUBSCRIBE_CALLBACK }
    }

    /// Converts milliseconds to ticks of a clock running at `frequency` hertz.
    pub fn millisecond_to_tic(&self, ms: usize, frequency: usize) -> (r: usize)
        requires
            ms_to_tic(ms, frequency) <= usize::MAX,
        ensures
            r == ms_to_tic(ms, frequency),
    {
        let secs = ms / 1000;
        let rest = ms % 1000;
        let per_ms = frequency / 1000;
        assert(secs as int * frequency as int >= 0) by (nonlinear_arith);
        assert(rest as int * per_ms as int >= 0) by (nonlinear_arith);
        secs * frequency + rest * per_ms
    }

    /// The kernel call that asks whether an alarm is present.
    pub fn is_present(&self) -> (r: Syscall)
        ensures
            r == alarm_command(COMMAND_PRESENT, 0),
    {
        Syscall::Command { driver: DRIVER_NUM, num: COMMAND_PRESENT, arg0: 0, arg1: 0 }
    }

    /// The kernel call that gives the clock frequency.
    pub fn get_clock_frequency(&self) -> (r: Syscall)
        ensures
            r == alarm_command(COMMAND_CLOCK_FREQUENCY, 0),
    {
        Syscall::Command { driver: DRIVER_NUM, num: COMMAND_CLOCK_FREQUENCY, arg0: 0, arg1: 0 }
    }

    /// The kernel call that gives the current tick.
    pub fn get_tic(&self) -> (r: Syscall)
        ensures
            r == alarm_command(COMMAND_TICK, 0),
    {
        Syscall::Command { driver: DRIVER_NUM, num: COMMAND_TICK, arg0: 0, arg1: 0 }
    }

    /// The kernel call that disarms the alarm set for `tic`.
    pub fn stop(&self, tic: usize) -> (r: Syscall)
        ensures
            r == alarm_command(COMMAND_STOP, tic),
    {
        Syscall::Command { driver: DRIVER_NUM, num: COMMAND_STOP, arg0: tic, arg1: 0 }
    }

    /// The kernel call that arms the alarm for `tic`.
    pub fn start(&self, tic: usize) -> (r: Syscall)
        ensures
            r == alarm_command(COMMAND_START, tic),
    {
        Syscall::Command { driver: DRIVER_NUM, num: COMMAND_START, arg0: tic, arg1: 0 }
    }
}

impl DriverTask for Alarm {
    open spec fn spec_has_message(&self) -> bool {
        self@ is Some
    }

    fn has_message(&self) -> (r: bool) {
        self.mailbox.is_some()
    }
}

/// The client half of the alarm: the slot for the last alarm event.
pub struct AlarmClient {
    message: Option<AlarmClientMessage>,
}

impl View for AlarmClient {
    type V = Option<AlarmClientMessage>;

    closed spec fn view(&self) -> Option<AlarmClientMessage> {
        self.message
    }
}

impl AlarmClient {
    pub fn new() -> (r: AlarmClient)
        ensures
            r@ is None,
    {
        AlarmClient { message: None }
    }

    /// Consumes the last alarm event. With none held it fails with
    /// `NotFound` and changes nothing.
    pub fn reap_get_data(&mut self) -> (r: Result<AlarmEventData, Error>)
        ensures
            final(self)@ is None,
            match old(self)@ {
                None => r == Err::<AlarmEventData, Error>(Error::NotFound),
                Some(AlarmClientMessage::Event(d)) => r == Ok::<AlarmEventData, Error>(d),
            },
    {
        match self.message.take() {
            None => Err(Error::NotFound),
            Some(AlarmClientMessage::Event(d)) => Ok(d),
        }
    }
}

impl DriverTaskClient for AlarmClient {
    open spec fn spec_has_message(&self) -> bool {
        self@ is Some
    }

    closed spec fn spec_reaped(&self) -> AlarmClient {
        AlarmClient { message: None }
    }

    fn has_message(&self) -> (r: bool) {
        self.message.is_some()
    }

    fn reap_message(&mut self) {
        self.message = None;
    }
}

} // verus!
