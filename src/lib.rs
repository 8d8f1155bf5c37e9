use vstd::prelude::*;

pub mod alarm;
pub mod button;
pub mod console_read;
pub mod console_write;
pub mod error;
pub mod syscalls;
pub mod task;

use crate::alarm::{Alarm, AlarmClient};
use crate::button::{Button, ButtonClient};
use crate::console_read::{ConsoleRead, ConsoleReadClient};
use crate::console_write::{ConsoleWrite, ConsoleWriteClient};
use crate::task::{DriverTask, DriverTaskClient};

verus! {

/// Every driver of the process, task and client halves, owned in one place
/// by the scheduler.
pub struct Drivers {
    pub alarm: Alarm,
    pub alarm_client: AlarmClient,
    pub button: Button,
    pub button_client: ButtonClient,
    pub console_read: ConsoleRead,
    pub console_read_client: ConsoleReadClient,
    pub console_write: ConsoleWrite,
    pub console_write_client: ConsoleWriteClient,
}

impl Drivers {
    pub open spec fn wf(&self) -> bool {
        &&& self.console_read.wf()
        &&& self.console_read_client.wf()
        &&& self.console_write.wf()
    }

    /// Whether any driver's mailbox holds a raw event.
    pub open spec fn spec_has_callback_messages(&self) -> bool {
        self.alarm.spec_has_message() || self.button.spec_has_message()
            || self.console_read.spec_has_message() || self.console_write.spec_has_message()
    }

    /// Whether any client holds an unread message.
    pub open spec fn spec_has_client_messages(&self) -> bool {
        self.alarm_client.spec_has_message() || self.button_client.spec_has_message()
            || self.console_read_client.spec_has_message()
            || self.console_write_client.spec_has_message()
    }

    /// All drivers idle, with empty mailboxes and clients.
    pub fn new() -> (r: Drivers)
        ensures
            r.wf(),
            !r.spec_has_callback_messages(),
            !r.spec_has_client_messages(),
            r.console_read@.state is None,
            r.console_write@.state is None,
    {
        Drivers {
            alarm: Alarm::new(),
            alarm_client: AlarmClient::new(),
            button: Button::new(),
            button_client: ButtonClient::new(),
            console_read: ConsoleRead::new(),
            console_read_client: ConsoleReadClient::new(),
            console_write: ConsoleWrite::new(),
            console_write_client: ConsoleWriteClient::new(),
        }
    }

    /// One scheduler tick: runs the task half of every driver whose mailbox
    /// holds an event, so that no event is left behind, and tells whether the
    /// application has a client message to act on.
    pub fn tick(&mut self) -> (r: bool)
        requires
            old(self).wf(),
        ensures
            final(self).wf(),
            !final(self).spec_has_callback_messages(),
            r == final(self).spec_has_client_messages(),
            old(self).alarm@ is None ==> final(self).alarm_client@ == old(self).alarm_client@,
            old(self).alarm@ matches Some(ev) ==> final(self).alarm_client@ == Some(
                crate::alarm::alarm_message(ev),
            ),
            old(self).button@ is None ==> final(self).button_client@ == old(self).button_client@,
            old(self).button@ matches Some(ev) ==> final(self).button_client@
                == crate::button::button_event(old(self).button_client@, ev),
            old(self).console_read@.mailbox is None ==> final(self).console_read@ == old(
                self,
            ).console_read@ && final(self).console_read_client@ == old(self).console_read_client@,
            old(self).console_read@.mailbox matches Some(ev) ==> (
                final(self).console_read@.state,
                final(self).console_read_client@,
            ) == crate::console_read::read_event(
                old(self).console_read@.state,
                old(self).console_read_client@,
                ev,
            ),
            final(self).console_read@.buf == old(self).console_read@.buf,
            old(self).console_write@.mailbox is None ==> final(self).console_write@ == old(
                self,
            ).console_write@ && final(self).console_write_client@
                == old(self).console_write_client@,
            old(self).console_write@.mailbox matches Some(ev) ==> (
                final(self).console_write@.state,
                final(self).console_write_client@,
            ) == crate::console_write::write_event(
                old(self).console_write@.state,
                old(self).console_write_client@,
                ev,
            ),
            final(self).console_write@.buf == old(self).console_write@.buf,
    {
        if self.alarm.has_message() {
            self.alarm.advance(&mut self.alarm_client);
        }
        if self.button.has_message() {
            self.button.advance(&mut self.button_client);
        }
        if self.console_read.has_message() {
            self.console_read.advance(&mut self.console_read_client);
        }
        if self.console_write.has_message() {
            self.console_write.advance(&mut self.console_write_client);
        }
        has_client_messages(self)
    }
}

/// Drops every unread client message; the driver halves are left as they
/// were.
pub fn reap_client_messages(d: &mut Drivers)
    ensures
        !final(d).spec_has_client_messages(),
        final(d).alarm@ == old(d).alarm@,
        final(d).button@ == old(d).button@,
        final(d).console_read@ == old(d).console_read@,
        final(d).console_write@ == old(d).console_write@,
        old(d).wf() ==> final(d).wf(),
{
    d.alarm_client.reap_message();
    d.button_client.reap_message();
    d.console_read_client.reap_message();
    d.console_write_client.reap_message();
}

/// Whether any client holds an unread message.
pub fn has_client_messages(d: &Drivers) -> (r: bool)
    ensures
        r == d.spec_has_client_messages(),
{
    d.alarm_client.has_message() || d.button_client.has_message()
        || d.console_read_client.has_message() || d.console_write_client.has_message()
}

/// Whether any driver's mailbox holds a raw event; when none does, the
/// process may block until the next interrupt.
pub fn has_callback_messages(d: &Drivers) -> (r: bool)
    ensures
        r == d.spec_has_callback_messages(),
{
    d.alarm.has_message() || d.button.has_message() || d.console_read.has_message()
        || d.console_write.has_message()
}

} // verus!
