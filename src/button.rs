use vstd::prelude::*;

use crate::error::Error;
use crate::syscalls::{CallbackMessage, Syscall};
use crate::task::{DriverTask, DriverTaskClient};

verus! {

/// The button's entry in the kernel's driver table.
pub const DRIVER_NUM: usize = 3;

/// Identifier of the button upcall.
pub const SUBSCRIBE_CALLBACK: usize = 0;

/// Command that gives the number of buttons.
pub const COMMAND_NUM_BUTTONS: usize = 0;

/// Command that enables a button's interrupt.
pub const COMMAND_ENABLE_INTERRUPT: usize = 1;

/// Command that disables a button's interrupt.
pub const COMMAND_DISABLE_INTERRUPT: usize = 2;

/// Command that reads a button's current level.
pub const COMMAND_CURRENT_STATE: usize = 2;

/// The level of a button.
#[derive(Clone, Copy, Debug, PartialEq, Eq, Structural)]
pub enum ButtonState {
    NotPressed,
    Pressed,
}

/// What a button event reports: which button, and its new level.
#[derive(Clone, Copy, Debug, PartialEq, Eq, Structural)]
pub struct ButtonEventData {
    pub state: ButtonState,
    pub num: usize,
}

impl ButtonEventData {
    pub fn new(num: usize, state: ButtonState) -> (r: ButtonEventData)
        ensures
            r == (ButtonEventData { state, num }),
    {
        ButtonEventData { num, state }
    }

    pub fn get_num(&self) -> (r: usize)
        ensures
            r == self.num,
    {
        self.num
    }

    pub fn get_state(&self) -> (r: ButtonState)
        ensures
            r == self.state,
    {
        self.state
    }
}

/// A button event, as the application sees it.
#[derive(Clone, Copy, Debug, PartialEq, Eq, Structural)]
pub enum ButtonClientMessage {
    Event(ButtonEventData),
}

/// A level word of the kernel: zero is released, anything else pressed.
pub open spec fn state_of(word: usize) -> ButtonState {
    if word == 0 {
        ButtonState::NotPressed
    } else {
        ButtonState::Pressed
    }
}

/// The client message that a raw button event becomes: its first word is the
/// button's number, its second the new level.
pub open spec fn button_message(ev: CallbackMessage) -> ButtonClientMessage {
    ButtonClientMessage::Event(ButtonEventData { state: state_of(ev.arg1), num: ev.arg0 })
}

/// The kernel call that issues button command `num` with argument `arg0`.
pub open spec fn button_command(num: usize, arg0: usize) -> Syscall {
    Syscall::Command { driver: DRIVER_NUM, num, arg0, arg1: 0 }
}

/// The client slots after a raw button event: a release goes to the
/// released slot, a press to the pressed slot, and the other slot is kept.
pub open spec fn button_event(c: ButtonClientView, ev: CallbackMessage) -> ButtonClientView {
    if ev.arg1 == 0 {
        ButtonClientView { not_pressed: Some(button_message(ev)), ..c }
    } else {
        ButtonClientView { pressed: Some(button_message(ev)), ..c }
    }
}

/// The task half of the button driver: its raw mailbox.
pub struct Button {
    mailbox: Option<CallbackMessage>,
}

impl View for Button {
    type V = Option<CallbackMessage>;

    closed spec fn view(&self) -> Option<CallbackMessage> {
        self.mailbox
    }
}

impl Button {
    pub fn new() -> (r: Button)
        ensures
            r@ is None,
    {
        Button { mailbox: None }
    }

    /// Interrupt side: stores a raw event, replacing one not yet drained.
    pub fn deliver(&mut self, ev: CallbackMessage)
        ensures
            final(self)@ == Some(ev),
    {
        self.mailbox = Some(ev);
    }

    /// Task half: drains the mailbox; an event found there goes to the
    /// pressed or the released slot by its level, and the other slot is left
    /// as it was.
    pub fn advance(&mut self, client: &mut ButtonClient)
        ensures
            final(self)@ is None,
            match old(self)@ {
                None => final(client)@ == old(client)@,
                Some(ev) => final(client)@ == button_event(old(client)@, ev),
            },
    {
        if let Some(ev) = self.mailbox.take() {
            let num = ev.get_arg0();
            if ev.get_arg1() == 0 {
                client.not_pressed = Some(
                    ButtonClientMessage::Event(ButtonEventData::new(num, ButtonState::NotPressed)),
                );
            } else {
                client.pressed = Some(
                    ButtonClientMessage::Event(ButtonEventData::new(num, ButtonState::Pressed)),
                );
            }
        }
    }

    /// The kernel call that routes button events to this driver.
    pub fn initiate(&self) -> (r: Syscall)
        ensures
            r == (Syscall::Subscribe { driver: DRIVER_NUM, num: SUBSCRIBE_CALLBACK }),
    {
        Syscall::Subscribe { driver: DRIVER_NUM, num: SUBSCRIBE_CALLBACK }
    }

    /// The kernel call that gives the number of buttons.
    pub fn get_num_buttons(&self) -> (r: Syscall)
        ensures
            r == button_command(COMMAND_NUM_BUTTONS, 0),
    {
        Syscall::Command { driver: DRIVER_NUM, num: COMMAND_NUM_BUTTONS, arg0: 0, arg1: 0 }
    }

    /// The kernel call that enables the interrupt of button `button_num`.
    pub fn enable_button_interrupt(&self, button_num: usize) -> (r: Syscall)
        ensures
            r == button_command(COMMAND_ENABLE_INTERRUPT, button_num),
    {
        Syscall::Command {
            driver: DRIVER_NUM,
            num: COMMAND_ENABLE_INTERRUPT,
            arg0: button_num,
            arg1: 0,
        }
    }

    /// The kernel call that disables the interrupt of button `button_num`.
    pub fn disable_button_interrupt(&self, button_num: usize) -> (r: Syscall)
        ensures
            r == button_command(COMMAND_DISABLE_INTERRUPT, button_num),
    {
        Syscall::Command {
            driver: DRIVER_NUM,
            num: COMMAND_DISABLE_INTERRUPT,
            arg0: button_num,
            arg1: 0,
        }
    }

    /// The kernel call that reads the level of button `button_num`; its
    /// outcome goes to `button_state_from`.
    pub fn get_button_state(&self, button_num: usize) -> (r: Syscall)
        ensures
            r == button_command(COMMAND_CURRENT_STATE, button_num),
    {
        Syscall::Command { driver: DRIVER_NUM, num: COMMAND_CURRENT_STATE, arg0: button_num, arg1: 0 }
    }

    /// The level that the outcome of the level-reading call reports.
    pub fn button_state_from(&self, outcome: Result<usize, Error>) -> (r: Result<ButtonState, Error>)
        ensures
            match outcome {
                Ok(w) => r == Ok::<ButtonState, Error>(state_of(w)),
                Err(e) => r == Err::<ButtonState, Error>(e),
            },
    {
        match outcome {
            Ok(w) => if w == 0 {
                Ok(ButtonState::NotPressed)
            } else {
                Ok(ButtonState::Pressed)
            },
            Err(e) => Err(e),
        }
    }
}

impl DriverTask for Button {
    open spec fn spec_has_message(&self) -> bool {
        self@ is Some
    }

    fn has_message(&self) -> (r: bool) {
        self.mailbox.is_some()
    }
}

/// The two slots of the button client: the last press and the last release.
pub struct ButtonClientView {
    pub pressed: Option<ButtonClientMessage>,
    pub not_pressed: Option<ButtonClientMessage>,
}

/// The client half of the button driver.
pub struct ButtonClient {
    pressed: Option<ButtonClientMessage>,
    not_pressed: Option<ButtonClientMessage>,
}

impl View for ButtonClient {
    type V = ButtonClientView;

    closed spec fn view(&self) -> ButtonClientView {
        ButtonClientView { pressed: self.pressed, not_pressed: self.not_pressed }
    }
}

impl ButtonClient {
    pub fn new() -> (r: ButtonClient)
        ensures
            r@.pressed is None,
            r@.not_pressed is None,
    {
        ButtonClient { pressed: None, not_pressed: None }
    }

    pub fn has_pressed_message(&self) -> (r: bool)
        ensures
            r == self@.pressed is Some,
    {
        self.pressed.is_some()
    }

    pub fn has_not_pressed_message(&self) -> (r: bool)
        ensures
            r == self@.not_pressed is Some,
    {
        self.not_pressed.is_some()
    }

    /// Drops the last press. With none held it fails with `NotFound`.
    pub fn reap_pressed_message(&mut self) -> (r: Result<(), Error>)
        ensures
            final(self)@ == (ButtonClientView { pressed: None, ..old(self)@ }),
            r is Ok <==> old(self)@.pressed is Some,
            r is Err ==> r == Err::<(), Error>(Error::NotFound),
    {
        match self.pressed.take() {
            None => Err(Error::NotFound),
            Some(_) => Ok(()),
        }
    }

    /// Drops the last release. With none held it fails with `NotFound`.
    pub fn reap_not_pressed_message(&mut self) -> (r: Result<(), Error>)
        ensures
            final(self)@ == (ButtonClientView { not_pressed: None, ..old(self)@ }),
            r is Ok <==> old(self)@.not_pressed is Some,
            r is Err ==> r == Err::<(), Error>(Error::NotFound),
    {
        match self.not_pressed.take() {
            None => Err(Error::NotFound),
            Some(_) => Ok(()),
        }
    }

    /// Consumes the last press. With none held it fails with `NotFound` and
    /// changes nothing.
    pub fn reap_get_pressed_data(&mut self) -> (r: Result<ButtonEventData, Error>)
        ensures
            final(self)@ == (ButtonClientView { pressed: None, ..old(self)@ }),
            match old(self)@.pressed {
                None => r == Err::<ButtonEventData, Error>(Error::NotFound),
                Some(ButtonClientMessage::Event(d)) => r == Ok::<ButtonEventData, Error>(d),
            },
    {
        match self.pressed.take() {
            None => Err(Error::NotFound),
            Some(ButtonClientMessage::Event(d)) => Ok(d),
        }
    }

    /// Consumes the last release. With none held it fails with `NotFound`
    /// and changes nothing.
    pub fn reap_get_not_pressed_data(&mut self) -> (r: Result<ButtonEventData, Error>)
        ensures
            final(self)@ == (ButtonClientView { not_pressed: None, ..old(self)@ }),
            match old(self)@.not_pressed {
                None => r == Err::<ButtonEventData, Error>(Error::NotFound),
                Some(ButtonClientMessage::Event(d)) => r == Ok::<ButtonEventData, Error>(d),
            },
    {
        match self.not_pressed.take() {
            None => Err(Error::NotFound),
            Some(ButtonClientMessage::Event(d)) => Ok(d),
        }
    }
}

impl DriverTaskClient for ButtonClient {
    open spec fn spec_has_message(&self) -> bool {
        self@.pressed is Some || self@.not_pressed is Some
    }

    closed spec fn spec_reaped(&self) -> ButtonClient {
        ButtonClient { pressed: None, not_pressed: None }
    }

    fn has_message(&self) -> (r: bool) {
        self.has_pressed_message() || self.has_not_pressed_message()
    }

    fn reap_message(&mut self) {
        self.pressed = None;
        self.not_pressed = None;
    }
}

} // verus!
