use tock::alarm::{Alarm, AlarmClient, AlarmEventData};
use tock::button::{Button, ButtonClient, ButtonEventData, ButtonState};
use tock::error::Error;
use tock::syscalls::{CallbackMessage, Syscall};
use tock::task::{DriverTask, DriverTaskClient};
use tock::{has_callback_messages, has_client_messages, reap_client_messages, Drivers};

#[test]
fn alarm_event_becomes_client_message() {
    let mut alarm = Alarm::new();
    let mut client = AlarmClient::new();
    assert_eq!(client.reap_get_data(), Err(Error::NotFound));
    alarm.deliver(CallbackMessage::new(120, 100, 0, 0));
    assert!(alarm.has_message());
    alarm.advance(&mut client);
    assert!(!alarm.has_message());
    assert!(client.has_message());
    let d = client.reap_get_data().unwrap();
    assert_eq!(d, AlarmEventData::new(120, 100));
    assert_eq!(d.get_now(), 120);
    assert_eq!(d.get_expiration(), 100);
    assert!(!client.has_message());
}

#[test]
fn alarm_commands_match_driver_table() {
    let alarm = Alarm::new();
    assert_eq!(alarm.initiate(), Syscall::Subscribe { driver: 0, num: 0 });
    assert_eq!(alarm.is_present(), Syscall::Command { driver: 0, num: 0, arg0: 0, arg1: 0 });
    assert_eq!(alarm.get_clock_frequency(), Syscall::Command { driver: 0, num: 1, arg0: 0, arg1: 0 });
    assert_eq!(alarm.get_tic(), Syscall::Command { driver: 0, num: 2, arg0: 0, arg1: 0 });
    assert_eq!(alarm.stop(77), Syscall::Command { driver: 0, num: 3, arg0: 77, arg1: 0 });
    assert_eq!(alarm.start(78), Syscall::Command { driver: 0, num: 4, arg0: 78, arg1: 0 });
}

#[test]
fn millisecond_to_tic_values() {
    let alarm = Alarm::new();
    assert_eq!(alarm.millisecond_to_tic(10000, 32768), 327680);
    assert_eq!(alarm.millisecond_to_tic(1500, 32768), 32768 + 500 * 32);
    assert_eq!(alarm.millisecond_to_tic(0, 32768), 0);
    assert_eq!(alarm.millisecond_to_tic(999, 16000), 999 * 16);
}

#[test]
fn button_events_go_to_their_slots() {
    let mut button = Button::new();
    let mut client = ButtonClient::new();
    button.deliver(CallbackMessage::new(0, 1, 0, 0));
    button.advance(&mut client);
    assert!(client.has_pressed_message());
    assert!(!client.has_not_pressed_message());
    button.deliver(CallbackMessage::new(2, 0, 0, 0));
    button.advance(&mut client);
    assert!(client.has_not_pressed_message());
    let p = client.reap_get_pressed_data().unwrap();
    assert_eq!(p.get_num(), 0);
    assert_eq!(p.get_state(), ButtonState::Pressed);
    let r = client.reap_get_not_pressed_data().unwrap();
    assert_eq!(r, ButtonEventData::new(2, ButtonState::NotPressed));
    assert_eq!(client.reap_get_pressed_data(), Err(Error::NotFound));
    assert_eq!(client.reap_get_not_pressed_data(), Err(Error::NotFound));
}

#[test]
fn button_reap_without_data() {
    let mut button = Button::new();
    let mut client = ButtonClient::new();
    assert_eq!(client.reap_pressed_message(), Err(Error::NotFound));
    assert_eq!(client.reap_not_pressed_message(), Err(Error::NotFound));
    button.deliver(CallbackMessage::new(1, 5, 0, 0));
    button.advance(&mut client);
    button.deliver(CallbackMessage::new(1, 0, 0, 0));
    button.advance(&mut client);
    assert!(client.has_message());
    assert_eq!(client.reap_pressed_message(), Ok(()));
    assert!(client.has_message());
    assert_eq!(client.reap_not_pressed_message(), Ok(()));
    assert!(!client.has_message());
    button.deliver(CallbackMessage::new(1, 5, 0, 0));
    button.advance(&mut client);
    client.reap_message();
    assert!(!client.has_message());
}

#[test]
fn button_commands_match_driver_table() {
    let button = Button::new();
    assert_eq!(button.initiate(), Syscall::Subscribe { driver: 3, num: 0 });
    assert_eq!(button.get_num_buttons(), Syscall::Command { driver: 3, num: 0, arg0: 0, arg1: 0 });
    assert_eq!(button.enable_button_interrupt(1), Syscall::Command { driver: 3, num: 1, arg0: 1, arg1: 0 });
    assert_eq!(button.disable_button_interrupt(1), Syscall::Command { driver: 3, num: 2, arg0: 1, arg1: 0 });
    assert_eq!(button.get_button_state(4), Syscall::Command { driver: 3, num: 2, arg0: 4, arg1: 0 });
    assert_eq!(button.button_state_from(Ok(0)), Ok(ButtonState::NotPressed));
    assert_eq!(button.button_state_from(Ok(3)), Ok(ButtonState::Pressed));
    assert_eq!(button.button_state_from(Err(Error::Busy)), Err(Error::Busy));
}

#[test]
fn scheduler_tick_drains_every_mailbox() {
    let mut d = Drivers::new();
    assert!(!has_callback_messages(&d));
    assert!(!has_client_messages(&d));
    assert!(!d.tick());
    d.alarm.deliver(CallbackMessage::new(5, 5, 0, 0));
    d.button.deliver(CallbackMessage::new(0, 1, 0, 0));
    assert!(has_callback_messages(&d));
    assert!(d.tick());
    assert!(!has_callback_messages(&d));
    assert!(d.alarm_client.has_message());
    assert!(d.button_client.has_pressed_message());
    reap_client_messages(&mut d);
    assert!(!has_client_messages(&d));
    assert!(!d.tick());
}

#[test]
fn scheduler_tick_runs_console_tasks() {
    let mut d = Drivers::new();
    d.console_write.initiate_write(&d.console_write_client, b"hi").unwrap();
    d.console_write.write_initiated(2, Ok(0)).unwrap();
    d.console_write.deliver(CallbackMessage::new(1, 0, 0, 0));
    assert!(!d.tick());
    d.console_write.deliver(CallbackMessage::new(1, 0, 0, 0));
    assert!(d.tick());
    assert!(d.console_write_client.has_message());
}
