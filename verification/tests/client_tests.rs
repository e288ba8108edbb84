use xcb_imdkit::client::{XCB_KEY_PRESS, XCB_KEY_RELEASE};
use xcb_imdkit::{CreateIcRequest, EventAction, Ic, IcValues, ImeClient, InputStyle};

fn opened_client(win: u32, handle: u16) -> ImeClient {
    let mut c = ImeClient::new(InputStyle::preedit_callbacks());
    assert_eq!(c.process_event(false, XCB_KEY_PRESS, win), EventAction::OpenIm { win });
    c.open_finished(true);
    c.ic_created(handle);
    c
}

#[test]
fn new_client_has_no_input_context() {
    let c = ImeClient::new(InputStyle::empty());
    assert_eq!(c.ic(), None);
    assert_eq!(c.input_style().bits(), 0);
}

#[test]
fn first_key_press_opens_connection() {
    let mut c = ImeClient::new(InputStyle::empty());
    let a = c.process_event(false, XCB_KEY_PRESS, 42);
    assert_eq!(a, EventAction::OpenIm { win: 42 });
    assert!(!a.handled());
    assert_eq!(c.ic(), Some(Ic { win: 42, ic: 0 }));
}

#[test]
fn key_release_also_opens_connection() {
    let mut c = ImeClient::new(InputStyle::empty());
    assert_eq!(c.process_event(false, XCB_KEY_RELEASE, 9), EventAction::OpenIm { win: 9 });
}

#[test]
fn key_events_wait_for_input_context() {
    let mut c = ImeClient::new(InputStyle::empty());
    c.process_event(false, XCB_KEY_PRESS, 42);
    c.open_finished(true);
    let a = c.process_event(false, XCB_KEY_PRESS, 42);
    assert_eq!(a, EventAction::Ignore);
    assert!(!a.handled());
    assert_eq!(c.ic(), Some(Ic { win: 42, ic: 0 }));
}

#[test]
fn failed_open_is_retried() {
    let mut c = ImeClient::new(InputStyle::empty());
    c.process_event(false, XCB_KEY_PRESS, 1);
    c.open_finished(false);
    assert_eq!(c.ic(), None);
    assert_eq!(c.process_event(false, XCB_KEY_PRESS, 2), EventAction::OpenIm { win: 2 });
}

#[test]
fn created_context_receives_key_events() {
    let mut c = opened_client(42, 7);
    let a = c.process_event(false, XCB_KEY_RELEASE, 99);
    assert_eq!(a, EventAction::Forward { ic: 7 });
    assert!(a.handled());
    assert_eq!(c.ic(), Some(Ic { win: 42, ic: 7 }));
}

#[test]
fn sent_events_are_treated_like_real_ones() {
    let mut c = opened_client(1, 3);
    assert_eq!(c.process_event(false, XCB_KEY_PRESS | 0x80, 1), EventAction::Forward { ic: 3 });
    assert_eq!(c.process_event(false, 12 | 0x80, 1), EventAction::Ignore);
}

#[test]
fn filtered_events_are_handled_other_events_ignored() {
    let mut c = ImeClient::new(InputStyle::empty());
    let a = c.process_event(true, XCB_KEY_PRESS, 5);
    assert_eq!(a, EventAction::Consumed);
    assert!(a.handled());
    assert_eq!(c.process_event(true, 33, 5), EventAction::Consumed);
    assert_eq!(c.process_event(false, 12, 5), EventAction::Ignore);
    assert!(!EventAction::Ignore.handled());
    assert_eq!(c.process_event(false, 4, 5), EventAction::Ignore);
    assert_eq!(c.ic(), None);
    let mut c = opened_client(1, 3);
    assert_eq!(c.process_event(true, XCB_KEY_PRESS, 1), EventAction::Consumed);
    assert_eq!(c.ic(), Some(Ic { win: 1, ic: 3 }));
}

#[test]
fn update_pos_without_context_fails() {
    let mut c = ImeClient::new(InputStyle::empty());
    assert_eq!(c.update_pos(1, 10, 20), None);
    c.process_event(false, XCB_KEY_PRESS, 1);
    assert_eq!(c.update_pos(1, 10, 20), None);
    assert_eq!(c.ic(), Some(Ic { win: 1, ic: 0 }));
}

#[test]
fn update_pos_same_window_sends_spot_only() {
    let mut c = opened_client(1, 3);
    assert_eq!(
        c.update_pos(1, 10, -20),
        Some(IcValues { ic: 3, window: None, spot_x: 10, spot_y: -20 })
    );
    assert_eq!(c.callback_window(), 1);
}

#[test]
fn update_pos_new_window_switches_context() {
    let mut c = opened_client(1, 3);
    assert_eq!(
        c.update_pos(8, 0, 0),
        Some(IcValues { ic: 3, window: Some(8), spot_x: 0, spot_y: 0 })
    );
    assert_eq!(c.callback_window(), 8);
    assert_eq!(c.ic(), Some(Ic { win: 8, ic: 3 }));
    assert_eq!(
        c.update_pos(8, 0, 0),
        Some(IcValues { ic: 3, window: None, spot_x: 0, spot_y: 0 })
    );
}

#[test]
fn create_request_uses_style_and_window() {
    let mut c = ImeClient::new(InputStyle::preedit_callbacks());
    c.process_event(false, XCB_KEY_PRESS, 77);
    assert_eq!(
        c.create_ic_request(),
        CreateIcRequest { input_style: 2, client_window: 77, focus_window: 77, spot_x: 0, spot_y: 0 }
    );
    let mut d = ImeClient::new(InputStyle::empty());
    d.try_open_ic(5);
    assert_eq!(d.create_ic_request().input_style, 0);
}

#[test]
fn try_open_ic_only_once() {
    let mut c = ImeClient::new(InputStyle::empty());
    assert!(c.try_open_ic(4));
    assert!(!c.try_open_ic(5));
    assert_eq!(c.ic(), Some(Ic { win: 4, ic: 0 }));
}

#[test]
fn callback_window_follows_the_opening_event() {
    let c = opened_client(31, 2);
    assert_eq!(c.callback_window(), 31);
}
