use winbridge::decode::MSG_CREATE;
use winbridge::decode::MSG_LBUTTONDOWN;
use winbridge::decode::MSG_LBUTTONUP;
use winbridge::decode::MSG_MOUSEMOVE;
use winbridge::decode::MSG_SIZE;
use winbridge::dispatch::ProcOutcome;
use winbridge::dispatch::handle_message;
use winbridge::geom::Rect2;
use winbridge::handle::WindowHandle;
use winbridge::registry::Registry;
use winbridge::registry::RegistryError;

const ID: u64 = 0x51;

#[test]
fn create_then_click_then_release_end_to_end() {
    let mut reg = Registry::new();
    let win = WindowHandle::new(ID);

    assert_eq!(handle_message(&mut reg, ID, MSG_CREATE, 0, 0, None), ProcOutcome::Handled);
    assert!(!win.state(&reg).unwrap().mouse.left);

    assert_eq!(handle_message(&mut reg, ID, MSG_LBUTTONDOWN, 0, 0, None), ProcOutcome::Handled);
    // Sampled between the two button messages: the press is observable.
    assert!(win.state(&reg).unwrap().mouse.left);

    assert_eq!(handle_message(&mut reg, ID, MSG_LBUTTONUP, 0, 0, None), ProcOutcome::Handled);
    assert!(!win.state(&reg).unwrap().mouse.left);
}

#[test]
fn unknown_message_is_forwarded_and_changes_nothing() {
    let mut reg = Registry::new();
    assert_eq!(handle_message(&mut reg, ID, MSG_CREATE, 0, 0, None), ProcOutcome::Handled);
    let before = reg.read(ID).unwrap();
    assert_eq!(handle_message(&mut reg, ID, 0x0002, 0, 0, None), ProcOutcome::Forward);
    assert_eq!(reg.read(ID).unwrap(), before);
}

#[test]
fn event_for_an_unregistered_window_is_forwarded() {
    let mut reg = Registry::new();
    assert_eq!(
        handle_message(&mut reg, ID, MSG_MOUSEMOVE, 0, 0x0028_0014, None),
        ProcOutcome::Forward
    );
    assert_eq!(reg.read(ID), Err(RegistryError::NotFound));
}

#[test]
fn second_create_for_a_live_window_is_fatal() {
    let mut reg = Registry::new();
    assert_eq!(handle_message(&mut reg, ID, MSG_CREATE, 0, 0, None), ProcOutcome::Handled);
    assert_eq!(handle_message(&mut reg, ID, MSG_CREATE, 0, 0, None), ProcOutcome::Fatal);
}

#[test]
fn size_stores_the_queried_rect_not_the_params() {
    let mut reg = Registry::new();
    assert_eq!(handle_message(&mut reg, ID, MSG_CREATE, 0, 0, None), ProcOutcome::Handled);
    // The raw parameters carry a different, bogus size: they must be ignored.
    let raw_junk: u64 = 0x0100_0200;
    let out = handle_message(&mut reg, ID, MSG_SIZE, 0, raw_junk, Some(Rect2::new(1280, 720)));
    assert_eq!(out, ProcOutcome::Handled);
    let st = reg.read(ID).unwrap();
    assert_eq!(st.size.width, 1280);
    assert_eq!(st.size.height, 720);
}

#[test]
fn size_with_no_queried_rect_is_forwarded() {
    let mut reg = Registry::new();
    assert_eq!(handle_message(&mut reg, ID, MSG_CREATE, 0, 0, None), ProcOutcome::Handled);
    let before = reg.read(ID).unwrap();
    assert_eq!(handle_message(&mut reg, ID, MSG_SIZE, 0, 0, None), ProcOutcome::Forward);
    assert_eq!(reg.read(ID).unwrap(), before);
}

#[test]
fn zero_area_rect_still_resizes_without_minimizing() {
    let mut reg = Registry::new();
    assert_eq!(handle_message(&mut reg, ID, MSG_CREATE, 0, 0, None), ProcOutcome::Handled);
    let out = handle_message(&mut reg, ID, MSG_SIZE, 0, 0, Some(Rect2::new(0, 0)));
    assert_eq!(out, ProcOutcome::Handled);
    let st = reg.read(ID).unwrap();
    assert_eq!(st.size.width, 0);
    assert_eq!(st.size.height, 0);
    assert!(!st.minimized);
}

#[test]
fn mousemove_message_updates_the_position() {
    let mut reg = Registry::new();
    assert_eq!(handle_message(&mut reg, ID, MSG_CREATE, 0, 0, None), ProcOutcome::Handled);
    assert_eq!(
        handle_message(&mut reg, ID, MSG_MOUSEMOVE, 0, 0x0028_0014, None),
        ProcOutcome::Handled
    );
    let st = reg.read(ID).unwrap();
    assert_eq!(st.mouse.pos.x, 20);
    assert_eq!(st.mouse.pos.y, 40);
}

#[test]
fn two_windows_are_dispatched_independently() {
    let mut reg = Registry::new();
    assert_eq!(handle_message(&mut reg, 1, MSG_CREATE, 0, 0, None), ProcOutcome::Handled);
    assert_eq!(handle_message(&mut reg, 2, MSG_CREATE, 0, 0, None), ProcOutcome::Handled);
    assert_eq!(handle_message(&mut reg, 1, MSG_LBUTTONDOWN, 0, 0, None), ProcOutcome::Handled);
    assert!(reg.read(1).unwrap().mouse.left);
    assert!(!reg.read(2).unwrap().mouse.left);
}
