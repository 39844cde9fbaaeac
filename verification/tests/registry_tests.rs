use winbridge::event::ButtonState;
use winbridge::event::MouseButton;
use winbridge::event::WindowEvent;
use winbridge::registry::Registry;
use winbridge::registry::RegistryError;
use winbridge::state::WindowState;

fn filled(x: u32, y: u32) -> WindowState {
    let mut st = WindowState::initial();
    st.apply(WindowEvent::MouseMoved { x, y });
    st
}

#[test]
fn insert_then_read_returns_the_inserted_state() {
    let mut reg = Registry::new();
    let st = filled(11, 22);
    assert_eq!(reg.insert(7, st), Ok(()));
    assert_eq!(reg.read(7), Ok(st));
}

#[test]
fn read_never_inserted_is_not_found() {
    let reg = Registry::new();
    assert_eq!(reg.read(7), Err(RegistryError::NotFound));
}

#[test]
fn double_insert_is_refused_and_keeps_the_first_state() {
    let mut reg = Registry::new();
    let first = filled(1, 1);
    assert_eq!(reg.insert(7, first), Ok(()));
    assert_eq!(reg.insert(7, filled(2, 2)), Err(RegistryError::AlreadyPresent));
    assert_eq!(reg.read(7), Ok(first));
}

#[test]
fn remove_deletes_the_entry() {
    let mut reg = Registry::new();
    assert_eq!(reg.insert(7, WindowState::initial()), Ok(()));
    assert_eq!(reg.remove(7), Ok(()));
    assert_eq!(reg.read(7), Err(RegistryError::NotFound));
}

#[test]
fn remove_never_inserted_is_not_found() {
    let mut reg = Registry::new();
    assert_eq!(reg.remove(7), Err(RegistryError::NotFound));
}

#[test]
fn sequential_with_mut_sessions_both_succeed() {
    let mut reg = Registry::new();
    assert_eq!(reg.insert(7, WindowState::initial()), Ok(()));

    let st = reg.with_mut_begin(7).unwrap();
    let mut st1 = st;
    st1.mouse.left = true;
    reg.with_mut_end(7, st1);

    let st2 = reg.with_mut_begin(7).unwrap();
    assert!(st2.mouse.left);
    let mut st3 = st2;
    st3.mouse.left = false;
    reg.with_mut_end(7, st3);

    assert!(!reg.read(7).unwrap().mouse.left);
}

#[test]
fn nested_with_mut_on_the_same_id_is_a_borrow_conflict() {
    let mut reg = Registry::new();
    assert_eq!(reg.insert(7, WindowState::initial()), Ok(()));

    let st = reg.with_mut_begin(7).unwrap();
    // The first session is still open: a second one must be refused.
    assert_eq!(reg.with_mut_begin(7), Err(RegistryError::BorrowConflict));
    assert_eq!(
        reg.with_mut(7, |s| s),
        Err(RegistryError::BorrowConflict)
    );
    reg.with_mut_end(7, st);

    // Closed again: the next session succeeds.
    assert!(reg.with_mut_begin(7).is_ok());
}

#[test]
fn with_mut_applies_the_update() {
    let mut reg = Registry::new();
    assert_eq!(reg.insert(7, WindowState::initial()), Ok(()));
    let res = reg.with_mut(7, |s| {
        let mut t = s;
        t.apply(WindowEvent::ButtonChanged {
            button: MouseButton::Right,
            state: ButtonState::Down,
        });
        t
    });
    assert_eq!(res, Ok(()));
    assert!(reg.read(7).unwrap().mouse.right);
}

#[test]
fn with_mut_on_an_unknown_id_is_not_found() {
    let mut reg = Registry::new();
    assert_eq!(reg.with_mut(7, |s| s), Err(RegistryError::NotFound));
}

#[test]
fn remove_while_borrowed_is_a_borrow_conflict() {
    let mut reg = Registry::new();
    assert_eq!(reg.insert(7, WindowState::initial()), Ok(()));
    let st = reg.with_mut_begin(7).unwrap();
    assert_eq!(reg.remove(7), Err(RegistryError::BorrowConflict));
    reg.with_mut_end(7, st);
    assert_eq!(reg.remove(7), Ok(()));
}

#[test]
fn entries_are_independent() {
    let mut reg = Registry::new();
    assert_eq!(reg.insert(1, filled(1, 1)), Ok(()));
    assert_eq!(reg.insert(2, filled(2, 2)), Ok(()));
    let st = reg.with_mut_begin(1).unwrap();
    // A session on one entry does not block the other.
    assert!(reg.with_mut_begin(2).is_ok());
    reg.with_mut_end(2, filled(9, 9));
    reg.with_mut_end(1, st);
    assert_eq!(reg.read(2).unwrap().mouse.pos.x, 9);
    assert_eq!(reg.read(1).unwrap().mouse.pos.x, 1);
}
