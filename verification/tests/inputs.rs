use raycaster::inputs_buffer::{
    doorCommand_t, lookCommand_t, moveCommand_t, InputEvent, InputsBuffer, KeyboardState, ParseInputs,
};

fn no_keys() -> KeyboardState {
    KeyboardState { W: false, S: false, A: false, D: false, SPACE: false, LEFT: false, RIGHT: false, FIRE: false }
}

#[test]
fn a_new_buffer_holds_no_commands() {
    let b = InputsBuffer::New();
    assert_eq!(b.lookCommand, lookCommand_t::NONE);
    assert_eq!(b.moveCommand, moveCommand_t::NONE);
    assert_eq!(b.doorCommand, doorCommand_t::NONE);
    assert!(!b.quit);
    assert!(!b.fireWeapon);
    assert_eq!(b.mouseAbsXrel, 0);
    assert_eq!(b.prevXrel, 0);
    assert_eq!(lookCommand_t::default(), lookCommand_t::NONE);
    assert_eq!(moveCommand_t::default(), moveCommand_t::NONE);
    assert_eq!(doorCommand_t::default(), doorCommand_t::NONE);
}

#[test]
fn keys_give_the_walking_command() {
    let cases: [((bool, bool, bool, bool), moveCommand_t); 12] = [
        ((false, true, true, false), moveCommand_t::SOUTH_WEST),
        ((false, true, false, true), moveCommand_t::SOUTH_EAST),
        ((false, false, false, false), moveCommand_t::NONE),
        ((true, false, false, false), moveCommand_t::NORTH),
        ((false, true, false, false), moveCommand_t::SOUTH),
        ((false, false, true, false), moveCommand_t::WEST),
        ((false, false, false, true), moveCommand_t::EAST),
        ((true, false, true, false), moveCommand_t::NORTH_WEST),
        ((true, false, false, true), moveCommand_t::NORTH_EAST),
        ((true, true, false, false), moveCommand_t::NORTH),
        ((true, true, true, true), moveCommand_t::NORTH_WEST),
        ((false, true, true, true), moveCommand_t::SOUTH_WEST),
    ];
    for ((w, s, a, d), command) in cases {
        let keys = KeyboardState { W: w, S: s, A: a, D: d, ..no_keys() };
        let mut b = InputsBuffer::New();
        b.Update(&Vec::new(), true, &keys);
        assert_eq!(b.moveCommand, command);
        let mut p = InputsBuffer::New();
        ParseInputs(&keys, &mut p);
        assert_eq!(p.moveCommand, command);
    }
}

#[test]
fn space_opens_doors_and_the_button_fires() {
    let mut b = InputsBuffer::New();
    b.Update(&Vec::new(), true, &KeyboardState { SPACE: true, ..no_keys() });
    assert_eq!(b.doorCommand, doorCommand_t::OPEN);
    assert!(!b.fireWeapon);
    b.Update(&Vec::new(), true, &KeyboardState { FIRE: true, ..no_keys() });
    assert_eq!(b.doorCommand, doorCommand_t::NONE);
    assert!(b.fireWeapon);
}

#[test]
fn the_mouse_gives_the_turning_command() {
    let mut b = InputsBuffer::New();
    b.Update(&vec![InputEvent::MouseMotion { xrel: 5 }], false, &no_keys());
    assert_eq!(b.lookCommand, lookCommand_t::RIGHT);
    assert_eq!(b.mouseAbsXrel, 5);
    assert_eq!(b.prevXrel, 5);
    b.Update(&vec![InputEvent::MouseMotion { xrel: -7 }, InputEvent::Other], false, &no_keys());
    assert_eq!(b.lookCommand, lookCommand_t::LEFT);
    assert_eq!(b.mouseAbsXrel, 7);
    assert_eq!(b.prevXrel, -7);
    b.Update(&vec![InputEvent::MouseMotion { xrel: 3 }, InputEvent::MouseMotion { xrel: -2 }], false, &no_keys());
    assert_eq!(b.lookCommand, lookCommand_t::LEFT);
    assert_eq!(b.mouseAbsXrel, 2);
    b.Update(&vec![InputEvent::MouseMotion { xrel: i32::MIN }], false, &no_keys());
    assert_eq!(b.mouseAbsXrel, i32::MAX);
    assert_eq!(b.lookCommand, lookCommand_t::LEFT);
}

#[test]
fn a_mouse_motion_of_nothing_keeps_the_turning_command() {
    let mut b = InputsBuffer::New();
    b.Update(&vec![InputEvent::MouseMotion { xrel: 5 }], false, &no_keys());
    b.Update(&vec![InputEvent::MouseMotion { xrel: 0 }], false, &no_keys());
    assert_eq!(b.lookCommand, lookCommand_t::RIGHT);
    assert_eq!(b.mouseAbsXrel, 0);
}

#[test]
fn the_turn_ends_when_the_mouse_has_stopped() {
    let mut b = InputsBuffer::New();
    b.Update(&vec![InputEvent::MouseMotion { xrel: 5 }], false, &no_keys());
    // No motion in this tick, but the mouse is not at rest yet.
    b.Update(&Vec::new(), false, &no_keys());
    assert_eq!(b.lookCommand, lookCommand_t::RIGHT);
    assert_eq!(b.mouseAbsXrel, 5);
    assert_eq!(b.prevXrel, 0);
    b.Update(&Vec::new(), true, &no_keys());
    assert_eq!(b.lookCommand, lookCommand_t::NONE);
    assert_eq!(b.mouseAbsXrel, 0);
    // The same motion twice while at rest counts as stopped.
    b.Update(&vec![InputEvent::MouseMotion { xrel: 4 }], true, &no_keys());
    assert_eq!(b.lookCommand, lookCommand_t::RIGHT);
    b.Update(&vec![InputEvent::MouseMotion { xrel: 4 }], true, &no_keys());
    assert_eq!(b.lookCommand, lookCommand_t::NONE);
    assert_eq!(b.mouseAbsXrel, 0);
    assert_eq!(b.prevXrel, 4);
}

#[test]
fn quitting_ends_the_reading_of_events() {
    for stop in [InputEvent::Quit, InputEvent::EscapeDown] {
        let mut b = InputsBuffer::New();
        b.Update(
            &vec![InputEvent::MouseMotion { xrel: 5 }, stop, InputEvent::MouseMotion { xrel: -9 }],
            false,
            &KeyboardState { W: true, ..no_keys() },
        );
        assert!(b.quit);
        assert_eq!(b.lookCommand, lookCommand_t::RIGHT);
        assert_eq!(b.mouseAbsXrel, 5);
        assert_eq!(b.prevXrel, 5);
        assert_eq!(b.moveCommand, moveCommand_t::NORTH);
        b.Update(&Vec::new(), true, &no_keys());
        assert!(b.quit);
    }
}

#[test]
fn arrow_keys_give_the_turning_command() {
    let mut b = InputsBuffer::New();
    b.quit = true;
    b.mouseAbsXrel = 9;
    ParseInputs(&KeyboardState { LEFT: true, RIGHT: true, ..no_keys() }, &mut b);
    assert_eq!(b.lookCommand, lookCommand_t::LEFT);
    ParseInputs(&KeyboardState { RIGHT: true, ..no_keys() }, &mut b);
    assert_eq!(b.lookCommand, lookCommand_t::RIGHT);
    ParseInputs(&no_keys(), &mut b);
    assert_eq!(b.lookCommand, lookCommand_t::NONE);
    assert!(b.quit);
    assert_eq!(b.mouseAbsXrel, 9);
}
