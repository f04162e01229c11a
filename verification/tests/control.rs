use confusing_clock::control::{decode_poll, Action, ButtonPoll, Clock, ControlEvent};
use confusing_clock::permutation::Permutation;
use confusing_clock::resolver::{resolve, HandAngle, HOUR_TICKS_PER_TURN, MINUTE_TICKS_PER_TURN};
use confusing_clock::time::WallClockSample;

fn poll(p1_menu: bool, p2_menu: bool, p1_action: bool, p2_action: bool) -> ButtonPoll {
    ButtonPoll {
        p1_menu_pressed: p1_menu,
        p2_menu_pressed: p2_menu,
        p1_action_just_pressed: p1_action,
        p2_action_just_pressed: p2_action,
    }
}

#[test]
fn no_button_is_no_event() {
    assert_eq!(decode_poll(&poll(false, false, false, false)), None);
}

#[test]
fn either_menu_button_exits() {
    assert_eq!(decode_poll(&poll(true, false, false, false)), Some(ControlEvent::Exit));
    assert_eq!(decode_poll(&poll(false, true, false, false)), Some(ControlEvent::Exit));
    assert_eq!(decode_poll(&poll(true, true, false, false)), Some(ControlEvent::Exit));
}

#[test]
fn either_action_button_reshuffles() {
    assert_eq!(decode_poll(&poll(false, false, true, false)), Some(ControlEvent::Reshuffle));
    assert_eq!(decode_poll(&poll(false, false, false, true)), Some(ControlEvent::Reshuffle));
    assert_eq!(decode_poll(&poll(false, false, true, true)), Some(ControlEvent::Reshuffle));
}

#[test]
fn exit_goes_before_reshuffle() {
    for p1_menu in [false, true] {
        for p2_menu in [false, true] {
            for p1_action in [false, true] {
                for p2_action in [false, true] {
                    let expected = if p1_menu || p2_menu {
                        Some(ControlEvent::Exit)
                    } else if p1_action || p2_action {
                        Some(ControlEvent::Reshuffle)
                    } else {
                        None
                    };
                    assert_eq!(
                        decode_poll(&poll(p1_menu, p2_menu, p1_action, p2_action)),
                        expected
                    );
                }
            }
        }
    }
}

#[test]
fn a_new_clock_shows_a_bijection() {
    for _ in 0..50 {
        assert_eq!(Clock::new().face().validate(), Ok(()));
    }
}

#[test]
fn exit_leaves_the_face_alone() {
    let mut clock = Clock::new();
    let before = clock.face().clone();
    assert_eq!(clock.handle(ControlEvent::Exit), Action::Terminate);
    assert_eq!(clock.face().labels(), before.labels());
}

#[test]
fn reshuffle_puts_a_new_bijection_in_place() {
    let mut clock = Clock::new();
    let first = clock.face().clone();
    let mut changed = false;
    for _ in 0..40 {
        assert_eq!(clock.handle(ControlEvent::Reshuffle), Action::Continue);
        assert_eq!(clock.face().validate(), Ok(()));
        if clock.face().labels() != first.labels() {
            changed = true;
        }
    }
    assert!(changed);
}

#[test]
fn the_tick_after_a_reshuffle_is_in_range() {
    let mut clock = Clock::new();
    for hour in [0u32, 7, 12, 23] {
        for minute in [0u32, 4, 5, 31, 59] {
            for (second, ms) in [(0u32, 0u32), (30, 500), (59, 999)] {
                let t = WallClockSample::new(hour, minute, second, ms).unwrap();
                let before = clock.tick(&t);
                assert!(before.hour < HOUR_TICKS_PER_TURN);
                assert!(before.minute < MINUTE_TICKS_PER_TURN);
                assert_eq!(clock.handle(ControlEvent::Reshuffle), Action::Continue);
                let after = clock.tick(&t);
                assert!(after.hour < HOUR_TICKS_PER_TURN);
                assert!(after.minute < MINUTE_TICKS_PER_TURN);
                assert_eq!(Ok(after), resolve(clock.face(), &t));
            }
        }
    }
}

#[test]
fn tick_resolves_on_the_face_on_show() {
    let clock = Clock::new();
    let t = WallClockSample::new(3, 30, 0, 0).unwrap();
    assert_eq!(Ok(clock.tick(&t)), resolve(clock.face(), &t));
    let anchor = clock.face().slot_of(3) as u32;
    let target = clock.face().slot_of(4) as u32;
    let steps = (target + 12 - anchor) % 12;
    assert_eq!(clock.tick(&t).hour, (anchor * 3600 + steps * 1800) % 43_200);
}

#[test]
fn with_face_shows_the_face_given() {
    let table = vec![12, 7, 3, 9, 1, 5, 11, 4, 8, 2, 10, 6];
    let clock = Clock::with_face(Permutation::new(table.clone()));
    assert_eq!(clock.face().labels(), &table);
    assert_eq!(clock.face().validate(), Ok(()));
}

#[test]
fn tick_on_a_known_face() {
    let clock = Clock::with_face(Permutation::new(vec![12, 7, 3, 9, 1, 5, 11, 4, 8, 2, 10, 6]));
    // Label 3 on slot 2, label 4 on slot 7: half of five steps past slot 2.
    // Bucket 6 goes with label 7, on slot 1.
    let t = WallClockSample::new(3, 30, 0, 0).unwrap();
    assert_eq!(clock.tick(&t), HandAngle { hour: 16_200, minute: 300_000 });
    // Label 6 on slot 11, label 7 on slot 1: the hour hand crosses the axis.
    let t = WallClockSample::new(6, 48, 30, 500).unwrap();
    assert_eq!(clock.tick(&t), HandAngle { hour: 2220, minute: 1_084_000 });
    let dial = Clock::with_face(Permutation::new(vec![12, 1, 2, 3, 4, 5, 6, 7, 8, 9, 10, 11]));
    let t = WallClockSample::new(15, 30, 0, 0).unwrap();
    assert_eq!(dial.tick(&t), HandAngle { hour: 12_600, minute: 2_100_000 });
}

#[test]
fn install_replaces_the_face_as_a_whole() {
    let old = vec![12, 7, 3, 9, 1, 5, 11, 4, 8, 2, 10, 6];
    let drawn = vec![6, 10, 2, 8, 4, 11, 5, 1, 9, 3, 7, 12];
    let mut clock = Clock::with_face(Permutation::new(old.clone()));
    clock.install(Permutation::new(drawn.clone()));
    assert_eq!(clock.face().labels(), &drawn);
    for slot in 0..12u8 {
        assert_eq!(clock.face().label_at(slot), drawn[slot as usize]);
    }
    // Whatever the old face was, the same table comes on show.
    let mut other = Clock::new();
    other.install(Permutation::new(drawn.clone()));
    assert_eq!(other.face().labels(), clock.face().labels());
    // Installing the face that is on show changes nothing.
    clock.install(Permutation::new(drawn.clone()));
    assert_eq!(clock.face().labels(), &drawn);
}

#[test]
fn the_tick_after_an_install_resolves_on_the_new_face() {
    let mut clock = Clock::with_face(Permutation::new(vec![12, 7, 3, 9, 1, 5, 11, 4, 8, 2, 10, 6]));
    let t = WallClockSample::new(3, 30, 0, 0).unwrap();
    assert_eq!(clock.tick(&t), HandAngle { hour: 16_200, minute: 300_000 });
    clock.install(Permutation::ascending());
    assert_eq!(clock.tick(&t), HandAngle { hour: 9000, minute: 1_800_000 });
}
