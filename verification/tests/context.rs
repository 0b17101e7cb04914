use gamepad_rs::native::{
    BUTTON_A, BUTTON_B, BUTTON_START, BUTTON_X, BUTTON_Y, SUBTYPE_GAMEPAD, SUBTYPE_WHEEL,
};
use gamepad_rs::{
    AxisValue, ControllerContext, ControllerContextInterface, ControllerStatus,
    NativeCapabilities, NativeGamepad, NativeState, RefreshOutcome, MAX_DEVICES, MAX_DIGITAL,
};

fn gamepad(buttons: u16) -> NativeGamepad {
    NativeGamepad {
        buttons,
        left_trigger: 0,
        right_trigger: 0,
        thumb_lx: 0,
        thumb_ly: 0,
        thumb_rx: 0,
        thumb_ry: 0,
    }
}

/// A capability report of a gamepad with the given buttons and the two axes
/// of the left thumbstick.
fn capabilities(buttons: u16) -> NativeCapabilities {
    let mut report = gamepad(buttons);
    report.thumb_lx = -1;
    report.thumb_ly = -1;
    NativeCapabilities { sub_type: SUBTYPE_GAMEPAD, gamepad: report }
}

fn sample(packet_number: u32, buttons: u16) -> NativeState {
    NativeState { packet_number, gamepad: gamepad(buttons) }
}

fn bits(held: &[usize]) -> [bool; MAX_DIGITAL] {
    let mut expected = [false; MAX_DIGITAL];
    for &i in held {
        expected[i] = true;
    }
    expected
}

#[test]
fn a_new_context_has_only_empty_slots() {
    let mut context = ControllerContext::new();
    for slot in 0..MAX_DEVICES {
        // A packet number of zero is the stored one, so nothing is recomputed
        // and the stored state comes back as it was made.
        let state = *context.state(slot, Some(sample(0, 0xffff)), None);
        assert_eq!(state.status, ControllerStatus::Disconnected);
        assert_eq!(state.sequence, 0);
        assert_eq!(state.digital_state, [false; MAX_DIGITAL]);
        assert!(state.analog_state.iter().all(|axis| *axis == AxisValue::neutral()));
    }
}

#[test]
fn info_beyond_the_last_slot_is_the_null_info() {
    let mut context = ControllerContext::new();
    for slot in [MAX_DEVICES, MAX_DEVICES + 1, 1000, usize::MAX] {
        let info = context.info(slot, Some(capabilities(BUTTON_A)));
        assert_eq!(info.name, "null");
        assert_eq!(info.digital_count, 0);
        assert_eq!(info.analog_count, 0);
    }
}

#[test]
fn state_beyond_the_last_slot_is_the_disconnected_state() {
    let mut context = ControllerContext::new();
    for slot in [MAX_DEVICES, MAX_DEVICES + 1, 1000, usize::MAX] {
        let state = context.state(slot, Some(sample(5, BUTTON_A)), Some(capabilities(BUTTON_A)));
        assert_eq!(state.status, ControllerStatus::Disconnected);
        assert_eq!(state.sequence, 0);
        assert_eq!(state.digital_state, [false; MAX_DIGITAL]);
        assert!(state.analog_state.iter().all(|axis| *axis == AxisValue::neutral()));
        assert_eq!(
            context.update(slot, Some(sample(5, BUTTON_A)), None),
            RefreshOutcome::Unavailable
        );
        assert!(!context.needs_capabilities(slot, &Some(sample(5, BUTTON_A))));
    }
}

#[test]
fn a_failed_capability_query_gives_the_null_info() {
    let mut context = ControllerContext::new();
    let info = context.info(3, None);
    assert_eq!(info.name, "null");
    assert_eq!(info.digital_count, 0);
    assert_eq!(info.analog_count, 0);
}

#[test]
fn a_failed_capability_query_keeps_the_stored_info() {
    let mut context = ControllerContext::new();
    assert_eq!(context.info(3, Some(capabilities(BUTTON_A | BUTTON_B))).digital_count, 2);
    assert_eq!(context.info(3, None).name, "null");
    // The stored buttons are still known: a state refresh reads both.
    assert!(!context.needs_capabilities(3, &Some(sample(1, 0))));
    let state = context.state(3, Some(sample(1, BUTTON_B)), None);
    assert_eq!(state.digital_state, bits(&[1]));
}

#[test]
fn a_capability_report_becomes_the_info() {
    let mut context = ControllerContext::new();
    let mut report = capabilities(BUTTON_A | BUTTON_B | BUTTON_X | BUTTON_Y);
    report.sub_type = SUBTYPE_WHEEL;
    report.gamepad.right_trigger = 9;
    let info = context.info(2, Some(report));
    assert_eq!(info.name, "XBOX360 wheel controller");
    assert_eq!(info.digital_count, 4);
    assert_eq!(info.analog_count, 3);
    // Other slots are not touched.
    assert!(context.needs_capabilities(1, &Some(sample(1, 0))));
    assert!(!context.needs_capabilities(2, &Some(sample(1, 0))));
}

#[test]
fn state_queries_with_sequence_100_100_101() {
    let mut context = ControllerContext::new();
    let info = context.info(0, Some(capabilities(BUTTON_A | BUTTON_B | BUTTON_X | BUTTON_Y)));
    assert_eq!(info.digital_count, 4);
    assert_eq!(info.analog_count, 2);

    let first = *context.state(0, Some(sample(100, BUTTON_A | BUTTON_X)), None);
    assert_eq!(first.sequence, 100);
    assert_eq!(first.digital_state, bits(&[0, 2]));

    // The same sequence again: the state stays, whatever the report holds.
    let second = *context.state(0, Some(sample(100, BUTTON_B | BUTTON_Y)), None);
    assert_eq!(second.sequence, 100);
    assert_eq!(second.digital_state, first.digital_state);
    assert_eq!(second.analog_state, first.analog_state);
    assert_eq!(second.status, first.status);

    let third = *context.state(0, Some(sample(101, 0)), None);
    assert_eq!(third.sequence, 101);
    assert_eq!(third.digital_state, bits(&[]));
}

#[test]
fn a_second_refresh_from_the_same_state_recomputes_nothing() {
    let mut context = ControllerContext::new();
    context.info(1, Some(capabilities(BUTTON_A | BUTTON_START)));
    let native = Some(sample(7, BUTTON_START));
    assert_eq!(context.update(1, native, None), RefreshOutcome::Recomputed);
    let once = *context.state(1, native, None);
    assert_eq!(context.update(1, native, None), RefreshOutcome::Unchanged);
    let twice = *context.state(1, native, Some(capabilities(0xffff)));
    assert_eq!(once.sequence, twice.sequence);
    assert_eq!(once.status, twice.status);
    assert_eq!(once.digital_state, twice.digital_state);
    assert_eq!(once.analog_state, twice.analog_state);
    assert_eq!(once.digital_state, bits(&[1]));
}

#[test]
fn a_failed_state_query_changes_nothing() {
    let mut context = ControllerContext::new();
    context.info(4, Some(capabilities(BUTTON_A)));
    context.state(4, Some(sample(9, BUTTON_A)), None);
    assert_eq!(context.update(4, None, None), RefreshOutcome::Unavailable);
    let failed = *context.state(4, None, None);
    assert_eq!(failed.sequence, 0);
    assert_eq!(failed.digital_state, bits(&[]));
    // The stored state is still there: sequence 9 is not new.
    assert_eq!(context.update(4, Some(sample(9, 0)), None), RefreshOutcome::Unchanged);
    let stored = *context.state(4, Some(sample(9, 0)), None);
    assert_eq!(stored.sequence, 9);
    assert_eq!(stored.digital_state, bits(&[0]));
}

#[test]
fn the_sequence_follows_the_native_packet_number() {
    let mut context = ControllerContext::new();
    let mut last = 0;
    for packet in [1u32, 2, 2, 3, 10, 10, 4_000_000_000] {
        let state = *context.state(6, Some(sample(packet, 0)), None);
        assert_eq!(state.sequence, packet as usize);
        assert!(last <= state.sequence);
        last = state.sequence;
    }
}

#[test]
fn the_mapping_is_stable_across_state_refreshes() {
    let mut context = ControllerContext::new();
    context.info(5, Some(capabilities(BUTTON_X | BUTTON_B | BUTTON_A)));
    let reports = [
        (BUTTON_A, vec![0]),
        (BUTTON_B, vec![1]),
        (BUTTON_X, vec![2]),
        (BUTTON_A | BUTTON_X, vec![0, 2]),
        (BUTTON_Y | BUTTON_START, vec![]),
        (BUTTON_A | BUTTON_B | BUTTON_X | BUTTON_Y, vec![0, 1, 2]),
    ];
    let mut packet = 1;
    for round in 0..3 {
        for (buttons, held) in reports.iter() {
            // A capability report that names other buttons is not consulted.
            let state = *context.state(5, Some(sample(packet, *buttons)), Some(capabilities(0xffff)));
            assert_eq!(state.digital_state, bits(held), "round {}", round);
            packet += 1;
        }
    }
}

#[test]
fn an_unknown_slot_asks_for_capabilities_on_a_new_packet() {
    let mut context = ControllerContext::new();
    let native = Some(sample(1, BUTTON_B));
    assert!(context.needs_capabilities(0, &native));
    assert!(!context.needs_capabilities(0, &None));
    assert!(!context.needs_capabilities(0, &Some(sample(0, BUTTON_B))));
    let state = *context.state(0, native, Some(capabilities(BUTTON_A | BUTTON_B)));
    assert_eq!(state.sequence, 1);
    assert_eq!(state.digital_state, bits(&[1]));
    // The refresh described the slot on the way.
    assert!(!context.needs_capabilities(0, &Some(sample(2, 0))));
    let info = context.info(0, None);
    assert_eq!(info.name, "null");
}

#[test]
fn an_unknown_slot_without_capabilities_reads_no_button() {
    let mut context = ControllerContext::new();
    let mut native = sample(3, 0xffff);
    native.gamepad.thumb_lx = 32767;
    native.gamepad.left_trigger = 255;
    let state = *context.state(7, Some(native), None);
    assert_eq!(state.sequence, 3);
    assert_eq!(state.digital_state, bits(&[]));
    assert_eq!(state.analog_state[0], AxisValue::from_thumbstick(32767));
    assert_eq!(state.analog_state[1], AxisValue::from_thumbstick(0));
    assert_eq!(state.analog_state[2], AxisValue::from_trigger(255));
    assert_eq!(state.analog_state[3], AxisValue::from_trigger(0));
    assert_eq!(state.analog_state[4], AxisValue::from_thumbstick(0));
    assert_eq!(state.analog_state[5], AxisValue::from_thumbstick(0));
    assert_eq!(state.analog_state[6], AxisValue::neutral());
    assert_eq!(state.analog_state[7], AxisValue::neutral());
    assert!(context.needs_capabilities(7, &Some(sample(4, 0))));
}

#[test]
fn a_scan_counts_and_marks_the_connected_slots() {
    let mut context = ControllerContext::new();
    let present = [true, false, true, true, false, false, false, true];
    assert_eq!(context.scan_controllers(&present), 4);
    for slot in 0..MAX_DEVICES {
        let state = *context.state(slot, Some(sample(0, 0)), None);
        let expected = if present[slot] {
            ControllerStatus::Connected
        } else {
            ControllerStatus::Disconnected
        };
        assert_eq!(state.status, expected);
    }
    assert_eq!(context.scan_controllers(&[false; MAX_DEVICES]), 0);
    for slot in 0..MAX_DEVICES {
        let state = *context.state(slot, Some(sample(0, 0)), None);
        assert_eq!(state.status, ControllerStatus::Disconnected);
    }
    assert_eq!(context.scan_controllers(&[true; MAX_DEVICES]), MAX_DEVICES);
}

#[test]
fn a_scan_touches_only_the_status() {
    let mut context = ControllerContext::new();
    context.info(0, Some(capabilities(BUTTON_A)));
    context.state(0, Some(sample(11, BUTTON_A)), None);
    let mut present = [false; MAX_DEVICES];
    present[0] = true;
    assert_eq!(context.scan_controllers(&present), 1);
    let state = *context.state(0, Some(sample(11, 0)), None);
    assert_eq!(state.status, ControllerStatus::Connected);
    assert_eq!(state.sequence, 11);
    assert_eq!(state.digital_state, bits(&[0]));
    // A state refresh keeps the status that the scan stored.
    let state = *context.state(0, Some(sample(12, 0)), None);
    assert_eq!(state.status, ControllerStatus::Connected);
    assert_eq!(state.digital_state, bits(&[]));
}

#[test]
fn the_interface_refreshes_like_the_context() {
    let mut context = ControllerContext::new();
    let mut present = [false; MAX_DEVICES];
    present[2] = true;
    assert_eq!(context.get_controller_count(&present), 1);
    let info = context.borrow_controller_info(2, Some(capabilities(BUTTON_A | BUTTON_B)));
    assert_eq!(info.name, "XBOX360 gamepad controller");
    assert_eq!(info.digital_count, 2);
    assert_eq!(info.analog_count, 2);
    assert_eq!(context.borrow_controller_info(2, None).name, "null");
    let state = *context.borrow_controller_state(2, Some(sample(1, BUTTON_B)), None);
    assert_eq!(state.status, ControllerStatus::Connected);
    assert_eq!(state.sequence, 1);
    assert_eq!(state.digital_state, bits(&[1]));
    let failed = *context.borrow_controller_state(2, None, None);
    assert_eq!(failed.status, ControllerStatus::Disconnected);
    assert_eq!(failed.sequence, 0);
}

#[test]
fn operations_in_any_order_never_fail() {
    let mut context = ControllerContext::new();
    let mut packet = 0u32;
    for round in 0..50usize {
        let slot = (round * 7) % (MAX_DEVICES + 3);
        let buttons = (round as u16).wrapping_mul(0x1357);
        let caps = if round % 3 == 0 { None } else { Some(capabilities(buttons)) };
        let native = if round % 4 == 0 { None } else { Some(sample(packet, buttons)) };
        match round % 5 {
            0 => {
                context.info(slot, caps);
            }
            1 => {
                context.state(slot, native, caps);
            }
            2 => {
                context.update(slot, native, caps);
            }
            3 => {
                let mut present = [false; MAX_DEVICES];
                present[round % MAX_DEVICES] = true;
                assert_eq!(context.scan_controllers(&present), 1);
            }
            _ => {
                context.needs_capabilities(slot, &native);
            }
        }
        packet += (round % 2) as u32;
    }
    for slot in 0..MAX_DEVICES {
        let info = context.info(slot, Some(capabilities(0xffff)));
        assert_eq!(info.digital_count, 14);
        assert!(info.digital_count <= MAX_DIGITAL);
    }
}

#[test]
fn refreshing_an_info_twice_gives_the_same_info() {
    let mut context = ControllerContext::new();
    let report = capabilities(BUTTON_Y | BUTTON_START);
    let (name, digital, analog) = {
        let info = context.info(6, Some(report));
        (info.name.clone(), info.digital_count, info.analog_count)
    };
    let again = context.info(6, Some(report));
    assert_eq!(again.name, name);
    assert_eq!(again.digital_count, digital);
    assert_eq!(again.analog_count, analog);
    assert_eq!((digital, analog), (2, 2));
    // The table is the same too: slot 0 of the state is still button Y.
    let state = *context.state(6, Some(sample(1, BUTTON_Y)), None);
    assert_eq!(state.digital_state, bits(&[0]));
}

#[test]
fn scanning_twice_gives_the_same_count_and_statuses() {
    let mut context = ControllerContext::new();
    let present = [false, true, true, false, false, true, false, false];
    assert_eq!(context.scan_controllers(&present), 3);
    assert_eq!(context.scan_controllers(&present), 3);
    for slot in 0..MAX_DEVICES {
        let state = *context.state(slot, Some(sample(0, 0)), None);
        assert_eq!(state.status == ControllerStatus::Connected, present[slot]);
    }
}

#[test]
fn the_interface_lends_the_null_info_beyond_the_last_slot() {
    let mut context = ControllerContext::new();
    context.info(0, Some(capabilities(BUTTON_A | BUTTON_B)));
    for slot in [MAX_DEVICES, usize::MAX] {
        for report in [None, Some(capabilities(0xffff))] {
            let info = context.borrow_controller_info(slot, report);
            assert_eq!(info.name, "null");
            assert_eq!(info.digital_count, 0);
            assert_eq!(info.analog_count, 0);
        }
    }
    // Nothing was stored: slot 0 still knows its two buttons, the others none.
    assert!(!context.needs_capabilities(0, &Some(sample(1, 0))));
    for slot in 1..MAX_DEVICES {
        assert!(context.needs_capabilities(slot, &Some(sample(1, 0))));
    }
    let state = *context.state(0, Some(sample(1, BUTTON_A | BUTTON_B | BUTTON_X)), None);
    assert_eq!(state.digital_state, bits(&[0, 1]));
}

#[test]
fn the_interface_lends_the_disconnected_state_beyond_the_last_slot() {
    let mut context = ControllerContext::new();
    assert_eq!(context.get_controller_count(&[true; MAX_DEVICES]), MAX_DEVICES);
    context.info(7, Some(capabilities(BUTTON_A)));
    context.state(7, Some(sample(4, BUTTON_A)), None);
    for slot in [MAX_DEVICES, usize::MAX] {
        for native in [None, Some(sample(9, 0xffff))] {
            let state = *context.borrow_controller_state(slot, native, Some(capabilities(0xffff)));
            assert_eq!(state.status, ControllerStatus::Disconnected);
            assert_eq!(state.sequence, 0);
            assert_eq!(state.digital_state, bits(&[]));
            assert!(state.analog_state.iter().all(|axis| *axis == AxisValue::neutral()));
        }
    }
    // Nothing was stored: every slot is as the scan and the one refresh left it.
    for slot in 0..MAX_DEVICES {
        let sequence = if slot == 7 { 4 } else { 0 };
        let stored = *context.borrow_controller_state(slot, Some(sample(sequence, 0)), None);
        assert_eq!(stored.status, ControllerStatus::Connected);
        assert_eq!(stored.sequence, sequence as usize);
        assert_eq!(stored.digital_state, if slot == 7 { bits(&[0]) } else { bits(&[]) });
    }
}
