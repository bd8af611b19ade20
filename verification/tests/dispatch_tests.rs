use native_dispatch::constants::{
    BN_KILLFOCUS, BN_SETFOCUS, BTN_MOUSE_LEFT, BTN_MOUSE_MIDDLE, BTN_MOUSE_RIGHT, CBN_SELCHANGE,
    EN_CHANGE, EN_MAXTEXT, MOD_MOUSE_CTRL, NWG_DESTROY_NOTICE, WM_ACTIVATEAPP, WM_COMMAND,
    WM_LBUTTONDOWN, WM_LBUTTONUP, WM_MBUTTONDOWN, WM_MBUTTONUP, WM_RBUTTONDOWN, WM_RBUTTONUP,
    WM_SIZE, WM_SIZING,
};
use native_dispatch::dispatch::{handle_events, map_command, map_system_event, HostContext, Payload};
use native_dispatch::events::{ControlType, Event};
use native_dispatch::payload::{handle_btn, handle_sizing, Rect};
use native_dispatch::registry::{ControlRegistry, ControlTreeEntry};

fn plain_host() -> HostContext {
    HostContext { window_rect: Rect { left: 0, top: 0, right: 0, bottom: 0 }, combo_index: 0, combo_label: Vec::new() }
}

fn pack_coords(x: i16, y: i16) -> u64 {
    ((y as u16 as u64) << 16) | (x as u16 as u64)
}

#[test]
fn button_mask_includes_implied_button_for_every_kind() {
    // The generic mask parameter is zero in all six cases.
    let cases = [
        (WM_LBUTTONUP, BTN_MOUSE_LEFT),
        (WM_LBUTTONDOWN, BTN_MOUSE_LEFT),
        (WM_RBUTTONUP, BTN_MOUSE_RIGHT),
        (WM_RBUTTONDOWN, BTN_MOUSE_RIGHT),
        (WM_MBUTTONUP, BTN_MOUSE_MIDDLE),
        (WM_MBUTTONDOWN, BTN_MOUSE_MIDDLE),
    ];
    for (msg, implied) in cases {
        let (_, _, buttons, _) = handle_btn(msg, 0, 0);
        assert_eq!(buttons & implied, implied);
    }
}

#[test]
fn mouse_payload_decodes_coordinates_and_masks() {
    let l = pack_coords(30, 40);
    let w = (MOD_MOUSE_CTRL | BTN_MOUSE_RIGHT) as u64;
    let (x, y, buttons, modifiers) = handle_btn(WM_LBUTTONDOWN, w, l);
    assert_eq!(x, 30);
    assert_eq!(y, 40);
    assert_eq!(buttons, BTN_MOUSE_RIGHT | BTN_MOUSE_LEFT);
    assert_eq!(modifiers, MOD_MOUSE_CTRL);
}

#[test]
fn mouse_payload_decodes_negative_coordinates() {
    let l = pack_coords(-10, -2);
    let (x, y, _, _) = handle_btn(WM_MBUTTONUP, 0, l);
    assert_eq!(x, -10);
    assert_eq!(y, -2);
}

#[test]
fn completed_resize_rectangle_yields_origin_and_extents() {
    let rect = Rect { left: 10, top: 10, right: 110, bottom: 60 };
    assert_eq!(handle_sizing(&rect), (10, 10, 100, 50));
}

#[test]
fn unregistered_command_classifies_unknown_and_invokes_nothing() {
    let mut reg = ControlRegistry::new();
    let (events, target) = map_command(&reg, 42, (EN_CHANGE as u64) << 16, 99);
    assert_eq!(events, vec![Event::Unknown]);
    assert_eq!(target, 42);
    let plan = handle_events(&mut reg, 42, WM_COMMAND, (EN_CHANGE as u64) << 16, 99, &plain_host());
    assert!(plan.is_empty());
}

#[test]
fn command_sub_codes_are_scoped_by_control_type() {
    let mut reg = ControlRegistry::new();
    assert!(reg.insert(7, ControlTreeEntry::new(1, ControlType::TextInput)));
    assert!(reg.insert(8, ControlTreeEntry::new(2, ControlType::Button)));

    let (events, target) = map_command(&reg, 7, (EN_MAXTEXT as u64) << 16, 7);
    assert_eq!(events, vec![Event::MaxValue]);
    assert_eq!(target, 7);

    let (events, _) = map_command(&reg, 7, (EN_CHANGE as u64) << 16, 7);
    assert_eq!(events, vec![Event::ValueChanged]);

    // The same raw sub-codes mean nothing for a button-family control.
    let (events, target) = map_command(&reg, 8, (EN_MAXTEXT as u64) << 16, 8);
    assert_eq!(events, vec![Event::Unknown]);
    assert_eq!(target, 8);
    let (events, _) = map_command(&reg, 8, (EN_CHANGE as u64) << 16, 8);
    assert_eq!(events, vec![Event::Unknown]);
}

#[test]
fn button_family_focus_and_click_commands() {
    let mut reg = ControlRegistry::new();
    assert!(reg.insert(8, ControlTreeEntry::new(2, ControlType::CheckBox)));
    let (events, target) = map_command(&reg, 1, (BN_SETFOCUS as u64) << 16, 8);
    assert_eq!(events, vec![Event::Focus]);
    assert_eq!(target, 8);
    let (events, _) = map_command(&reg, 1, 0, 8);
    assert_eq!(events, vec![Event::Click]);
}

#[test]
fn system_events_map_directly() {
    let reg = ControlRegistry::new();
    let cases = [
        (WM_LBUTTONUP, Event::MouseUp),
        (WM_RBUTTONUP, Event::MouseUp),
        (WM_MBUTTONUP, Event::MouseUp),
        (WM_LBUTTONDOWN, Event::MouseDown),
        (WM_RBUTTONDOWN, Event::MouseDown),
        (WM_MBUTTONDOWN, Event::MouseDown),
        (WM_ACTIVATEAPP, Event::Focus),
        (WM_SIZING, Event::Resize),
        (WM_SIZE, Event::Resize),
        (NWG_DESTROY_NOTICE, Event::Removed),
        (0x9999, Event::Unknown),
    ];
    for (msg, expected) in cases {
        let (events, target) = map_system_event(&reg, 5, msg, 0, 0);
        assert_eq!(events, vec![expected]);
        assert_eq!(target, 5);
    }
}

#[test]
fn combobox_selchange_runs_value_changed_before_selection_changed() {
    let mut reg = ControlRegistry::new();
    let mut combo = ControlTreeEntry::new(11, ControlType::ComboBox);
    // Interleaved registration: order within an event is registration order.
    assert!(combo.register_callback(Event::ValueChanged, 1));
    assert!(combo.register_callback(Event::SelectionChanged, 3));
    assert!(combo.register_callback(Event::ValueChanged, 2));
    assert!(reg.insert(5, combo));

    let host = HostContext {
        window_rect: Rect { left: 0, top: 0, right: 0, bottom: 0 },
        combo_index: 4,
        combo_label: vec![0x48, 0x69, 0],
    };
    let w = (CBN_SELCHANGE as u64) << 16;
    let plan = handle_events(&mut reg, 77, WM_COMMAND, w, 5, &host);

    assert_eq!(plan.len(), 3);
    assert_eq!(plan[0].event, Event::ValueChanged);
    assert_eq!(plan[0].key, 1);
    assert_eq!(plan[1].event, Event::ValueChanged);
    assert_eq!(plan[1].key, 2);
    assert_eq!(plan[2].event, Event::SelectionChanged);
    assert_eq!(plan[2].key, 3);
    for inv in &plan {
        assert_eq!(inv.owner, 11);
    }
    assert_eq!(plan[0].payload, Payload::Plain);
    assert_eq!(plan[2].payload, Payload::Selection { index: 4, text: "Hi".to_string() });
}

#[test]
fn selection_payload_for_empty_label_is_empty_string() {
    let mut reg = ControlRegistry::new();
    let mut combo = ControlTreeEntry::new(1, ControlType::ComboBox);
    assert!(combo.register_callback(Event::SelectionChanged, 9));
    assert!(reg.insert(5, combo));

    let host = HostContext {
        window_rect: Rect { left: 0, top: 0, right: 0, bottom: 0 },
        combo_index: 0,
        combo_label: Vec::new(),
    };
    let plan = handle_events(&mut reg, 5, WM_COMMAND, (CBN_SELCHANGE as u64) << 16, 5, &host);
    assert_eq!(plan.len(), 1);
    assert_eq!(plan[0].payload, Payload::Selection { index: 0, text: String::new() });
}

#[test]
fn resize_in_progress_and_completed_yield_identical_payloads() {
    let rect = Rect { left: 10, top: 10, right: 110, bottom: 60 };
    let mut reg = ControlRegistry::new();
    let mut entry = ControlTreeEntry::new(3, ControlType::Window);
    assert!(entry.register_callback(Event::Resize, 1));
    assert!(reg.insert(6, entry));

    let host = HostContext { window_rect: rect, combo_index: 0, combo_label: Vec::new() };
    let sizing_plan = handle_events(&mut reg, 6, WM_SIZING, 0, 0, &host);
    let size_plan = handle_events(&mut reg, 6, WM_SIZE, 0, 0, &host);
    assert_eq!(sizing_plan, size_plan);
    assert_eq!(sizing_plan.len(), 1);
    assert_eq!(
        sizing_plan[0].payload,
        Payload::Resize { x: 10, y: 10, width: 100, height: 50 }
    );
}

#[test]
fn focus_payloads_follow_sub_code_and_activation_bit() {
    let mut reg = ControlRegistry::new();
    let mut button = ControlTreeEntry::new(2, ControlType::Button);
    assert!(button.register_callback(Event::Focus, 4));
    assert!(reg.insert(9, button));

    let host = plain_host();
    let plan = handle_events(&mut reg, 1, WM_COMMAND, (BN_SETFOCUS as u64) << 16, 9, &host);
    assert_eq!(plan[0].payload, Payload::Focus { gained: true });
    let plan = handle_events(&mut reg, 1, WM_COMMAND, (BN_KILLFOCUS as u64) << 16, 9, &host);
    assert_eq!(plan[0].payload, Payload::Focus { gained: false });

    let plan = handle_events(&mut reg, 9, WM_ACTIVATEAPP, 1, 0, &host);
    assert_eq!(plan[0].payload, Payload::Focus { gained: true });
    let plan = handle_events(&mut reg, 9, WM_ACTIVATEAPP, 0, 0, &host);
    assert_eq!(plan[0].payload, Payload::Focus { gained: false });
}

#[test]
fn mouse_dispatch_carries_coordinates() {
    let mut reg = ControlRegistry::new();
    let mut entry = ControlTreeEntry::new(8, ControlType::Window);
    assert!(entry.register_callback(Event::MouseUp, 1));
    assert!(entry.register_callback(Event::MouseDown, 2));
    assert!(reg.insert(4, entry));

    let host = plain_host();
    let plan = handle_events(&mut reg, 4, WM_LBUTTONUP, 0, pack_coords(12, 34), &host);
    assert_eq!(plan.len(), 1);
    assert_eq!(plan[0].key, 1);
    assert_eq!(
        plan[0].payload,
        Payload::Mouse { x: 12, y: 34, buttons: BTN_MOUSE_LEFT, modifiers: 0 }
    );
}

#[test]
fn destroy_notice_dispatches_removed() {
    let mut reg = ControlRegistry::new();
    let mut entry = ControlTreeEntry::new(8, ControlType::Window);
    assert!(entry.register_callback(Event::Removed, 7));
    assert!(reg.insert(4, entry));
    let plan = handle_events(&mut reg, 4, NWG_DESTROY_NOTICE, 0, 0, &plain_host());
    assert_eq!(plan.len(), 1);
    assert_eq!(plan[0].event, Event::Removed);
    assert_eq!(plan[0].payload, Payload::Plain);
}

#[test]
fn dispatch_leaves_the_control_tree_unchanged() {
    let mut reg = ControlRegistry::new();
    let mut combo = ControlTreeEntry::new(11, ControlType::ComboBox);
    assert!(combo.register_callback(Event::ValueChanged, 1));
    assert!(combo.register_callback(Event::SelectionChanged, 2));
    assert!(reg.insert(5, combo));
    let mut button = ControlTreeEntry::new(12, ControlType::Button);
    assert!(button.register_callback(Event::Click, 3));
    assert!(reg.insert(6, button));

    let before: Vec<(u64, u64, ControlType, Vec<(Event, u64)>)> = reg
        .entries
        .iter()
        .map(|(h, e)| (*h, e.id, e.control_type, e.callbacks.clone()))
        .collect();

    let host = HostContext {
        window_rect: Rect { left: 0, top: 0, right: 4, bottom: 4 },
        combo_index: 1,
        combo_label: vec![0x41, 0],
    };
    let _ = handle_events(&mut reg, 5, WM_COMMAND, (CBN_SELCHANGE as u64) << 16, 5, &host);
    let _ = handle_events(&mut reg, 6, WM_COMMAND, 0, 6, &host);
    let _ = handle_events(&mut reg, 6, WM_SIZE, 0, 0, &host);

    let after: Vec<(u64, u64, ControlType, Vec<(Event, u64)>)> = reg
        .entries
        .iter()
        .map(|(h, e)| (*h, e.id, e.control_type, e.callbacks.clone()))
        .collect();
    assert_eq!(before, after);
}

#[test]
fn registry_refuses_duplicate_handles_and_unknown_registrations() {
    let mut reg = ControlRegistry::new();
    assert!(reg.insert(5, ControlTreeEntry::new(1, ControlType::Label)));
    assert!(!reg.insert(5, ControlTreeEntry::new(2, ControlType::Button)));
    assert!(reg.lookup(5).is_some());
    assert_eq!(reg.lookup(5).unwrap().id, 1);
    assert!(reg.lookup(6).is_none());

    let mut entry = ControlTreeEntry::new(3, ControlType::Window);
    assert!(!entry.register_callback(Event::Unknown, 1));
    assert!(entry.callbacks.is_empty());
}
