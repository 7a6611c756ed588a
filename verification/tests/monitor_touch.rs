use evdev::{AbsoluteAxisCode, EventType, KeyCode};
use evtr::monitor::model::{AxisSnapshot, RawEvent};
use evtr::monitor::touch::detect::{
    has_touch_properties, touch_bootstrap, TouchAxes, TouchHint, TouchSignature,
};
use evtr::monitor::touch::{
    preferred_touch_contact_key, update_tracking_id, MultiTouchSlots, TouchMode, TouchRange,
    TouchSlot, TouchState,
};

fn abs(axis: AbsoluteAxisCode, value: i32) -> RawEvent {
    RawEvent::new(EventType::ABSOLUTE.0, axis.0, value)
}

fn key(code: KeyCode, value: i32) -> RawEvent {
    RawEvent::new(EventType::KEY.0, code.0, value)
}

fn single_touch_state(contact_key: Option<KeyCode>) -> TouchState {
    TouchState::from_parts(
        TouchMode::SingleTouch { contact_key: contact_key.map(|k| k.0) },
        None,
        TouchRange::fixed(0, 100),
        TouchRange::fixed(0, 100),
    )
}

fn pending_single_touch_state(contact_key: Option<KeyCode>) -> TouchState {
    TouchState::from_parts(
        TouchMode::SingleTouch { contact_key: contact_key.map(|k| k.0) },
        None,
        TouchRange::Unknown,
        TouchRange::Unknown,
    )
}

fn multi_touch_state() -> TouchState {
    TouchState::from_parts(
        TouchMode::MultiTouch { slots: MultiTouchSlots::Explicit },
        Some(2),
        TouchRange::fixed(0, 100),
        TouchRange::fixed(0, 100),
    )
}

fn pending_multi_touch_state() -> TouchState {
    TouchState::from_parts(
        TouchMode::MultiTouch { slots: MultiTouchSlots::Explicit },
        None,
        TouchRange::Unknown,
        TouchRange::Unknown,
    )
}

fn three_slot_state() -> TouchState {
    TouchState::from_parts(
        TouchMode::MultiTouch { slots: MultiTouchSlots::Explicit },
        Some(3),
        TouchRange::fixed(0, 100),
        TouchRange::fixed(0, 100),
    )
}

#[test]
fn touch_signature_prefers_multi_touch_when_available() {
    let signature = TouchSignature {
        axes: TouchAxes::MultiTouch { slots: MultiTouchSlots::Explicit },
        hint: TouchHint::ContactKey(KeyCode::BTN_TOUCH.0),
    };

    assert_eq!(signature.mode(), TouchMode::MultiTouch { slots: MultiTouchSlots::Explicit });
}

#[test]
fn touch_signature_requires_touch_hint_for_single_touch() {
    let without_hint = TouchSignature { axes: TouchAxes::SingleTouch, hint: TouchHint::NoHint };
    let with_key = TouchSignature { hint: TouchHint::ContactKey(KeyCode::BTN_TOUCH.0), ..without_hint };

    assert_eq!(without_hint.mode(), TouchMode::NoTouch);
    assert_eq!(
        with_key.mode(),
        TouchMode::SingleTouch { contact_key: Some(KeyCode::BTN_TOUCH.0) }
    );
}

#[test]
fn touch_range_observe_tracks_min_and_max() {
    let mut range = TouchRange::Unknown;

    range.observe(10);
    range.observe(4);
    range.observe(12);

    assert_eq!(range.range(), Some((4, 12)));
}

#[test]
fn touch_range_observe_preserves_fixed_bounds() {
    let mut range = TouchRange::fixed(0, 100);

    range.observe(-10);
    range.observe(120);

    assert_eq!(range.range(), Some((0, 100)));
}

#[test]
fn preferred_touch_contact_key_prefers_btn_touch() {
    let keys = vec![KeyCode::BTN_TOOL_FINGER.0, KeyCode::BTN_TOUCH.0];

    assert_eq!(preferred_touch_contact_key(&keys), Some(KeyCode::BTN_TOUCH.0));
    assert_eq!(
        preferred_touch_contact_key(&[KeyCode::BTN_TOOL_FINGER.0]),
        Some(KeyCode::BTN_TOOL_FINGER.0)
    );
    assert_eq!(preferred_touch_contact_key(&[KeyCode::BTN_SOUTH.0]), None);
}

#[test]
fn touch_axes_match_touch_mode() {
    assert_eq!(
        TouchMode::SingleTouch { contact_key: None }.axes(),
        Some((AbsoluteAxisCode::ABS_X.0, AbsoluteAxisCode::ABS_Y.0))
    );
    assert_eq!(
        TouchMode::MultiTouch { slots: MultiTouchSlots::Explicit }.axes(),
        Some((AbsoluteAxisCode::ABS_MT_POSITION_X.0, AbsoluteAxisCode::ABS_MT_POSITION_Y.0))
    );
    assert_eq!(TouchMode::NoTouch.axes(), None);
}

#[test]
fn slot_limit_uses_explicit_slot_mode() {
    assert_eq!(
        TouchMode::MultiTouch { slots: MultiTouchSlots::ImplicitSingle }.slot_limit(None),
        Some(1)
    );
    assert_eq!(
        TouchMode::MultiTouch { slots: MultiTouchSlots::Explicit }.slot_limit(Some(4)),
        Some(4)
    );
}

#[test]
fn single_touch_with_contact_key_moves_between_active_and_inactive_points() {
    let mut state = single_touch_state(Some(KeyCode::BTN_TOUCH));

    state.update(&key(KeyCode::BTN_TOUCH, 1));
    state.update(&abs(AbsoluteAxisCode::ABS_X, 25));
    state.update(&abs(AbsoluteAxisCode::ABS_Y, 75));

    assert_eq!(state.active_points(), vec![(25, 75)]);
    assert!(state.inactive_points().is_empty());

    state.update(&key(KeyCode::BTN_TOUCH, 0));

    assert!(state.active_points().is_empty());
    assert_eq!(state.inactive_points(), vec![(25, 75)]);
}

#[test]
fn single_touch_without_contact_key_arms_on_position_updates() {
    let mut state = single_touch_state(None);

    state.update(&abs(AbsoluteAxisCode::ABS_X, 10));
    state.update(&abs(AbsoluteAxisCode::ABS_Y, 20));

    assert_eq!(state.active_points(), vec![(10, 20)]);
    assert!(state.inactive_points().is_empty());
}

#[test]
fn pending_touch_ranges_become_renderable_after_events_arrive() {
    let mut state = pending_single_touch_state(None);

    assert!(state.is_touch_device());
    assert!(!state.enabled());

    state.update(&abs(AbsoluteAxisCode::ABS_X, 10));
    assert!(!state.enabled());
    assert_eq!(state.x_range(), Some((10, 10)));
    assert_eq!(state.y_range(), None);

    state.update(&abs(AbsoluteAxisCode::ABS_Y, 20));
    state.update(&abs(AbsoluteAxisCode::ABS_X, 5));
    state.update(&abs(AbsoluteAxisCode::ABS_Y, 25));

    assert!(state.enabled());
    assert_eq!(state.x_range(), Some((5, 10)));
    assert_eq!(state.y_range(), Some((20, 25)));
    assert_eq!(state.active_points(), vec![(5, 25)]);
}

#[test]
fn pending_multi_touch_state_grows_slots_from_events() {
    let mut state = pending_multi_touch_state();

    state.update(&abs(AbsoluteAxisCode::ABS_MT_SLOT, 2));
    state.update(&abs(AbsoluteAxisCode::ABS_MT_TRACKING_ID, 42));
    state.update(&abs(AbsoluteAxisCode::ABS_MT_POSITION_X, 40));
    state.update(&abs(AbsoluteAxisCode::ABS_MT_POSITION_Y, 60));

    assert_eq!(state.slots().len(), 3);
    assert!(state.enabled());
    assert_eq!(state.x_range(), Some((40, 40)));
    assert_eq!(state.y_range(), Some((60, 60)));
    assert_eq!(state.active_points(), vec![(40, 60)]);
}

#[test]
fn multi_touch_slot_selection_stays_within_declared_limit() {
    let mut state = multi_touch_state();

    state.update(&abs(AbsoluteAxisCode::ABS_MT_SLOT, 1));
    assert_eq!(state.current_slot(), 1);

    state.update(&abs(AbsoluteAxisCode::ABS_MT_SLOT, 5));

    assert_eq!(state.current_slot(), 1);
    assert_eq!(state.slots().len(), 2);
}

#[test]
fn multi_touch_release_keeps_last_position_as_inactive_point() {
    let mut state = multi_touch_state();

    state.update(&abs(AbsoluteAxisCode::ABS_MT_SLOT, 1));
    state.update(&abs(AbsoluteAxisCode::ABS_MT_TRACKING_ID, 42));
    state.update(&abs(AbsoluteAxisCode::ABS_MT_POSITION_X, 40));
    state.update(&abs(AbsoluteAxisCode::ABS_MT_POSITION_Y, 60));

    assert_eq!(state.active_points(), vec![(40, 60)]);

    state.update(&abs(AbsoluteAxisCode::ABS_MT_TRACKING_ID, -1));

    assert!(state.active_points().is_empty());
    assert_eq!(state.inactive_points(), vec![(40, 60)]);
}

#[test]
fn apply_ignores_non_absolute_events() {
    let mut state = three_slot_state();

    state.update(&key(KeyCode::BTN_TOUCH, 1));

    assert_eq!(state.current_slot(), 0);
    assert!(state.active_points().is_empty());
}

#[test]
fn apply_ignores_unrelated_absolute_axes() {
    let mut state = three_slot_state();

    state.update(&abs(AbsoluteAxisCode::ABS_X, 77));

    assert_eq!(state.current_slot(), 0);
    assert!(state.active_points().is_empty());
}

#[test]
fn apply_updates_selected_slot_tracking_and_position() {
    let mut state = three_slot_state();

    state.update(&abs(AbsoluteAxisCode::ABS_MT_SLOT, 2));
    assert_eq!(state.current_slot(), 2);

    state.update(&abs(AbsoluteAxisCode::ABS_MT_TRACKING_ID, 42));
    assert_eq!(state.slots()[2].tracking_id, Some(42));
    assert_eq!(state.slots()[2].x, None);
    assert_eq!(state.slots()[2].y, None);

    state.update(&abs(AbsoluteAxisCode::ABS_MT_POSITION_X, 11));
    assert_eq!(state.slots()[2].x, Some(11));
    assert_eq!(state.slots()[2].y, None);

    state.update(&abs(AbsoluteAxisCode::ABS_MT_POSITION_Y, 22));
    assert_eq!(state.slots()[2].y, Some(22));
    assert_eq!(state.active_points(), vec![(11, 22)]);
}

#[test]
fn apply_release_keeps_last_position_as_inactive_point() {
    let mut state = three_slot_state();

    state.update(&abs(AbsoluteAxisCode::ABS_MT_SLOT, 1));
    state.update(&abs(AbsoluteAxisCode::ABS_MT_TRACKING_ID, 7));
    state.update(&abs(AbsoluteAxisCode::ABS_MT_POSITION_X, 31));
    state.update(&abs(AbsoluteAxisCode::ABS_MT_POSITION_Y, 41));
    state.update(&abs(AbsoluteAxisCode::ABS_MT_TRACKING_ID, -1));

    assert!(state.active_points().is_empty());
    assert_eq!(state.inactive_points(), vec![(31, 41)]);
}

#[test]
fn apply_sequence_keeps_updates_scoped_to_the_selected_slot() {
    let mut state = three_slot_state();

    state.update(&abs(AbsoluteAxisCode::ABS_MT_SLOT, 1));
    state.update(&abs(AbsoluteAxisCode::ABS_MT_TRACKING_ID, 100));
    state.update(&abs(AbsoluteAxisCode::ABS_MT_POSITION_X, 40));
    state.update(&abs(AbsoluteAxisCode::ABS_MT_POSITION_Y, 60));

    state.update(&abs(AbsoluteAxisCode::ABS_MT_SLOT, 0));
    state.update(&abs(AbsoluteAxisCode::ABS_MT_TRACKING_ID, 200));
    state.update(&abs(AbsoluteAxisCode::ABS_MT_POSITION_X, 10));
    state.update(&abs(AbsoluteAxisCode::ABS_MT_POSITION_Y, 20));

    assert_eq!(state.active_points(), vec![(10, 20), (40, 60)]);
    assert_eq!(state.slots()[0].tracking_id, Some(200));
    assert_eq!(state.slots()[1].tracking_id, Some(100));
}

#[test]
fn disabled_state_ignores_every_event() {
    let mut state = TouchState::disabled();
    state.update(&abs(AbsoluteAxisCode::ABS_X, 3));
    assert!(!state.is_touch_device());
    assert!(state.slots().is_empty());
    assert!(state.active_points().is_empty());
    assert!(state.inactive_points().is_empty());
    assert_eq!(state.ranges(), None);
}

#[test]
fn single_touch_without_key_starts_with_a_touching_first_slot() {
    let state = single_touch_state(None);
    assert_eq!(state.slots()[0].tracking_id, Some(0));
    assert_eq!(state.slot_limit(), Some(1));
}

#[test]
fn update_tracking_id_clears_the_position_of_a_new_contact() {
    let mut slot = TouchSlot { tracking_id: None, x: Some(1), y: Some(2) };
    update_tracking_id(&mut slot, None, true);
    assert_eq!(slot, TouchSlot { tracking_id: None, x: Some(1), y: Some(2) });
    update_tracking_id(&mut slot, Some(5), false);
    assert_eq!(slot, TouchSlot { tracking_id: Some(5), x: Some(1), y: Some(2) });
    update_tracking_id(&mut slot, Some(6), true);
    assert_eq!(slot, TouchSlot { tracking_id: Some(6), x: None, y: None });
}

#[test]
fn touch_detection_reads_axes_keys_and_properties() {
    let mt = [AbsoluteAxisCode::ABS_MT_POSITION_X.0, AbsoluteAxisCode::ABS_MT_POSITION_Y.0];
    assert_eq!(
        TouchAxes::from_axes(&mt),
        TouchAxes::MultiTouch { slots: MultiTouchSlots::ImplicitSingle }
    );
    let plain = [AbsoluteAxisCode::ABS_X.0, AbsoluteAxisCode::ABS_Y.0];
    assert_eq!(TouchAxes::from_axes(&plain), TouchAxes::SingleTouch);
    assert_eq!(TouchAxes::from_axes(&[AbsoluteAxisCode::ABS_X.0]), TouchAxes::NoAxes);

    assert!(has_touch_properties(&[0x01]));
    assert!(!has_touch_properties(&[0x00]));
    assert_eq!(TouchHint::from_parts(None, &[0x02]), TouchHint::Property);
    assert_eq!(TouchHint::from_parts(Some(&[KeyCode::BTN_SOUTH.0]), &[]), TouchHint::NoHint);

    let signature = TouchSignature::from_parts(Some(&plain), Some(&[KeyCode::BTN_TOUCH.0]), &[]);
    assert_eq!(
        signature.map(|s| s.mode()),
        Some(TouchMode::SingleTouch { contact_key: Some(KeyCode::BTN_TOUCH.0) })
    );
    assert_eq!(TouchSignature::from_parts(None, None, &[]), None);
}

#[test]
fn touch_bootstrap_reads_ranges_and_slot_limit() {
    let mut table = vec![AxisSnapshot { min: 0, max: 0, value: 0 }; 0x40];
    table[AbsoluteAxisCode::ABS_MT_POSITION_X.0 as usize] = AxisSnapshot { min: 0, max: 1000, value: 0 };
    table[AbsoluteAxisCode::ABS_MT_POSITION_Y.0 as usize] = AxisSnapshot { min: 0, max: 500, value: 0 };
    table[AbsoluteAxisCode::ABS_MT_SLOT.0 as usize] = AxisSnapshot { min: 0, max: 9, value: 0 };
    let mode = TouchMode::MultiTouch { slots: MultiTouchSlots::Explicit };

    let boot = touch_bootstrap(mode, Ok(&table));
    assert_eq!(boot.x_range, TouchRange::Fixed { min: 0, max: 1000 });
    assert_eq!(boot.y_range, TouchRange::Fixed { min: 0, max: 500 });
    assert_eq!(boot.slot_limit, Some(10));
    assert!(boot.startup_warnings.is_empty());

    let failed = touch_bootstrap(mode, Err("permission denied".to_string()));
    assert_eq!(failed.x_range, TouchRange::Unknown);
    assert_eq!(failed.slot_limit, None);
    assert_eq!(
        failed.startup_warnings,
        vec![
            "unable to load touch axis state; inferring touch bounds from incoming events: permission denied"
                .to_string()
        ]
    );

    let short = touch_bootstrap(mode, Ok(&table[0..0x36]));
    assert_eq!(short.y_range, TouchRange::Unknown);
    assert_eq!(
        short.startup_warnings,
        vec!["touch position range is unavailable; inferring touch bounds from incoming events".to_string()]
    );
}
