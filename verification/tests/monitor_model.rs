use evdev::{AbsoluteAxisCode, EventType};
use evtr::monitor::model::{
    sorted_inputs, AbsoluteAxis, AbsoluteState, AxisOrigin, Bucket, DeviceInput, EventIndex,
    InputBuckets, InputCollection, InputEntries, InputId, InputKind, InputLocation, InputTypeId,
    RawEvent,
};

fn absolute_input(name: &str, value: i32) -> DeviceInput {
    DeviceInput {
        name: name.to_string(),
        input_type: InputKind::Absolute(AbsoluteState::kernel(-10, 10, value)),
    }
}

fn relative_input(name: &str, value: i32) -> DeviceInput {
    DeviceInput {
        name: name.to_string(),
        input_type: InputKind::Relative(value),
    }
}

fn button_input(name: &str, pressed: bool) -> DeviceInput {
    DeviceInput {
        name: name.to_string(),
        input_type: InputKind::Button(pressed),
    }
}

fn buckets() -> InputBuckets {
    InputBuckets {
        absolute: vec![absolute_input("abs_x", 4)],
        relative: vec![relative_input("rel_x", 3)],
        buttons: vec![button_input("south", true)],
    }
}

fn names(inputs: &[DeviceInput]) -> Vec<&str> {
    inputs.iter().map(|input| input.name.as_str()).collect()
}

#[test]
fn from_entries_preserves_sorted_category_order() {
    let inputs = InputCollection::from_entries(
        vec![(4, absolute_input("abs_z", 0)), (1, absolute_input("abs_x", 0))],
        vec![(3, relative_input("rel_y", 0)), (2, relative_input("rel_x", 0))],
        vec![(9, button_input("east", false)), (1, button_input("south", false))],
    );

    assert_eq!(names(inputs.absolute_inputs()), vec!["abs_x", "abs_z"]);
    assert_eq!(names(inputs.relative_inputs()), vec!["rel_x", "rel_y"]);
    assert_eq!(names(inputs.button_inputs()), vec!["south", "east"]);
}

#[test]
fn from_entries_builds_event_index_for_each_bucket() {
    let inputs = InputCollection::from_entries(
        vec![(4, absolute_input("abs_z", 0)), (1, absolute_input("abs_x", 0))],
        vec![(3, relative_input("rel_y", 0)), (2, relative_input("rel_x", 0))],
        vec![(9, button_input("east", false)), (1, button_input("south", false))],
    );

    assert_eq!(
        inputs.event_index.location_for(InputId::absolute(1)),
        Some(InputLocation::Absolute(0))
    );
    assert_eq!(
        inputs.event_index.location_for(InputId::absolute(4)),
        Some(InputLocation::Absolute(1))
    );
    assert_eq!(
        inputs.event_index.location_for(InputId::relative(2)),
        Some(InputLocation::Relative(0))
    );
    assert_eq!(
        inputs.event_index.location_for(InputId::key_code(9)),
        Some(InputLocation::Button(1))
    );
}

#[test]
fn handle_event_routes_updates_to_each_category() {
    let mut inputs = InputCollection::from_entries(
        vec![(0, absolute_input("abs_x", 1))],
        vec![(1, relative_input("rel_x", 2))],
        vec![(2, button_input("south", false))],
    );

    inputs.handle_event(&RawEvent::new(EventType::ABSOLUTE.0, 0, 7));
    inputs.handle_event(&RawEvent::new(EventType::RELATIVE.0, 1, 3));
    inputs.handle_event(&RawEvent::new(EventType::KEY.0, 2, 1));

    assert_eq!(
        inputs.absolute_inputs()[0].input_type,
        InputKind::Absolute(AbsoluteState::kernel(-10, 10, 7))
    );
    assert_eq!(inputs.relative_inputs()[0].input_type, InputKind::Relative(5));
    assert_eq!(inputs.button_inputs()[0].input_type, InputKind::Button(true));
}

#[test]
fn reset_relative_axes_only_clears_relative_values() {
    let mut inputs = InputCollection::from_entries(
        vec![(0, absolute_input("abs_x", 4))],
        vec![(1, relative_input("rel_x", 5)), (2, relative_input("rel_y", -2))],
        vec![(3, button_input("south", true))],
    );

    inputs.reset_relative_axes();

    assert_eq!(
        inputs
            .relative_inputs()
            .iter()
            .map(|input| &input.input_type)
            .collect::<Vec<_>>(),
        vec![&InputKind::Relative(0), &InputKind::Relative(0)]
    );
    assert_eq!(
        inputs.absolute_inputs()[0].input_type,
        InputKind::Absolute(AbsoluteState::kernel(-10, 10, 4))
    );
    assert_eq!(inputs.button_inputs()[0].input_type, InputKind::Button(true));
}

#[test]
fn absolute_axis_pair_reads_absolute_inputs_from_event_index() {
    let inputs = InputCollection::from_entries(
        vec![
            (AbsoluteAxisCode::ABS_Y.0, absolute_input("abs_y", -3)),
            (AbsoluteAxisCode::ABS_X.0, absolute_input("abs_x", 4)),
        ],
        Vec::new(),
        Vec::new(),
    );

    let pair = inputs.absolute_axis_pair(AbsoluteAxisCode::ABS_X.0, AbsoluteAxisCode::ABS_Y.0);

    assert_eq!(
        pair,
        Some((
            AbsoluteAxis { min: -10, max: 10, value: 4 },
            AbsoluteAxis { min: -10, max: 10, value: -3 }
        ))
    );
}

#[test]
fn into_buckets_and_index_sorts_inputs_and_records_locations() {
    let entries = InputEntries::new(
        vec![(4, absolute_input("abs_z", 0)), (1, absolute_input("abs_x", 1))],
        vec![(3, relative_input("rel_y", 0)), (2, relative_input("rel_x", 2))],
        vec![(9, button_input("east", false)), (1, button_input("south", true))],
    );

    let (buckets, index) = entries.into_buckets_and_index();

    assert_eq!(buckets.absolute[0].name, "abs_x");
    assert_eq!(buckets.absolute[1].name, "abs_z");
    assert_eq!(buckets.relative[0].name, "rel_x");
    assert_eq!(buckets.buttons[0].name, "south");
    assert_eq!(index.location_for(InputId::absolute(1)), Some(InputLocation::Absolute(0)));
    assert_eq!(index.location_for(InputId::relative(3)), Some(InputLocation::Relative(1)));
    assert_eq!(index.location_for(InputId::key_code(9)), Some(InputLocation::Button(1)));
}

#[test]
fn input_and_input_mut_use_the_requested_bucket_location() {
    let mut buckets = buckets();

    assert_eq!(
        buckets.input(InputLocation::Absolute(0)).map(|input| input.name.as_str()),
        Some("abs_x")
    );
    assert_eq!(
        buckets.input(InputLocation::Relative(0)).map(|input| input.name.as_str()),
        Some("rel_x")
    );
    assert_eq!(
        buckets.input(InputLocation::Button(0)).map(|input| input.name.as_str()),
        Some("south")
    );
    assert!(buckets.input(InputLocation::Button(1)).is_none());

    if let Some(input) = buckets.input_mut(InputLocation::Relative(0)) {
        input.name = "rel_dx".to_string();
    }

    assert_eq!(
        buckets.input(InputLocation::Relative(0)).map(|input| input.name.as_str()),
        Some("rel_dx")
    );
}

#[test]
fn absolute_axis_returns_none_for_non_absolute_locations() {
    let buckets = buckets();

    assert_eq!(
        buckets.absolute_axis(InputLocation::Absolute(0)),
        Some(AbsoluteAxis { min: -10, max: 10, value: 4 })
    );
    assert_eq!(buckets.absolute_axis(InputLocation::Relative(0)), None);
    assert_eq!(buckets.absolute_axis(InputLocation::Button(0)), None);
}

#[test]
fn reset_relative_axes_only_clears_relative_bucket_values() {
    let mut buckets = buckets();

    buckets.reset_relative_axes();

    assert_eq!(buckets.relative[0].input_type, InputKind::Relative(0));
    assert_eq!(
        buckets.absolute[0].input_type,
        InputKind::Absolute(AbsoluteState::kernel(-10, 10, 4))
    );
    assert_eq!(buckets.buttons[0].input_type, InputKind::Button(true));
}

#[test]
fn sorted_inputs_returns_grouped_order_and_populates_the_event_index() {
    let mut index = EventIndex::new();

    let inputs = sorted_inputs(
        vec![
            (5, relative_input("rel_z", 0)),
            (1, relative_input("rel_x", 0)),
            (3, relative_input("rel_y", 0)),
        ],
        Bucket::Relative,
        &mut index,
    );

    assert_eq!(names(&inputs), vec!["rel_x", "rel_y", "rel_z"]);
    assert_eq!(index.location_for(InputId::relative(1)), Some(InputLocation::Relative(0)));
    assert_eq!(index.location_for(InputId::relative(3)), Some(InputLocation::Relative(1)));
    assert_eq!(index.location_for(InputId::relative(5)), Some(InputLocation::Relative(2)));
}

#[test]
fn location_for_returns_inserted_location() {
    let mut index = EventIndex::new();
    index.insert(InputId::absolute(4), InputLocation::Absolute(2));

    assert_eq!(index.location_for(InputId::absolute(4)), Some(InputLocation::Absolute(2)));
}

#[test]
fn location_for_returns_none_for_unknown_input_id() {
    let index = EventIndex::new();

    assert_eq!(index.location_for(InputId::relative(1)), None);
}

#[test]
fn insert_overwrites_existing_location_for_same_input_id() {
    let mut index = EventIndex::new();
    index.insert(InputId::key_code(7), InputLocation::Button(0));
    index.insert(InputId::key_code(7), InputLocation::Button(3));

    assert_eq!(index.location_for(InputId::key_code(7)), Some(InputLocation::Button(3)));
}

#[test]
fn absolute_state_preserves_origin() {
    assert_eq!(AbsoluteState::kernel(-1, 1, 0).origin, AxisOrigin::Kernel);
    assert_eq!(AbsoluteState::fallback(-1, 1, 0).origin, AxisOrigin::Fallback);
}

#[test]
fn input_id_helpers_use_named_fields() {
    assert_eq!(InputId::absolute(1), InputId { kind: InputTypeId::Abs, code: 1 });
    assert_eq!(InputId::relative(2), InputId { kind: InputTypeId::Rel, code: 2 });
    assert_eq!(InputId::key_code(3), InputId { kind: InputTypeId::Key, code: 3 });
}

#[test]
fn input_kind_update_routes_by_event_type() {
    let mut absolute = InputKind::Absolute(AbsoluteState::kernel(-1, 1, 0));
    let mut relative = InputKind::Relative(0);
    let mut button = InputKind::Button(false);

    absolute.update(&RawEvent::new(EventType::ABSOLUTE.0, AbsoluteAxisCode::ABS_X.0, 1));
    relative.update(&RawEvent::new(EventType::RELATIVE.0, 0, 3));
    button.update(&RawEvent::new(EventType::KEY.0, 0, 1));

    assert_eq!(absolute, InputKind::Absolute(AbsoluteState::kernel(-1, 1, 1)));
    assert_eq!(relative, InputKind::Relative(3));
    assert_eq!(button, InputKind::Button(true));
}

#[test]
fn input_kind_update_ignores_events_of_another_type() {
    let mut relative = InputKind::Relative(4);
    relative.update(&RawEvent::new(EventType::KEY.0, 0, 1));
    assert_eq!(relative, InputKind::Relative(4));
}

#[test]
fn relative_updates_saturate_instead_of_wrapping() {
    let mut relative = InputKind::Relative(i32::MAX - 1);
    relative.update(&RawEvent::new(EventType::RELATIVE.0, 0, 5));
    assert_eq!(relative, InputKind::Relative(i32::MAX));
}

#[test]
fn display_label_formats_each_kind() {
    assert_eq!(InputKind::Absolute(AbsoluteState::kernel(-1, 1, -7)).display_label(), "-7");
    assert_eq!(InputKind::Relative(1250).display_label(), "250");
    assert_eq!(InputKind::Relative(-600).display_label(), "400");
    assert_eq!(InputKind::Button(true).display_label(), "ON");
    assert_eq!(InputKind::Button(false).display_label(), "OFF");
}

#[test]
fn input_id_from_event_names_the_category() {
    assert_eq!(
        InputId::from_event(&RawEvent::new(EventType::RELATIVE.0, 8, 1)),
        Some(InputId::relative(8))
    );
    assert_eq!(InputId::from_event(&RawEvent::new(0, 0, 0)), None);
}

#[test]
fn index_routes_duplicate_free_entries_to_their_inputs() {
    let inputs = InputCollection::from_entries(
        vec![(7, absolute_input("abs_a", 1)), (2, absolute_input("abs_b", 2))],
        vec![(7, relative_input("rel_a", 3))],
        vec![(7, button_input("btn_a", true))],
    );
    let abs = inputs.location_for(InputId::absolute(7)).unwrap();
    let rel = inputs.location_for(InputId::relative(7)).unwrap();
    let key = inputs.location_for(InputId::key_code(7)).unwrap();
    assert_eq!(inputs.buckets.input(abs).unwrap().name, "abs_a");
    assert_eq!(inputs.buckets.input(rel).unwrap().name, "rel_a");
    assert_eq!(inputs.buckets.input(key).unwrap().name, "btn_a");
}
