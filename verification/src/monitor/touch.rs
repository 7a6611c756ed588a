pub mod detect;

use vstd::prelude::*;

use crate::monitor::codes::{
    contains_code, ABS_MT_POSITION_X, ABS_MT_POSITION_Y, ABS_MT_SLOT, ABS_MT_TRACKING_ID, ABS_X,
    ABS_Y, BTN_TOOL_FINGER, BTN_TOUCH,
};
use crate::monitor::model::{RawEvent, EV_ABS, EV_KEY};

verus! {

/// One contact: its tracking id while it touches, and its last position.
#[derive(Clone, Copy, Debug, PartialEq, Eq)]
pub struct TouchSlot {
    pub tracking_id: Option<i32>,
    pub x: Option<i32>,
    pub y: Option<i32>,
}

pub open spec fn empty_slot() -> TouchSlot {
    TouchSlot { tracking_id: None, x: None, y: None }
}

impl TouchSlot {
    pub fn empty() -> (s: Self)
        ensures
            s == empty_slot(),
    {
        TouchSlot { tracking_id: None, x: None, y: None }
    }
}

/// The span of a touch coordinate: unknown, given by the device, or widened
/// from the values seen so far.
#[derive(Clone, Copy, Debug, PartialEq, Eq)]
pub enum TouchRange {
    Unknown,
    Fixed { min: i32, max: i32 },
    Observed { min: i32, max: i32 },
}

impl TouchRange {
    pub fn fixed(min: i32, max: i32) -> (r: Self)
        ensures
            r == (TouchRange::Fixed { min, max }),
    {
        TouchRange::Fixed { min, max }
    }

    pub open spec fn spec_range(self) -> Option<(i32, i32)> {
        match self {
            TouchRange::Unknown => None,
            TouchRange::Fixed { min, max } => Some((min, max)),
            TouchRange::Observed { min, max } => Some((min, max)),
        }
    }

    pub fn range(&self) -> (r: Option<(i32, i32)>)
        ensures
            r == self.spec_range(),
    {
        match *self {
            TouchRange::Unknown => None,
            TouchRange::Fixed { min, max } => Some((min, max)),
            TouchRange::Observed { min, max } => Some((min, max)),
        }
    }

    pub fn is_known(&self) -> (b: bool)
        ensures
            b == self.spec_range().is_some(),
    {
        self.range().is_some()
    }

    /// The range after seeing `value`: an unknown range starts at it, an
    /// observed one widens to cover it, a fixed one stays.
    pub open spec fn spec_observe(self, value: i32) -> TouchRange {
        match self {
            TouchRange::Unknown => TouchRange::Observed { min: value, max: value },
            TouchRange::Observed { min, max } => TouchRange::Observed {
                min: if value < min { value } else { min },
                max: if value > max { value } else { max },
            },
            TouchRange::Fixed { min, max } => self,
        }
    }

    pub fn observe(&mut self, value: i32)
        ensures
            *final(self) == old(self).spec_observe(value),
    {
        match *self {
            TouchRange::Unknown => {
                *self = TouchRange::Observed { min: value, max: value };
            },
            TouchRange::Observed { min, max } => {
                let lo = if value < min { value } else { min };
                let hi = if value > max { value } else { max };
                *self = TouchRange::Observed { min: lo, max: hi };
            },
            TouchRange::Fixed { .. } => {},
        }
    }
}

/// How a multi-touch device addresses its contacts.
#[derive(Clone, Copy, Debug, PartialEq, Eq)]
pub enum MultiTouchSlots {
    /// No slot axis: one contact at a time.
    ImplicitSingle,
    /// Contacts are selected through the slot axis.
    Explicit,
}

/// The kind of touch reporting a device uses; `SingleTouch` names the key
/// that signals contact, where the device has one.
#[derive(Clone, Copy, Debug, PartialEq, Eq)]
pub enum TouchMode {
    NoTouch,
    MultiTouch { slots: MultiTouchSlots },
    SingleTouch { contact_key: Option<u16> },
}

impl TouchMode {
    pub open spec fn spec_axes(self) -> Option<(u16, u16)> {
        match self {
            TouchMode::MultiTouch { .. } => Some((ABS_MT_POSITION_X, ABS_MT_POSITION_Y)),
            TouchMode::SingleTouch { .. } => Some((ABS_X, ABS_Y)),
            TouchMode::NoTouch => None,
        }
    }

    /// The absolute axes that carry the contact position.
    pub fn axes(self) -> (r: Option<(u16, u16)>)
        ensures
            r == self.spec_axes(),
    {
        match self {
            TouchMode::MultiTouch { .. } => Some((ABS_MT_POSITION_X, ABS_MT_POSITION_Y)),
            TouchMode::SingleTouch { .. } => Some((ABS_X, ABS_Y)),
            TouchMode::NoTouch => None,
        }
    }

    pub fn is_touch_device(self) -> (b: bool)
        ensures
            b == !(self is NoTouch),
    {
        !matches!(self, TouchMode::NoTouch)
    }

    pub fn uses_explicit_slots(self) -> (b: bool)
        ensures
            b == (self == TouchMode::MultiTouch { slots: MultiTouchSlots::Explicit }),
    {
        matches!(self, TouchMode::MultiTouch { slots: MultiTouchSlots::Explicit })
    }

    pub open spec fn spec_slot_limit(self, detected_limit: Option<usize>) -> Option<usize> {
        match self {
            TouchMode::NoTouch => Some(0),
            TouchMode::SingleTouch { .. } => Some(1),
            TouchMode::MultiTouch { slots } => match slots {
                MultiTouchSlots::ImplicitSingle => Some(1),
                MultiTouchSlots::Explicit => detected_limit,
            },
        }
    }

    /// The number of contacts the mode allows: none without touch, one without
    /// a slot axis, else what the device declares (`None`: unbounded).
    pub fn slot_limit(self, detected_limit: Option<usize>) -> (r: Option<usize>)
        ensures
            r == self.spec_slot_limit(detected_limit),
    {
        match self {
            TouchMode::NoTouch => Some(0),
            TouchMode::SingleTouch { .. } => Some(1),
            TouchMode::MultiTouch { slots } => match slots {
                MultiTouchSlots::ImplicitSingle => Some(1),
                MultiTouchSlots::Explicit => detected_limit,
            },
        }
    }

    pub open spec fn spec_slot_count(self, slot_limit: Option<usize>) -> nat {
        match self {
            TouchMode::NoTouch => 0,
            _ => match slot_limit {
                Some(l) => if l > 1 { l as nat } else { 1 },
                None => 1,
            },
        }
    }

    /// The number of slots a state starts with.
    pub fn slot_count(self, slot_limit: Option<usize>) -> (r: usize)
        ensures
            r == self.spec_slot_count(slot_limit),
    {
        match self {
            TouchMode::NoTouch => 0,
            _ => match slot_limit {
                Some(l) => if l > 1 { l } else { 1 },
                None => 1,
            },
        }
    }

    pub open spec fn spec_seeds_primary_tracking(self) -> bool {
        self == TouchMode::SingleTouch { contact_key: None }
    }

    /// Whether the first slot starts as touching: a single-touch device
    /// without a contact key reports positions only while touched.
    pub fn seeds_primary_tracking(self) -> (b: bool)
        ensures
            b == self.spec_seeds_primary_tracking(),
    {
        matches!(self, TouchMode::SingleTouch { contact_key: None })
    }
}

/// The slot after its tracking id is set; a new contact forgets the old
/// position when `clear_position` asks for it.
pub open spec fn retracked(slot: TouchSlot, tracking_id: Option<i32>, clear_position: bool) -> TouchSlot {
    if tracking_id.is_some() && clear_position {
        TouchSlot { tracking_id, x: None, y: None }
    } else {
        TouchSlot { tracking_id, x: slot.x, y: slot.y }
    }
}

pub fn update_tracking_id(slot: &mut TouchSlot, tracking_id: Option<i32>, clear_position: bool)
    ensures
        *final(slot) == retracked(*old(slot), tracking_id, clear_position),
{
    slot.tracking_id = tracking_id;
    if tracking_id.is_some() && clear_position {
        slot.x = None;
        slot.y = None;
    }
}

pub open spec fn spec_preferred_touch_contact_key(keys: Seq<u16>) -> Option<u16> {
    if keys.contains(BTN_TOUCH) {
        Some(BTN_TOUCH)
    } else if keys.contains(BTN_TOOL_FINGER) {
        Some(BTN_TOOL_FINGER)
    } else {
        None
    }
}

/// The key that signals contact among the keys a device supports: surface
/// contact first, else a finger tool.
pub fn preferred_touch_contact_key(keys: &[u16]) -> (r: Option<u16>)
    ensures
        r == spec_preferred_touch_contact_key(keys@),
{
    if contains_code(keys, BTN_TOUCH) {
        Some(BTN_TOUCH)
    } else if contains_code(keys, BTN_TOOL_FINGER) {
        Some(BTN_TOOL_FINGER)
    } else {
        None
    }
}

/// Appends empty slots until there are `target` of them.
fn grow_slots(slots: &mut Vec<TouchSlot>, target: usize)
    ensures
        final(slots)@ == grown(old(slots)@, target as nat),
{
    let ghost before = slots@;
    while slots.len() < target
        invariant
            before.len() <= slots@.len(),
            slots@.len() <= (if target > before.len() { target as nat } else { before.len() }),
            slots@ == grown(before, slots@.len()),
        decreases target - slots@.len(),
    {
        slots.push(TouchSlot::empty());
        assert(slots@ =~= grown(before, slots@.len()));
    }
    assert(slots@ =~= grown(before, target as nat));
}

/// The slot an update goes to: the selected one, or the first.
#[derive(Clone, Copy, Debug, PartialEq, Eq)]
pub enum SlotTarget {
    Current,
    Primary,
}

/// The coordinate an update sets.
#[derive(Clone, Copy, Debug, PartialEq, Eq)]
pub enum PositionAxis {
    X,
    Y,
}

/// The contents of a touch state.
pub struct TouchView {
    pub mode: TouchMode,
    pub current_slot: nat,
    pub slots: Seq<TouchSlot>,
    pub slot_limit: Option<usize>,
    pub x_range: TouchRange,
    pub y_range: TouchRange,
}

/// What every touch state keeps: slots exactly when the device is a touch
/// device, the selected slot among them and below the limit, and no more
/// slots than the limit allows.
pub open spec fn touch_wf(v: TouchView) -> bool {
    &&& (v.mode is NoTouch <==> v.slots.len() == 0)
    &&& (!(v.mode is NoTouch) ==> v.current_slot < v.slots.len())
    &&& match v.slot_limit {
        Some(l) => if l == 0 {
            v.current_slot == 0 && v.slots.len() <= 1
        } else {
            v.current_slot < l && v.slots.len() <= l
        },
        None => v.current_slot <= i32::MAX,
    }
}

/// `slots` grown with empty slots to `target` entries.
pub open spec fn grown(slots: Seq<TouchSlot>, target: nat) -> Seq<TouchSlot> {
    if target > slots.len() {
        slots + Seq::new((target - slots.len()) as nat, |i: int| empty_slot())
    } else {
        slots
    }
}

/// The state with the selected slot pulled under the limit and present.
pub open spec fn with_capacity(v: TouchView) -> TouchView {
    match v.slot_limit {
        Some(limit) => if limit == 0 {
            v
        } else {
            let cur: nat = if v.current_slot >= limit { (limit - 1) as nat } else { v.current_slot };
            let target: nat = if cur + 1 < limit { cur + 1 } else { limit as nat };
            TouchView { current_slot: cur, slots: grown(v.slots, target), ..v }
        },
        None => TouchView { slots: grown(v.slots, v.current_slot + 1), ..v },
    }
}

/// The state an update to `target` works on, and the index of that slot.
pub open spec fn target_slot(v: TouchView, target: SlotTarget) -> (TouchView, Option<nat>) {
    match target {
        SlotTarget::Current => {
            let w = with_capacity(v);
            (w, if w.current_slot < w.slots.len() { Some(w.current_slot) } else { None })
        },
        SlotTarget::Primary => (v, if v.slots.len() > 0 { Some(0nat) } else { None }),
    }
}

pub open spec fn with_tracking(
    v: TouchView,
    target: SlotTarget,
    tracking_id: Option<i32>,
    clear_position: bool,
) -> TouchView {
    let (w, idx) = target_slot(v, target);
    match idx {
        Some(i) => TouchView {
            slots: w.slots.update(i as int, retracked(w.slots[i as int], tracking_id, clear_position)),
            ..w
        },
        None => w,
    }
}

pub open spec fn positioned(slot: TouchSlot, axis: PositionAxis, value: i32) -> TouchSlot {
    match axis {
        PositionAxis::X => TouchSlot { x: Some(value), ..slot },
        PositionAxis::Y => TouchSlot { y: Some(value), ..slot },
    }
}

/// The state after a position update: the target slot takes the value and
/// the axis range observes it.
pub open spec fn with_position(v: TouchView, target: SlotTarget, axis: PositionAxis, value: i32) -> TouchView {
    let (w, idx) = target_slot(v, target);
    let moved = match idx {
        Some(i) => TouchView {
            slots: w.slots.update(i as int, positioned(w.slots[i as int], axis, value)),
            ..w
        },
        None => w,
    };
    match axis {
        PositionAxis::X => TouchView { x_range: moved.x_range.spec_observe(value), ..moved },
        PositionAxis::Y => TouchView { y_range: moved.y_range.spec_observe(value), ..moved },
    }
}

pub open spec fn slot_supported(limit: Option<usize>, slot: nat) -> bool {
    match limit {
        Some(l) => slot < l,
        None => true,
    }
}

/// The state after the slot axis reports `value`: a slot the limit allows
/// becomes the selected one; anything else is ignored.
pub open spec fn with_selected_slot(v: TouchView, value: i32) -> TouchView {
    if value < 0 {
        v
    } else if slot_supported(v.slot_limit, value as nat) {
        with_capacity(TouchView { current_slot: value as nat, ..v })
    } else {
        v
    }
}

/// A multi-touch device's state after an event: slot selection, tracking id
/// (negative: released) and position of the selected slot.
pub open spec fn after_multi_touch(v: TouchView, e: RawEvent) -> TouchView {
    if e.event_type != EV_ABS {
        v
    } else if e.code == ABS_MT_SLOT {
        with_selected_slot(v, e.value)
    } else if e.code == ABS_MT_TRACKING_ID {
        with_tracking(v, SlotTarget::Current, if e.value >= 0 { Some(e.value) } else { None }, true)
    } else if e.code == ABS_MT_POSITION_X {
        with_position(v, SlotTarget::Current, PositionAxis::X, e.value)
    } else if e.code == ABS_MT_POSITION_Y {
        with_position(v, SlotTarget::Current, PositionAxis::Y, e.value)
    } else {
        v
    }
}

/// A single-touch device's state after an event: positions go to the first
/// slot; the contact key, where there is one, starts and ends the contact;
/// without one, any absolute event marks the first slot as touching.
pub open spec fn after_single_touch(v: TouchView, contact_key: Option<u16>, e: RawEvent) -> TouchView {
    if e.event_type == EV_ABS {
        let w = if e.code == ABS_X {
            with_position(v, SlotTarget::Primary, PositionAxis::X, e.value)
        } else if e.code == ABS_Y {
            with_position(v, SlotTarget::Primary, PositionAxis::Y, e.value)
        } else {
            v
        };
        if contact_key is None {
            with_tracking(w, SlotTarget::Primary, Some(0), false)
        } else {
            w
        }
    } else if e.event_type == EV_KEY && contact_key is Some {
        if e.code == BTN_TOUCH || e.code == BTN_TOOL_FINGER {
            with_tracking(v, SlotTarget::Primary, if e.value != 0 { Some(0) } else { None }, true)
        } else {
            v
        }
    } else {
        v
    }
}

/// The state after an event, by the device's touch mode.
pub open spec fn after_event(v: TouchView, e: RawEvent) -> TouchView {
    match v.mode {
        TouchMode::NoTouch => v,
        TouchMode::MultiTouch { .. } => after_multi_touch(v, e),
        TouchMode::SingleTouch { contact_key } => after_single_touch(v, contact_key, e),
    }
}

/// The position of a slot whose touching state is `active`, where both
/// coordinates are known.
pub open spec fn slot_point(slot: TouchSlot, active: bool) -> Option<(i32, i32)> {
    if slot.tracking_id.is_some() == active && slot.x.is_some() && slot.y.is_some() {
        Some((slot.x->0, slot.y->0))
    } else {
        None
    }
}

/// The positions of the slots whose touching state is `active`, in slot order.
pub open spec fn points(slots: Seq<TouchSlot>, active: bool) -> Seq<(i32, i32)>
    decreases slots.len(),
{
    if slots.len() == 0 {
        seq![]
    } else {
        let rest = points(slots.drop_last(), active);
        match slot_point(slots.last(), active) {
            Some(p) => rest.push(p),
            None => rest,
        }
    }
}

pub open spec fn visible_points(v: TouchView, active: bool) -> Seq<(i32, i32)> {
    if v.mode is NoTouch {
        seq![]
    } else {
        points(v.slots, active)
    }
}

/// The state a touch state starts in.
pub open spec fn initial_view(
    mode: TouchMode,
    slot_limit: Option<usize>,
    x_range: TouchRange,
    y_range: TouchRange,
) -> TouchView {
    let limit = mode.spec_slot_limit(slot_limit);
    let slots = Seq::new(
        mode.spec_slot_count(limit),
        |i: int|
            if i == 0 && mode.spec_seeds_primary_tracking() {
                TouchSlot { tracking_id: Some(0), x: None, y: None }
            } else {
                empty_slot()
            },
    );
    TouchView { mode, current_slot: 0, slots, slot_limit: limit, x_range, y_range }
}

/// The contacts of a touch device and the span of their coordinates.
pub struct TouchState {
    mode: TouchMode,
    current_slot: usize,
    slots: Vec<TouchSlot>,
    slot_limit: Option<usize>,
    x_range: TouchRange,
    y_range: TouchRange,
}

impl View for TouchState {
    type V = TouchView;

    closed spec fn view(&self) -> TouchView {
        TouchView {
            mode: self.mode,
            current_slot: self.current_slot as nat,
            slots: self.slots@,
            slot_limit: self.slot_limit,
            x_range: self.x_range,
            y_range: self.y_range,
        }
    }
}

impl TouchState {
    /// The state of a device without touch.
    pub fn disabled() -> (s: Self)
        ensures
            s@ == initial_view(TouchMode::NoTouch, Some(0), TouchRange::Unknown, TouchRange::Unknown),
            touch_wf(s@),
    {
        Self::from_parts(TouchMode::NoTouch, Some(0), TouchRange::Unknown, TouchRange::Unknown)
    }

    pub fn from_parts(
        mode: TouchMode,
        slot_limit: Option<usize>,
        x_range: TouchRange,
        y_range: TouchRange,
    ) -> (s: Self)
        ensures
            s@ == initial_view(mode, slot_limit, x_range, y_range),
            touch_wf(s@),
    {
        let limit = mode.slot_limit(slot_limit);
        let count = mode.slot_count(limit);
        let seeded = mode.seeds_primary_tracking();
        let mut slots: Vec<TouchSlot> = Vec::new();
        let mut i: usize = 0;
        while i < count
            invariant
                i <= count,
                count == mode.spec_slot_count(limit),
                seeded == mode.spec_seeds_primary_tracking(),
                slots@.len() == i,
                forall|j: int|
                    0 <= j < i ==> slots@[j] == (if j == 0 && seeded {
                        TouchSlot { tracking_id: Some(0), x: None, y: None }
                    } else {
                        empty_slot()
                    }),
            decreases count - i,
        {
            if i == 0 && seeded {
                slots.push(TouchSlot { tracking_id: Some(0), x: None, y: None });
            } else {
                slots.push(TouchSlot::empty());
            }
            i = i + 1;
        }
        let s = Self { mode, current_slot: 0, slots, slot_limit: limit, x_range, y_range };
        assert(s@.slots =~= initial_view(mode, slot_limit, x_range, y_range).slots);
        s
    }

    pub fn mode(&self) -> (m: TouchMode)
        ensures
            m == self@.mode,
    {
        self.mode
    }

    pub fn current_slot(&self) -> (c: usize)
        ensures
            c == self@.current_slot,
    {
        self.current_slot
    }

    pub fn slots(&self) -> (s: &[TouchSlot])
        ensures
            s@ == self@.slots,
    {
        self.slots.as_slice()
    }

    pub fn slot_limit(&self) -> (l: Option<usize>)
        ensures
            l == self@.slot_limit,
    {
        self.slot_limit
    }

    /// Whether both coordinate spans are known, so that contacts can be drawn.
    pub fn enabled(&self) -> (b: bool)
        ensures
            b == (self@.x_range.spec_range().is_some() && self@.y_range.spec_range().is_some()),
    {
        self.x_range.is_known() && self.y_range.is_known()
    }

    pub fn is_touch_device(&self) -> (b: bool)
        ensures
            b == !(self@.mode is NoTouch),
    {
        !matches!(self.mode, TouchMode::NoTouch)
    }

    pub fn x_range(&self) -> (r: Option<(i32, i32)>)
        ensures
            r == self@.x_range.spec_range(),
    {
        self.x_range.range()
    }

    pub fn y_range(&self) -> (r: Option<(i32, i32)>)
        ensures
            r == self@.y_range.spec_range(),
    {
        self.y_range.range()
    }

    /// Both coordinate spans, when both are known.
    pub fn ranges(&self) -> (r: Option<((i32, i32), (i32, i32))>)
        ensures
            r == (match (self@.x_range.spec_range(), self@.y_range.spec_range()) {
                (Some(x), Some(y)) => Some((x, y)),
                _ => None,
            }),
    {
        match (self.x_range(), self.y_range()) {
            (Some(x), Some(y)) => Some((x, y)),
            _ => None,
        }
    }

    /// The positions of the contacts that touch, in slot order.
    pub fn active_points(&self) -> (p: Vec<(i32, i32)>)
        ensures
            p@ == visible_points(self@, true),
    {
        self.points_by_tracking_state(true)
    }

    /// The last positions of the contacts that were lifted, in slot order.
    pub fn inactive_points(&self) -> (p: Vec<(i32, i32)>)
        ensures
            p@ == visible_points(self@, false),
    {
        if !self.is_touch_device() {
            return Vec::new();
        }
        self.points_by_tracking_state(false)
    }

    fn points_by_tracking_state(&self, active: bool) -> (p: Vec<(i32, i32)>)
        ensures
            p@ == visible_points(self@, active),
    {
        let mut out: Vec<(i32, i32)> = Vec::new();
        if !self.is_touch_device() {
            return out;
        }
        let mut i: usize = 0;
        while i < self.slots.len()
            invariant
                i <= self.slots@.len(),
                out@ == points(self.slots@.take(i as int), active),
            decreases self.slots@.len() - i,
        {
            let slot = self.slots[i];
            assert(self.slots@.take(i + 1).drop_last() =~= self.slots@.take(i as int));
            assert(self.slots@.take(i + 1).last() == slot);
            if slot.tracking_id.is_some() == active {
                match (slot.x, slot.y) {
                    (Some(x), Some(y)) => out.push((x, y)),
                    _ => {},
                }
            }
            i = i + 1;
        }
        assert(self.slots@.take(self.slots@.len() as int) =~= self.slots@);
        out
    }

    /// Applies one input event to the contacts; a device without touch
    /// ignores every event.
    pub fn update(&mut self, event: &RawEvent)
        requires
            touch_wf(old(self)@),
        ensures
            final(self)@ == after_event(old(self)@, *event),
            touch_wf(final(self)@),
    {
        match self.mode {
            TouchMode::NoTouch => {},
            TouchMode::MultiTouch { .. } => self.apply_multi_touch(event),
            TouchMode::SingleTouch { contact_key } => self.apply_single_touch(contact_key, event),
        }
    }

    fn apply_multi_touch(&mut self, event: &RawEvent)
        requires
            touch_wf(old(self)@),
            old(self)@.mode is MultiTouch,
        ensures
            final(self)@ == after_multi_touch(old(self)@, *event),
            touch_wf(final(self)@),
    {
        if event.event_type != EV_ABS {
            return;
        }
        let value = event.value;
        if event.code == ABS_MT_SLOT {
            self.select_slot_value(value);
        } else if event.code == ABS_MT_TRACKING_ID {
            let id = if value >= 0 { Some(value) } else { None };
            self.set_slot_tracking_id(SlotTarget::Current, id, true);
        } else if event.code == ABS_MT_POSITION_X {
            self.update_slot_position(SlotTarget::Current, PositionAxis::X, value);
        } else if event.code == ABS_MT_POSITION_Y {
            self.update_slot_position(SlotTarget::Current, PositionAxis::Y, value);
        }
    }

    fn apply_single_touch(&mut self, contact_key: Option<u16>, event: &RawEvent)
        requires
            touch_wf(old(self)@),
            old(self)@.mode is SingleTouch,
        ensures
            final(self)@ == after_single_touch(old(self)@, contact_key, *event),
            touch_wf(final(self)@),
    {
        if event.event_type == EV_ABS {
            if event.code == ABS_X {
                self.update_slot_position(SlotTarget::Primary, PositionAxis::X, event.value);
            } else if event.code == ABS_Y {
                self.update_slot_position(SlotTarget::Primary, PositionAxis::Y, event.value);
            }
            if contact_key.is_none() {
                self.set_slot_tracking_id(SlotTarget::Primary, Some(0), false);
            }
        } else if event.event_type == EV_KEY && contact_key.is_some() {
            if event.code == BTN_TOUCH || event.code == BTN_TOOL_FINGER {
                let id = if event.value != 0 { Some(0) } else { None };
                self.set_slot_tracking_id(SlotTarget::Primary, id, true);
            }
        }
    }

    fn select_slot_value(&mut self, value: i32)
        requires
            touch_wf(old(self)@),
            !(old(self)@.mode is NoTouch),
        ensures
            final(self)@ == with_selected_slot(old(self)@, value),
            touch_wf(final(self)@),
    {
        if value < 0 {
            return;
        }
        let slot = value as usize;
        let supported = match self.slot_limit {
            Some(limit) => slot < limit,
            None => true,
        };
        if supported {
            self.current_slot = slot;
            self.ensure_slot_capacity();
        }
    }

    /// Pulls the selected slot under the limit and grows the slots to hold it.
    fn ensure_slot_capacity(&mut self)
        requires
            !(old(self)@.mode is NoTouch),
            old(self)@.slots.len() >= 1,
            match old(self)@.slot_limit {
                Some(l) => if l == 0 {
                    old(self)@.current_slot == 0 && old(self)@.slots.len() <= 1
                } else {
                    old(self)@.slots.len() <= l
                },
                None => old(self)@.current_slot <= i32::MAX,
            },
        ensures
            final(self)@ == with_capacity(old(self)@),
            touch_wf(final(self)@),
    {
        let target: usize = match self.slot_limit {
            Some(limit) => {
                if limit == 0 {
                    return;
                }
                if self.current_slot >= limit {
                    self.current_slot = limit - 1;
                }
                if self.current_slot + 1 < limit {
                    self.current_slot + 1
                } else {
                    limit
                }
            },
            None => self.current_slot + 1,
        };
        grow_slots(&mut self.slots, target);
    }

    fn set_slot_tracking_id(&mut self, target: SlotTarget, tracking_id: Option<i32>, clear_position: bool)
        requires
            touch_wf(old(self)@),
            !(old(self)@.mode is NoTouch),
        ensures
            final(self)@ == with_tracking(old(self)@, target, tracking_id, clear_position),
            touch_wf(final(self)@),
    {
        let idx = self.target_slot(target);
        match idx {
            Some(i) => {
                let mut slot = self.slots[i];
                update_tracking_id(&mut slot, tracking_id, clear_position);
                self.slots.set(i, slot);
            },
            None => {},
        }
    }

    fn update_slot_position(&mut self, target: SlotTarget, axis: PositionAxis, value: i32)
        requires
            touch_wf(old(self)@),
            !(old(self)@.mode is NoTouch),
        ensures
            final(self)@ == with_position(old(self)@, target, axis, value),
            touch_wf(final(self)@),
    {
        let idx = self.target_slot(target);
        match idx {
            Some(i) => {
                let mut slot = self.slots[i];
                match axis {
                    PositionAxis::X => slot.x = Some(value),
                    PositionAxis::Y => slot.y = Some(value),
                }
                self.slots.set(i, slot);
            },
            None => {},
        }
        match axis {
            PositionAxis::X => self.x_range.observe(value),
            PositionAxis::Y => self.y_range.observe(value),
        }
    }

    /// Prepares the slot an update goes to and returns its index.
    fn target_slot(&mut self, target: SlotTarget) -> (idx: Option<usize>)
        requires
            touch_wf(old(self)@),
            !(old(self)@.mode is NoTouch),
        ensures
            (final(self)@, match idx {
                Some(i) => Some(i as nat),
                None => None,
            }) == target_slot(old(self)@, target),
            touch_wf(final(self)@),
            match idx {
                Some(i) => i < final(self)@.slots.len(),
                None => true,
            },
    {
        match target {
            SlotTarget::Current => {
                self.ensure_slot_capacity();
                if self.current_slot < self.slots.len() {
                    Some(self.current_slot)
                } else {
                    None
                }
            },
            SlotTarget::Primary => {
                if self.slots.len() > 0 {
                    Some(0)
                } else {
                    None
                }
            },
        }
    }
}

/// Seeing a value makes a span known; a span the device fixed stays as it
/// is, any other grows to cover the value and all it covered before.
pub proof fn lemma_observe_covers(r: TouchRange, value: i32)
    ensures
        r.spec_observe(value).spec_range() is Some,
        r is Fixed ==> r.spec_observe(value) == r,
        !(r is Fixed) ==> ({
            let (lo, hi) = r.spec_observe(value).spec_range()->0;
            &&& lo <= value <= hi
            &&& match r.spec_range() {
                Some((a, b)) => lo <= a && b <= hi,
                None => true,
            }
        }),
{
}

/// In a well-formed touch state the selected slot is already present, so
/// preparing it changes nothing.
pub proof fn lemma_capacity_settled(v: TouchView)
    requires
        touch_wf(v),
        !(v.mode is NoTouch),
    ensures
        with_capacity(v) == v,
{
    match v.slot_limit {
        Some(limit) => if limit != 0 {
            let target: nat = if v.current_slot + 1 < limit { v.current_slot + 1 } else { limit as nat };
            assert(target <= v.slots.len());
            assert(grown(v.slots, target) == v.slots);
        },
        None => {
            assert(grown(v.slots, v.current_slot + 1) == v.slots);
        },
    }
}

/// Whatever event arrives, a known coordinate span stays known and a span the
/// device fixed stays as it is; a device without touch ignores every event.
pub proof fn lemma_update_keeps_spans(v: TouchView, e: RawEvent)
    requires
        touch_wf(v),
    ensures
        v.x_range.spec_range() is Some ==> after_event(v, e).x_range.spec_range() is Some,
        v.y_range.spec_range() is Some ==> after_event(v, e).y_range.spec_range() is Some,
        v.x_range is Fixed ==> after_event(v, e).x_range == v.x_range,
        v.y_range is Fixed ==> after_event(v, e).y_range == v.y_range,
        v.mode is NoTouch ==> after_event(v, e) == v,
{
    lemma_observe_covers(v.x_range, e.value);
    lemma_observe_covers(v.y_range, e.value);
}

/// A slot number that the limit allows becomes the selected slot of a
/// multi-touch device, and that slot is then present; a negative number or
/// one beyond the limit changes nothing.
pub proof fn lemma_select_slot(v: TouchView, value: i32)
    requires
        touch_wf(v),
        v.mode is MultiTouch,
    ensures
        value >= 0 && slot_supported(v.slot_limit, value as nat) ==> {
            &&& after_event(v, RawEvent { event_type: EV_ABS, code: ABS_MT_SLOT, value }).current_slot
                == value as nat
            &&& (value as nat) < after_event(
                v,
                RawEvent { event_type: EV_ABS, code: ABS_MT_SLOT, value },
            ).slots.len()
        },
        !(value >= 0 && slot_supported(v.slot_limit, value as nat)) ==> after_event(
            v,
            RawEvent { event_type: EV_ABS, code: ABS_MT_SLOT, value },
        ) == v,
{
}

/// Lifting a contact of a multi-touch device ends its tracking and keeps its
/// last position, which then shows as an inactive point; the other slots
/// stay as they were.
pub proof fn lemma_release_keeps_position(v: TouchView, value: i32)
    requires
        touch_wf(v),
        v.mode is MultiTouch,
        value < 0,
    ensures
        ({
            let w = after_event(v, RawEvent { event_type: EV_ABS, code: ABS_MT_TRACKING_ID, value });
            let c = v.current_slot as int;
            &&& w.current_slot == v.current_slot
            &&& w.slots.len() == v.slots.len()
            &&& w.slots[c] == (TouchSlot { tracking_id: None, x: v.slots[c].x, y: v.slots[c].y })
            &&& forall|i: int| 0 <= i < v.slots.len() && i != c ==> w.slots[i] == v.slots[i]
        }),
{
    lemma_capacity_settled(v);
}

} // verus!
