use vstd::prelude::*;
use std::collections::HashMap;

use crate::monitor::config;
use crate::monitor::math::{spec_wrapped_value, wrapped_value};
use crate::ui::numbers::{i32_decimal, signed_decimal};

verus! {

broadcast use vstd::std_specs::hash::group_hash_axioms;

/// Event type of key and button events.
pub const EV_KEY: u16 = 1;
/// Event type of relative axis events.
pub const EV_REL: u16 = 2;
/// Event type of absolute axis events.
pub const EV_ABS: u16 = 3;

/// One input event as the kernel reports it: type, code and value.
#[derive(Clone, Copy, Debug, PartialEq, Eq, Structural)]
pub struct RawEvent {
    pub event_type: u16,
    pub code: u16,
    pub value: i32,
}

impl RawEvent {
    pub fn new(event_type: u16, code: u16, value: i32) -> (e: Self)
        ensures
            e == (RawEvent { event_type, code, value }),
    {
        Self { event_type, code, value }
    }
}

/// The category of an input.
#[derive(Clone, Copy, Debug, PartialEq, Eq, Structural)]
pub enum InputTypeId {
    Abs,
    Rel,
    Key,
}

/// An input of a device: its category and its code within the category.
#[derive(Clone, Copy, Debug, PartialEq, Eq, Structural)]
pub struct InputId {
    pub kind: InputTypeId,
    pub code: u16,
}

impl InputId {
    /// A number that identifies the input; distinct inputs get distinct numbers.
    pub open spec fn spec_key(self) -> u32 {
        (match self.kind {
            InputTypeId::Abs => 0int,
            InputTypeId::Rel => 65536int,
            InputTypeId::Key => 131072int,
        } + self.code) as u32
    }

    pub fn key(self) -> (k: u32)
        ensures
            k == self.spec_key(),
    {
        let base: u32 = match self.kind {
            InputTypeId::Abs => 0,
            InputTypeId::Rel => 65536,
            InputTypeId::Key => 131072,
        };
        base + self.code as u32
    }

    pub fn new(kind: InputTypeId, code: u16) -> (id: Self)
        ensures
            id == (InputId { kind, code }),
    {
        Self { kind, code }
    }

    pub fn absolute(code: u16) -> (id: Self)
        ensures
            id == (InputId { kind: InputTypeId::Abs, code }),
    {
        Self::new(InputTypeId::Abs, code)
    }

    pub fn relative(code: u16) -> (id: Self)
        ensures
            id == (InputId { kind: InputTypeId::Rel, code }),
    {
        Self::new(InputTypeId::Rel, code)
    }

    pub fn key_code(code: u16) -> (id: Self)
        ensures
            id == (InputId { kind: InputTypeId::Key, code }),
    {
        Self::new(InputTypeId::Key, code)
    }

    pub open spec fn spec_from_event(event: RawEvent) -> Option<InputId> {
        if event.event_type == EV_ABS {
            Some(InputId { kind: InputTypeId::Abs, code: event.code })
        } else if event.event_type == EV_REL {
            Some(InputId { kind: InputTypeId::Rel, code: event.code })
        } else if event.event_type == EV_KEY {
            Some(InputId { kind: InputTypeId::Key, code: event.code })
        } else {
            None
        }
    }

    /// The input an event reports on, for absolute, relative and key events.
    pub fn from_event(event: &RawEvent) -> (id: Option<Self>)
        ensures
            id == Self::spec_from_event(*event),
    {
        let kind = if event.event_type == EV_ABS {
            InputTypeId::Abs
        } else if event.event_type == EV_REL {
            InputTypeId::Rel
        } else if event.event_type == EV_KEY {
            InputTypeId::Key
        } else {
            return None;
        };
        Some(Self::new(kind, event.code))
    }
}

/// Two inputs with the same number are the same input.
pub proof fn lemma_key_injective(a: InputId, b: InputId)
    ensures
        a.spec_key() == b.spec_key() <==> a == b,
{
}

/// Where an absolute axis range came from.
#[derive(Clone, Copy, Debug, PartialEq, Eq, Structural)]
pub enum AxisOrigin {
    Kernel,
    Fallback,
}

/// Range and current value of an absolute axis.
#[derive(Clone, Copy, Debug, PartialEq, Eq, Structural)]
pub struct AbsoluteState {
    pub origin: AxisOrigin,
    pub min: i32,
    pub max: i32,
    pub value: i32,
}

impl AbsoluteState {
    /// State reported by the kernel.
    pub fn kernel(min: i32, max: i32, value: i32) -> (s: Self)
        ensures
            s == (AbsoluteState { origin: AxisOrigin::Kernel, min, max, value }),
    {
        Self { origin: AxisOrigin::Kernel, min, max, value }
    }

    /// State assumed while the kernel's is unknown.
    pub fn fallback(min: i32, max: i32, value: i32) -> (s: Self)
        ensures
            s == (AbsoluteState { origin: AxisOrigin::Fallback, min, max, value }),
    {
        Self { origin: AxisOrigin::Fallback, min, max, value }
    }
}

/// What the kernel reports of an absolute axis: its range and value.
#[derive(Clone, Copy, Debug, PartialEq, Eq, Structural)]
pub struct AxisSnapshot {
    pub min: i32,
    pub max: i32,
    pub value: i32,
}

/// The snapshot of axis `code` in the kernel's table of absolute axes.
pub open spec fn snapshot_at(table: Seq<AxisSnapshot>, code: u16) -> Option<AxisSnapshot> {
    if (code as int) < table.len() {
        Some(table[code as int])
    } else {
        None
    }
}

/// Looks up axis `code` in the kernel's table of absolute axes.
pub fn snapshot_for(table: &[AxisSnapshot], code: u16) -> (r: Option<AxisSnapshot>)
    ensures
        r == snapshot_at(table@, code),
{
    let i = code as usize;
    if i < table.len() {
        Some(table[i])
    } else {
        None
    }
}

/// The current reading of an input.
#[derive(Clone, Copy, Debug, PartialEq, Eq, Structural)]
pub enum InputKind {
    Absolute(AbsoluteState),
    /// Accumulated relative motion.
    Relative(i32),
    /// Whether the button is pressed.
    Button(bool),
}

pub open spec fn sat_add_i32(a: i32, b: i32) -> i32 {
    if a + b > i32::MAX {
        i32::MAX
    } else if a + b < i32::MIN {
        i32::MIN
    } else {
        (a + b) as i32
    }
}

pub open spec fn button_label_text(pressed: bool) -> Seq<char> {
    if pressed { seq!['O', 'N'] } else { seq!['O', 'F', 'F'] }
}

impl InputKind {
    pub open spec fn spec_update(self, event: RawEvent) -> InputKind {
        match self {
            InputKind::Absolute(state) => if event.event_type == EV_ABS {
                InputKind::Absolute(AbsoluteState { value: event.value, ..state })
            } else {
                self
            },
            InputKind::Relative(current) => if event.event_type == EV_REL {
                InputKind::Relative(sat_add_i32(current, event.value))
            } else {
                self
            },
            InputKind::Button(_) => if event.event_type == EV_KEY {
                InputKind::Button(event.value != 0)
            } else {
                self
            },
        }
    }

    /// Applies an event of the input's own category: an absolute axis takes
    /// the new value, a relative axis adds the motion (saturating), a button
    /// is pressed on any nonzero value. Events of other types are ignored.
    pub fn update(&mut self, event: &RawEvent)
        ensures
            *final(self) == old(self).spec_update(*event),
    {
        let value = event.value;
        match self {
            InputKind::Absolute(state) => {
                if event.event_type == EV_ABS {
                    state.value = value;
                }
            },
            InputKind::Relative(current) => {
                if event.event_type == EV_REL {
                    let sum: i64 = *current as i64 + value as i64;
                    *current = if sum > i32::MAX as i64 {
                        i32::MAX
                    } else if sum < i32::MIN as i64 {
                        i32::MIN
                    } else {
                        sum as i32
                    };
                }
            },
            InputKind::Button(pressed) => {
                if event.event_type == EV_KEY {
                    *pressed = value != 0;
                }
            },
        }
    }

    pub open spec fn spec_display_label(self) -> Seq<char> {
        match self {
            InputKind::Absolute(state) => signed_decimal(state.value as int),
            InputKind::Relative(value) => signed_decimal(
                spec_wrapped_value(value as int, config::RELATIVE_DISPLAY_RANGE as int),
            ),
            InputKind::Button(pressed) => button_label_text(pressed),
        }
    }

    /// The text shown on the input's gauge: the axis value (a relative axis
    /// wrapped into its display window) or ON/OFF for a button.
    pub fn display_label(&self) -> (s: String)
        ensures
            s@ == self.spec_display_label(),
    {
        match self {
            InputKind::Absolute(state) => i32_decimal(state.value),
            InputKind::Relative(value) => {
                proof {
                    assert(-500 <= spec_wrapped_value(*value as int, 1000) <= 500);
                }
                i32_decimal(wrapped_value(*value, config::RELATIVE_DISPLAY_RANGE))
            },
            InputKind::Button(pressed) => button_label(*pressed),
        }
    }
}

/// "ON" for a pressed button, "OFF" otherwise.
pub fn button_label(pressed: bool) -> (s: String)
    ensures
        s@ == button_label_text(pressed),
{
    let s = if pressed {
        String::from_str("ON")
    } else {
        String::from_str("OFF")
    };
    proof {
        reveal_strlit("ON");
        reveal_strlit("OFF");
    }
    s
}

/// A named input with its current reading.
#[derive(Debug)]
pub struct DeviceInput {
    pub name: String,
    pub input_type: InputKind,
}

impl DeviceInput {
    pub fn absolute(name: String, state: AbsoluteState) -> (d: Self)
        ensures
            d.name == name,
            d.input_type == InputKind::Absolute(state),
    {
        Self { name, input_type: InputKind::Absolute(state) }
    }

    /// A relative axis starts with no accumulated motion.
    pub fn relative(name: String) -> (d: Self)
        ensures
            d.name == name,
            d.input_type == InputKind::Relative(0),
    {
        Self { name, input_type: InputKind::Relative(0) }
    }

    pub fn button(name: String, pressed: bool) -> (d: Self)
        ensures
            d.name == name,
            d.input_type == InputKind::Button(pressed),
    {
        Self { name, input_type: InputKind::Button(pressed) }
    }
}

/// Range and value of an absolute axis, without its origin.
#[derive(Clone, Copy, Debug, PartialEq, Eq, Structural)]
pub struct AbsoluteAxis {
    pub min: i32,
    pub max: i32,
    pub value: i32,
}

} // verus!

verus! {

/// Where an input lives: its bucket and its position in it.
#[derive(Clone, Copy, Debug, PartialEq, Eq, Structural)]
pub enum InputLocation {
    Absolute(usize),
    Relative(usize),
    Button(usize),
}

/// Finds the bucket position of an input from the events that report on it.
pub struct EventIndex {
    by_event: HashMap<u32, InputLocation>,
}

impl View for EventIndex {
    type V = Map<u32, InputLocation>;

    closed spec fn view(&self) -> Map<u32, InputLocation> {
        self.by_event@
    }
}

impl EventIndex {
    /// What the index says of `id`.
    pub open spec fn lookup(self, id: InputId) -> Option<InputLocation> {
        if self@.contains_key(id.spec_key()) {
            Some(self@[id.spec_key()])
        } else {
            None
        }
    }

    pub fn new() -> (i: Self)
        ensures
            i@ == Map::<u32, InputLocation>::empty(),
    {
        Self { by_event: HashMap::new() }
    }

    /// Records where `id` lives, replacing an earlier record of it.
    pub fn insert(&mut self, id: InputId, location: InputLocation)
        ensures
            final(self)@ == old(self)@.insert(id.spec_key(), location),
    {
        self.by_event.insert(id.key(), location);
    }

    /// Where `id` lives, if it was recorded.
    pub fn location_for(&self, id: InputId) -> (l: Option<InputLocation>)
        ensures
            l == self.lookup(id),
    {
        match self.by_event.get(&id.key()) {
            Some(location) => Some(*location),
            None => None,
        }
    }
}

/// The three categories of inputs as `sorted_inputs` files them.
#[derive(Clone, Copy, Debug, PartialEq, Eq, Structural)]
pub enum Bucket {
    Absolute,
    Relative,
    Buttons,
}

impl Bucket {
    pub open spec fn spec_id(self, code: u16) -> InputId {
        match self {
            Bucket::Absolute => InputId { kind: InputTypeId::Abs, code },
            Bucket::Relative => InputId { kind: InputTypeId::Rel, code },
            Bucket::Buttons => InputId { kind: InputTypeId::Key, code },
        }
    }

    pub open spec fn spec_location(self, index: usize) -> InputLocation {
        match self {
            Bucket::Absolute => InputLocation::Absolute(index),
            Bucket::Relative => InputLocation::Relative(index),
            Bucket::Buttons => InputLocation::Button(index),
        }
    }

    pub fn id(self, code: u16) -> (id: InputId)
        ensures
            id == self.spec_id(code),
    {
        match self {
            Bucket::Absolute => InputId::absolute(code),
            Bucket::Relative => InputId::relative(code),
            Bucket::Buttons => InputId::key_code(code),
        }
    }

    pub fn location(self, index: usize) -> (l: InputLocation)
        ensures
            l == self.spec_location(index),
    {
        match self {
            Bucket::Absolute => InputLocation::Absolute(index),
            Bucket::Relative => InputLocation::Relative(index),
            Bucket::Buttons => InputLocation::Button(index),
        }
    }
}

/// Entries ordered by code, ascending.
pub open spec fn sorted_by_code(s: Seq<(u16, DeviceInput)>) -> bool {
    forall|i: int, j: int| 0 <= i < j < s.len() ==> s[i].0 <= s[j].0
}

/// The index records of a bucket whose entries stand in the order `s`: each
/// code maps to the last position that holds it.
pub open spec fn index_records(s: Seq<(u16, DeviceInput)>, bucket: Bucket) -> Map<u32, InputLocation>
    decreases s.len(),
{
    if s.len() == 0 {
        Map::empty()
    } else {
        index_records(s.drop_last(), bucket).insert(
            bucket.spec_id(s.last().0).spec_key(),
            bucket.spec_location((s.len() - 1) as usize),
        )
    }
}

/// Position where an entry with `code` goes in `sorted` to keep the order,
/// after every entry with a code not above it.
fn insertion_point(sorted: &Vec<(u16, DeviceInput)>, code: u16) -> (p: usize)
    requires
        sorted_by_code(sorted@),
    ensures
        p <= sorted@.len(),
        forall|i: int| 0 <= i < p ==> sorted@[i].0 <= code,
        forall|i: int| p <= i < sorted@.len() ==> sorted@[i].0 > code,
{
    let mut p: usize = 0;
    while p < sorted.len() && sorted[p].0 <= code
        invariant
            p <= sorted@.len(),
            sorted_by_code(sorted@),
            forall|i: int| 0 <= i < p ==> sorted@[i].0 <= code,
        decreases sorted@.len() - p,
    {
        p = p + 1;
    }
    p
}

/// Orders a bucket's entries by code and records the position of each code in
/// `event_index`; returns the inputs in that order.
pub fn sorted_inputs(
    entries: Vec<(u16, DeviceInput)>,
    bucket: Bucket,
    event_index: &mut EventIndex,
) -> (inputs: Vec<DeviceInput>)
    ensures
        exists|s: Seq<(u16, DeviceInput)>|
            {
                &&& sorted_by_code(s)
                &&& s.to_multiset() == entries@.to_multiset()
                &&& inputs@.len() == s.len()
                &&& forall|i: int| 0 <= i < s.len() ==> inputs@[i] == #[trigger] s[i].1
                &&& final(event_index)@ == old(event_index)@.union_prefer_right(index_records(s, bucket))
            },
{
    broadcast use vstd::seq_lib::group_to_multiset_ensures;

    let mut rest = entries;
    let mut sorted: Vec<(u16, DeviceInput)> = Vec::new();
    while rest.len() > 0
        invariant
            sorted_by_code(sorted@),
            sorted@.to_multiset().add(rest@.to_multiset()) == entries@.to_multiset(),
        decreases rest@.len(),
    {
        let ghost before = rest@;
        let entry = rest.remove(0);
        proof {
            vstd::seq_lib::to_multiset_remove(before, 0);
            assert(rest@ == before.remove(0));
            assert(entry == before[0]);
            assert(before.contains(entry));
            vstd::seq_lib::to_multiset_contains(before, entry);
        }
        let p = insertion_point(&sorted, entry.0);
        let ghost prev = sorted@;
        sorted.insert(p, entry);
        proof {
            vstd::seq_lib::to_multiset_insert(prev, p as int, entry);
            assert(sorted@ == prev.insert(p as int, entry));
            broadcast use vstd::multiset::group_multiset_axioms;
            assert(sorted@.to_multiset().add(rest@.to_multiset()) =~= prev.to_multiset().add(before.to_multiset()));
            assert forall|i: int, j: int| 0 <= i < j < sorted@.len() implies sorted@[i].0 <= sorted@[j].0 by {
                if i < p && j > p {
                    assert(sorted@[i] == prev[i]);
                    assert(sorted@[j] == prev[j - 1]);
                } else if i == p {
                    assert(sorted@[j] == prev[j - 1]);
                } else if j == p {
                    assert(sorted@[i] == prev[i]);
                } else if i > p {
                    assert(sorted@[i] == prev[i - 1]);
                    assert(sorted@[j] == prev[j - 1]);
                } else {
                    assert(sorted@[i] == prev[i]);
                    assert(sorted@[j] == prev[j]);
                }
            }
        }
    }
    let ghost s = sorted@;
    let total = sorted.len();
    assert(sorted@.to_multiset() == entries@.to_multiset()) by {
        assert(rest@ =~= Seq::<(u16, DeviceInput)>::empty());
    }
    let ghost old_map = event_index@;
    let mut inputs: Vec<DeviceInput> = Vec::new();
    let mut i: usize = 0;
    while sorted.len() > 0
        invariant
            i + sorted@.len() == s.len(),
            s.len() <= usize::MAX,
            sorted@ == s.subrange(i as int, s.len() as int),
            inputs@.len() == i,
            forall|k: int| 0 <= k < i ==> inputs@[k] == #[trigger] s[k].1,
            event_index@ == old_map.union_prefer_right(index_records(s.subrange(0, i as int), bucket)),
        decreases sorted@.len(),
    {
        let (code, input) = sorted.remove(0);
        proof {
            assert(s.subrange(0, i + 1).drop_last() =~= s.subrange(0, i as int));
            assert(s[i as int] == (code, input));
        }
        event_index.insert(bucket.id(code), bucket.location(i));
        inputs.push(input);
        i = i + 1;
        proof {
            assert(sorted@ =~= s.subrange(i as int, s.len() as int));
            assert(event_index@ =~= old_map.union_prefer_right(index_records(s.subrange(0, i as int), bucket)));
        }
    }
    assert(s.subrange(0, i as int) =~= s);
    inputs
}

} // verus!

verus! {

/// In `index_records(s, b)` a code maps to the position of its last entry.
pub proof fn lemma_index_records_last(s: Seq<(u16, DeviceInput)>, bucket: Bucket, i: int)
    requires
        0 <= i < s.len(),
        s.len() <= usize::MAX,
        forall|k: int| i < k < s.len() ==> s[k].0 != s[i].0,
    ensures
        index_records(s, bucket).contains_key(bucket.spec_id(s[i].0).spec_key()),
        index_records(s, bucket)[bucket.spec_id(s[i].0).spec_key()] == bucket.spec_location(
            i as usize,
        ),
    decreases s.len(),
{
    if i < s.len() - 1 {
        let t = s.drop_last();
        assert forall|k: int| i < k < t.len() implies t[k].0 != t[i].0 by {
            assert(t[k] == s[k]);
        }
        lemma_index_records_last(t, bucket, i);
        assert(s.last().0 != s[i].0);
        lemma_key_injective(bucket.spec_id(s.last().0), bucket.spec_id(s[i].0));
    }
}

/// Every record of `index_records(s, b)` is the identity of some entry of `s`
/// mapped to a position of `s` in bucket `b`.
pub proof fn lemma_index_records_keys(s: Seq<(u16, DeviceInput)>, bucket: Bucket, key: u32)
    requires
        index_records(s, bucket).contains_key(key),
    ensures
        exists|i: int|
            0 <= i < s.len() && key == bucket.spec_id(#[trigger] s[i].0).spec_key()
                && index_records(s, bucket)[key] == bucket.spec_location(i as usize),
    decreases s.len(),
{
    if s.len() > 0 {
        let t = s.drop_last();
        if key != bucket.spec_id(s.last().0).spec_key() {
            lemma_index_records_keys(t, bucket, key);
            let i = choose|i: int|
                0 <= i < t.len() && key == bucket.spec_id(#[trigger] t[i].0).spec_key()
                    && index_records(t, bucket)[key] == bucket.spec_location(i as usize);
            assert(s[i] == t[i]);
        } else {
            assert(s[s.len() - 1] == s.last());
        }
    }
}

/// The last position at or after `k` whose entry has the code of `s[k]`.
proof fn lemma_last_with_code(s: Seq<(u16, DeviceInput)>, k: int) -> (l: int)
    requires
        0 <= k < s.len(),
    ensures
        k <= l < s.len(),
        s[l].0 == s[k].0,
        forall|m: int| l < m < s.len() ==> s[m].0 != s[k].0,
    decreases s.len() - k,
{
    if exists|m: int| k < m < s.len() && s[m].0 == s[k].0 {
        let m = choose|m: int| k < m < s.len() && s[m].0 == s[k].0;
        lemma_last_with_code(s, m)
    } else {
        k
    }
}

/// A filed bucket routes the code of each of its entries to a position that
/// holds the input of an entry with that code.
proof fn lemma_filed_routes(
    e: Seq<(u16, DeviceInput)>,
    inputs: Seq<DeviceInput>,
    bucket: Bucket,
    before: Map<u32, InputLocation>,
    index: Map<u32, InputLocation>,
    i: int,
) -> (r: (int, int))
    requires
        filed(e, inputs, bucket, before, index),
        0 <= i < e.len(),
        e.len() <= usize::MAX,
    ensures
        index.contains_key(bucket.spec_id(e[i].0).spec_key()),
        0 <= r.0 < inputs.len(),
        r.0 <= usize::MAX,
        index[bucket.spec_id(e[i].0).spec_key()] == bucket.spec_location(r.0 as usize),
        0 <= r.1 < e.len(),
        e[r.1].0 == e[i].0,
        inputs[r.0] == e[r.1].1,
{
    broadcast use vstd::seq_lib::group_to_multiset_ensures;

    let s = choose|s: Seq<(u16, DeviceInput)>|
        {
            &&& sorted_by_code(s)
            &&& s.to_multiset() == e.to_multiset()
            &&& inputs.len() == s.len()
            &&& forall|k: int| 0 <= k < s.len() ==> inputs[k] == #[trigger] s[k].1
            &&& index == before.union_prefer_right(index_records(s, bucket))
        };
    assert(e.contains(e[i]));
    assert(e.to_multiset().count(e[i]) > 0);
    assert(s.to_multiset().count(e[i]) > 0);
    assert(s.contains(e[i]));
    assert(s.len() == s.to_multiset().len());
    assert(e.len() == e.to_multiset().len());
    let k = choose|k: int| 0 <= k < s.len() && s[k] == e[i];
    let l = lemma_last_with_code(s, k);
    lemma_index_records_last(s, bucket, l);
    assert(s.contains(s[l]));
    assert(s.to_multiset().count(s[l]) > 0);
    assert(e.to_multiset().count(s[l]) > 0);
    assert(e.contains(s[l]));
    let j = choose|j: int| 0 <= j < e.len() && e[j] == s[l];
    (l, j)
}

/// A later bucket's filing leaves the records of the other categories alone.
proof fn lemma_filed_keeps_other_keys(
    e: Seq<(u16, DeviceInput)>,
    inputs: Seq<DeviceInput>,
    bucket: Bucket,
    before: Map<u32, InputLocation>,
    index: Map<u32, InputLocation>,
    id: InputId,
)
    requires
        filed(e, inputs, bucket, before, index),
        id.kind != bucket.spec_id(0).kind,
    ensures
        index.contains_key(id.spec_key()) == before.contains_key(id.spec_key()),
        before.contains_key(id.spec_key()) ==> index[id.spec_key()] == before[id.spec_key()],
{
    let s = choose|s: Seq<(u16, DeviceInput)>|
        {
            &&& sorted_by_code(s)
            &&& s.to_multiset() == e.to_multiset()
            &&& inputs.len() == s.len()
            &&& forall|k: int| 0 <= k < s.len() ==> inputs[k] == #[trigger] s[k].1
            &&& index == before.union_prefer_right(index_records(s, bucket))
        };
    if index_records(s, bucket).contains_key(id.spec_key()) {
        lemma_index_records_keys(s, bucket, id.spec_key());
        let i = choose|i: int|
            0 <= i < s.len() && id.spec_key() == bucket.spec_id(#[trigger] s[i].0).spec_key()
                && index_records(s, bucket)[id.spec_key()] == bucket.spec_location(i as usize);
        lemma_key_injective(id, bucket.spec_id(s[i].0));
    }
}

/// The entries of one category among those of a device.
pub open spec fn entries_of(
    bucket: Bucket,
    absolute: Seq<(u16, DeviceInput)>,
    relative: Seq<(u16, DeviceInput)>,
    buttons: Seq<(u16, DeviceInput)>,
) -> Seq<(u16, DeviceInput)> {
    match bucket {
        Bucket::Absolute => absolute,
        Bucket::Relative => relative,
        Bucket::Buttons => buttons,
    }
}

/// The index routes the code of every entry of a category to a position in
/// that category's bucket holding the input of an entry with that code;
/// where the codes of the category are distinct, to the entry's own input.
pub proof fn law_index_routes_every_input(
    absolute: Seq<(u16, DeviceInput)>,
    relative: Seq<(u16, DeviceInput)>,
    buttons: Seq<(u16, DeviceInput)>,
    buckets: InputBuckets,
    index: Map<u32, InputLocation>,
    bucket: Bucket,
    i: int,
)
    requires
        all_filed(absolute, relative, buttons, buckets, index),
        absolute.len() <= usize::MAX,
        relative.len() <= usize::MAX,
        buttons.len() <= usize::MAX,
        0 <= i < entries_of(bucket, absolute, relative, buttons).len(),
    ensures
        ({
            let e = entries_of(bucket, absolute, relative, buttons);
            let key = bucket.spec_id(e[i].0).spec_key();
            &&& index.contains_key(key)
            &&& buckets.spec_input(index[key]) is Some
            &&& exists|j: int|
                0 <= j < e.len() && e[j].0 == e[i].0 && buckets.spec_input(index[key]) == Some(
                    #[trigger] e[j].1,
                )
            &&& (forall|a: int, b: int| 0 <= a < b < e.len() ==> e[a].0 != e[b].0) ==> buckets.spec_input(
                index[key],
            ) == Some(e[i].1)
        }),
{
    let (m1, m2) = choose|m1: Map<u32, InputLocation>, m2: Map<u32, InputLocation>|
        {
            &&& filed(absolute, buckets.absolute@, Bucket::Absolute, Map::empty(), m1)
            &&& filed(relative, buckets.relative@, Bucket::Relative, m1, m2)
            &&& filed(buttons, buckets.buttons@, Bucket::Buttons, m2, index)
        };
    let e = entries_of(bucket, absolute, relative, buttons);
    let id = bucket.spec_id(e[i].0);
    let j = match bucket {
        Bucket::Absolute => {
            let (p, j) = lemma_filed_routes(absolute, buckets.absolute@, bucket, Map::empty(), m1, i);
            lemma_filed_keeps_other_keys(relative, buckets.relative@, Bucket::Relative, m1, m2, id);
            lemma_filed_keeps_other_keys(buttons, buckets.buttons@, Bucket::Buttons, m2, index, id);
            j
        },
        Bucket::Relative => {
            let (p, j) = lemma_filed_routes(relative, buckets.relative@, bucket, m1, m2, i);
            lemma_filed_keeps_other_keys(buttons, buckets.buttons@, Bucket::Buttons, m2, index, id);
            j
        },
        Bucket::Buttons => {
            let (p, j) = lemma_filed_routes(buttons, buckets.buttons@, bucket, m2, index, i);
            j
        },
    };
    assert(0 <= j < e.len() && e[j].0 == e[i].0 && buckets.spec_input(index[id.spec_key()]) == Some(e[j].1));
    if forall|a: int, b: int| 0 <= a < b < e.len() ==> e[a].0 != e[b].0 {
        assert(j == i);
    }
}

/// The three buckets of inputs, each ordered by code.
pub struct InputBuckets {
    pub absolute: Vec<DeviceInput>,
    pub relative: Vec<DeviceInput>,
    pub buttons: Vec<DeviceInput>,
}

impl InputBuckets {
    /// The input stored at `location`, if the position is in range.
    pub open spec fn spec_input(self, location: InputLocation) -> Option<DeviceInput> {
        match location {
            InputLocation::Absolute(i) => if i < self.absolute@.len() { Some(self.absolute@[i as int]) } else { None },
            InputLocation::Relative(i) => if i < self.relative@.len() { Some(self.relative@[i as int]) } else { None },
            InputLocation::Button(i) => if i < self.buttons@.len() { Some(self.buttons@[i as int]) } else { None },
        }
    }

    /// `other` holds the same inputs as `self` except at `location`, where it holds `input`.
    pub open spec fn replaced(self, other: InputBuckets, location: InputLocation, input: DeviceInput) -> bool {
        match location {
            InputLocation::Absolute(i) => {
                &&& other.absolute@ == self.absolute@.update(i as int, input)
                &&& other.relative@ == self.relative@
                &&& other.buttons@ == self.buttons@
            },
            InputLocation::Relative(i) => {
                &&& other.absolute@ == self.absolute@
                &&& other.relative@ == self.relative@.update(i as int, input)
                &&& other.buttons@ == self.buttons@
            },
            InputLocation::Button(i) => {
                &&& other.absolute@ == self.absolute@
                &&& other.relative@ == self.relative@
                &&& other.buttons@ == self.buttons@.update(i as int, input)
            },
        }
    }

    pub open spec fn same(self, other: InputBuckets) -> bool {
        &&& other.absolute@ == self.absolute@
        &&& other.relative@ == self.relative@
        &&& other.buttons@ == self.buttons@
    }

    /// The input at `location`, if its position is in range.
    pub fn input(&self, location: InputLocation) -> (r: Option<&DeviceInput>)
        ensures
            r matches Some(d) ==> self.spec_input(location) == Some(*d),
            r is None ==> self.spec_input(location) is None,
    {
        match location {
            InputLocation::Absolute(index) => if index < self.absolute.len() {
                Some(&self.absolute[index])
            } else {
                None
            },
            InputLocation::Relative(index) => if index < self.relative.len() {
                Some(&self.relative[index])
            } else {
                None
            },
            InputLocation::Button(index) => if index < self.buttons.len() {
                Some(&self.buttons[index])
            } else {
                None
            },
        }
    }

    /// Mutable access to the input at `location`, if its position is in range.
    pub fn input_mut(&mut self, location: InputLocation) -> (r: Option<&mut DeviceInput>)
        ensures
            old(self).spec_input(location) is Some ==> (r matches Some(d) && Some(*d) == old(
                self,
            ).spec_input(location) && old(self).replaced(*final(self), location, *final(d))),
            old(self).spec_input(location) is None ==> (r is None && old(self).same(*final(self))),
    {
        match location {
            InputLocation::Absolute(index) => if index < self.absolute.len() {
                Some(&mut self.absolute[index])
            } else {
                None
            },
            InputLocation::Relative(index) => if index < self.relative.len() {
                Some(&mut self.relative[index])
            } else {
                None
            },
            InputLocation::Button(index) => if index < self.buttons.len() {
                Some(&mut self.buttons[index])
            } else {
                None
            },
        }
    }

    /// Sets every relative accumulator to zero; names, absolute axes and
    /// buttons stay as they were.
    pub fn reset_relative_axes(&mut self)
        ensures
            final(self).absolute@ == old(self).absolute@,
            final(self).buttons@ == old(self).buttons@,
            final(self).relative@.len() == old(self).relative@.len(),
            forall|i: int| 0 <= i < old(self).relative@.len() ==> {
                &&& (#[trigger] final(self).relative@[i]).name == old(self).relative@[i].name
                &&& final(self).relative@[i].input_type == (match old(self).relative@[i].input_type {
                    InputKind::Relative(_) => InputKind::Relative(0),
                    other => other,
                })
            },
    {
        let mut i: usize = 0;
        while i < self.relative.len()
            invariant
                i <= self.relative@.len(),
                self.absolute@ == old(self).absolute@,
                self.buttons@ == old(self).buttons@,
                self.relative@.len() == old(self).relative@.len(),
                forall|k: int| 0 <= k < i ==> {
                    &&& (#[trigger] self.relative@[k]).name == old(self).relative@[k].name
                    &&& self.relative@[k].input_type == (match old(self).relative@[k].input_type {
                        InputKind::Relative(_) => InputKind::Relative(0),
                        other => other,
                    })
                },
                forall|k: int| i <= k < self.relative@.len() ==> #[trigger] self.relative@[k] == old(self).relative@[k],
            decreases self.relative@.len() - i,
        {
            if let InputKind::Relative(_) = self.relative[i].input_type {
                self.relative[i].input_type = InputKind::Relative(0);
            }
            i = i + 1;
        }
    }

    pub open spec fn spec_absolute_axis(self, location: InputLocation) -> Option<AbsoluteAxis> {
        match self.spec_input(location) {
            Some(d) => match d.input_type {
                InputKind::Absolute(state) => Some(AbsoluteAxis { min: state.min, max: state.max, value: state.value }),
                _ => None,
            },
            None => None,
        }
    }

    /// Range and value of the absolute axis at `location`; `None` for other
    /// kinds of input and for positions out of range.
    pub fn absolute_axis(&self, location: InputLocation) -> (a: Option<AbsoluteAxis>)
        ensures
            a == self.spec_absolute_axis(location),
    {
        let input = match self.input(location) {
            Some(input) => input,
            None => return None,
        };
        match input.input_type {
            InputKind::Absolute(state) => Some(AbsoluteAxis { min: state.min, max: state.max, value: state.value }),
            _ => None,
        }
    }

    pub fn absolute_inputs(&self) -> (s: &[DeviceInput])
        ensures
            s@ == self.absolute@,
    {
        self.absolute.as_slice()
    }

    pub fn relative_inputs(&self) -> (s: &[DeviceInput])
        ensures
            s@ == self.relative@,
    {
        self.relative.as_slice()
    }

    pub fn button_inputs(&self) -> (s: &[DeviceInput])
        ensures
            s@ == self.buttons@,
    {
        self.buttons.as_slice()
    }
}

} // verus!

verus! {

/// Inputs of a device with their codes, as discovery lists them, per bucket.
pub struct InputEntries {
    pub absolute: Vec<(u16, DeviceInput)>,
    pub relative: Vec<(u16, DeviceInput)>,
    pub buttons: Vec<(u16, DeviceInput)>,
}

/// `inputs` are the entries `e` ordered by code, and `index` records their
/// positions on top of `before`.
pub open spec fn filed(
    e: Seq<(u16, DeviceInput)>,
    inputs: Seq<DeviceInput>,
    bucket: Bucket,
    before: Map<u32, InputLocation>,
    index: Map<u32, InputLocation>,
) -> bool {
    exists|s: Seq<(u16, DeviceInput)>|
        {
            &&& sorted_by_code(s)
            &&& s.to_multiset() == e.to_multiset()
            &&& inputs.len() == s.len()
            &&& forall|i: int| 0 <= i < s.len() ==> inputs[i] == #[trigger] s[i].1
            &&& index == before.union_prefer_right(index_records(s, bucket))
        }
}

/// Each bucket holds its entries ordered by code, and the index records the
/// absolute, then the relative, then the button positions.
pub open spec fn all_filed(
    absolute: Seq<(u16, DeviceInput)>,
    relative: Seq<(u16, DeviceInput)>,
    buttons: Seq<(u16, DeviceInput)>,
    buckets: InputBuckets,
    index: Map<u32, InputLocation>,
) -> bool {
    exists|m1: Map<u32, InputLocation>, m2: Map<u32, InputLocation>|
        #![trigger filed(absolute, buckets.absolute@, Bucket::Absolute, Map::empty(), m1), filed(relative, buckets.relative@, Bucket::Relative, m1, m2)]
        {
            &&& filed(absolute, buckets.absolute@, Bucket::Absolute, Map::empty(), m1)
            &&& filed(relative, buckets.relative@, Bucket::Relative, m1, m2)
            &&& filed(buttons, buckets.buttons@, Bucket::Buttons, m2, index)
        }
}

impl InputEntries {
    pub fn new(
        absolute: Vec<(u16, DeviceInput)>,
        relative: Vec<(u16, DeviceInput)>,
        buttons: Vec<(u16, DeviceInput)>,
    ) -> (e: Self)
        ensures
            e.absolute == absolute,
            e.relative == relative,
            e.buttons == buttons,
    {
        Self { absolute, relative, buttons }
    }

    /// Orders each bucket by code and indexes every input by its identity.
    pub fn into_buckets_and_index(self) -> (r: (InputBuckets, EventIndex))
        ensures
            all_filed(self.absolute@, self.relative@, self.buttons@, r.0, r.1@),
    {
        let mut event_index = EventIndex::new();
        let ghost m0 = event_index@;
        let absolute = sorted_inputs(self.absolute, Bucket::Absolute, &mut event_index);
        let ghost m1 = event_index@;
        let relative = sorted_inputs(self.relative, Bucket::Relative, &mut event_index);
        let ghost m2 = event_index@;
        let buttons = sorted_inputs(self.buttons, Bucket::Buttons, &mut event_index);
        proof {
            assert(m0 == Map::<u32, InputLocation>::empty());
            assert(filed(self.absolute@, absolute@, Bucket::Absolute, m0, m1));
            assert(filed(self.relative@, relative@, Bucket::Relative, m1, m2));
            assert(filed(self.buttons@, buttons@, Bucket::Buttons, m2, event_index@));
            let bk = InputBuckets { absolute, relative, buttons };
            assert(filed(self.absolute@, bk.absolute@, Bucket::Absolute, Map::empty(), m1));
            assert(filed(self.relative@, bk.relative@, Bucket::Relative, m1, m2));
            assert(filed(self.buttons@, bk.buttons@, Bucket::Buttons, m2, event_index@));
            assert(all_filed(self.absolute@, self.relative@, self.buttons@, bk, event_index@));
        }
        (InputBuckets { absolute, relative, buttons }, event_index)
    }
}

/// All inputs of the monitored device, with the index that routes events to them.
pub struct InputCollection {
    pub buckets: InputBuckets,
    pub event_index: EventIndex,
}

impl InputCollection {
    /// Files the entries of a device into ordered buckets and indexes them.
    pub fn from_entries(
        absolute: Vec<(u16, DeviceInput)>,
        relative: Vec<(u16, DeviceInput)>,
        buttons: Vec<(u16, DeviceInput)>,
    ) -> (c: Self)
        ensures
            all_filed(absolute@, relative@, buttons@, c.buckets, c.event_index@),
    {
        let entries = InputEntries::new(absolute, relative, buttons);
        let (buckets, event_index) = entries.into_buckets_and_index();
        Self { buckets, event_index }
    }

    /// Where the index files `id`.
    pub fn location_for(&self, id: InputId) -> (l: Option<InputLocation>)
        ensures
            l == self.event_index.lookup(id),
    {
        self.event_index.location_for(id)
    }

    /// Applies an event to the input it reports on, if the device has that
    /// input; every other input stays as it was.
    pub fn handle_event(&mut self, event: &RawEvent)
        ensures
            final(self).event_index@ == old(self).event_index@,
            ({
                let target = match InputId::spec_from_event(*event) {
                    Some(id) => old(self).event_index.lookup(id),
                    None => None,
                };
                match target {
                    Some(location) => match old(self).buckets.spec_input(location) {
                        Some(input) => old(self).buckets.replaced(
                            final(self).buckets,
                            location,
                            DeviceInput { name: input.name, input_type: input.input_type.spec_update(*event) },
                        ),
                        None => old(self).buckets.same(final(self).buckets),
                    },
                    None => old(self).buckets.same(final(self).buckets),
                }
            }),
    {
        let id = match InputId::from_event(event) {
            Some(id) => id,
            None => return,
        };
        let location = match self.event_index.location_for(id) {
            Some(location) => location,
            None => return,
        };
        match self.buckets.input_mut(location) {
            Some(input) => input.input_type.update(event),
            None => {},
        }
    }

    /// Clears every relative accumulator.
    pub fn reset_relative_axes(&mut self)
        ensures
            final(self).event_index@ == old(self).event_index@,
            final(self).buckets.absolute@ == old(self).buckets.absolute@,
            final(self).buckets.buttons@ == old(self).buckets.buttons@,
            final(self).buckets.relative@.len() == old(self).buckets.relative@.len(),
            forall|i: int| 0 <= i < old(self).buckets.relative@.len() ==> {
                &&& (#[trigger] final(self).buckets.relative@[i]).name == old(self).buckets.relative@[i].name
                &&& final(self).buckets.relative@[i].input_type == (match old(self).buckets.relative@[i].input_type {
                    InputKind::Relative(_) => InputKind::Relative(0),
                    other => other,
                })
            },
    {
        self.buckets.reset_relative_axes();
    }

    pub open spec fn spec_absolute_axis(self, code: u16) -> Option<AbsoluteAxis> {
        match self.event_index.lookup(InputId { kind: InputTypeId::Abs, code }) {
            Some(location) => self.buckets.spec_absolute_axis(location),
            None => None,
        }
    }

    /// Range and value of the absolute axis with `code`, if the device has it.
    pub fn absolute_axis(&self, code: u16) -> (a: Option<AbsoluteAxis>)
        ensures
            a == self.spec_absolute_axis(code),
    {
        let location = match self.event_index.location_for(InputId::absolute(code)) {
            Some(location) => location,
            None => return None,
        };
        self.buckets.absolute_axis(location)
    }

    /// Both axes of a stick, when the device has both.
    pub fn absolute_axis_pair(&self, x: u16, y: u16) -> (p: Option<(AbsoluteAxis, AbsoluteAxis)>)
        ensures
            p == (match (self.spec_absolute_axis(x), self.spec_absolute_axis(y)) {
                (Some(ax), Some(ay)) => Some((ax, ay)),
                _ => None,
            }),
    {
        let ax = match self.absolute_axis(x) {
            Some(a) => a,
            None => return None,
        };
        let ay = match self.absolute_axis(y) {
            Some(a) => a,
            None => return None,
        };
        Some((ax, ay))
    }

    pub fn absolute_inputs(&self) -> (s: &[DeviceInput])
        ensures
            s@ == self.buckets.absolute@,
    {
        self.buckets.absolute_inputs()
    }

    pub fn relative_inputs(&self) -> (s: &[DeviceInput])
        ensures
            s@ == self.buckets.relative@,
    {
        self.buckets.relative_inputs()
    }

    pub fn button_inputs(&self) -> (s: &[DeviceInput])
        ensures
            s@ == self.buckets.buttons@,
    {
        self.buckets.button_inputs()
    }
}

/// A button follows the key events of its code: after a key event (type 1)
/// it is pressed exactly when the value is nonzero, so a press (1) and an
/// auto-repeat (2) both leave it pressed and only a release (0) lets it go;
/// an event of any other type leaves it as it was. Whatever the event, a
/// button stays a button.
pub proof fn law_button_pressed_while_value_nonzero(pressed: bool, event: RawEvent)
    ensures
        event.event_type == 1 ==> (InputKind::Button(pressed).spec_update(event) matches InputKind::Button(p)
            && (p <==> event.value != 0)),
        event.event_type == 1 && event.value > 0 ==> InputKind::Button(pressed).spec_update(event)
            == InputKind::Button(true),
        event.event_type == 1 && event.value == 0 ==> InputKind::Button(pressed).spec_update(event)
            == InputKind::Button(false),
        event.event_type != 1 ==> InputKind::Button(pressed).spec_update(event) == InputKind::Button(pressed),
{
}

} // verus!
