use vstd::prelude::*;

use crate::selector::issue::DiscoveryResult;
use crate::ui::numbers::push_char;

verus! {

pub open spec fn spec_device_label(name: Seq<char>, path: Seq<char>) -> Seq<char> {
    name + seq![' ', '('] + path + seq![')']
}

/// How the selector lists a device: its name, then its path in brackets.
pub fn format_device_label(name: &str, path: &str) -> (s: String)
    ensures
        s@ == spec_device_label(name@, path@),
{
    let mut s = String::from_str(name);
    push_char(&mut s, ' ');
    push_char(&mut s, '(');
    s.append(path);
    push_char(&mut s, ')');
    assert(s@ =~= spec_device_label(name@, path@));
    s
}

/// Splits a discovery into its devices, a label for each (in the same
/// order), and the message to show, which exists only when no device was
/// found.
pub fn catalog_parts_from_discovery<T, F: Fn(&T) -> String>(
    discovery: DiscoveryResult<T>,
    label_for: F,
) -> (parts: (Vec<T>, Vec<String>, Option<String>))
    requires
        forall|t: &T| #[trigger] call_requires(label_for, (t,)),
    ensures
        parts.0@ == discovery.devices@,
        parts.1@.len() == parts.0@.len(),
        forall|i: int|
            0 <= i < parts.1@.len() ==> call_ensures(label_for, (&parts.0@[i],), #[trigger] parts.1@[i]),
        match parts.2 {
            Some(m) => discovery.spec_error_message() == Some(m@),
            None => discovery.spec_error_message() is None,
        },
{
    let error_message = discovery.error_message();
    let devices = discovery.devices;
    let mut labels: Vec<String> = Vec::new();
    let mut i: usize = 0;
    while i < devices.len()
        invariant
            i <= devices@.len(),
            labels@.len() == i,
            forall|t: &T| #[trigger] call_requires(label_for, (t,)),
            forall|j: int| 0 <= j < i ==> call_ensures(label_for, (&devices@[j],), #[trigger] labels@[j]),
        decreases devices@.len() - i,
    {
        let label = label_for(&devices[i]);
        labels.push(label);
        i = i + 1;
    }
    (devices, labels, error_message)
}

/// Takes the item at `index` out of `items`, and its label out of `labels`;
/// the last item and label take their place. Nothing changes where no index
/// is given or it is past the items.
pub fn take_selected_item<T>(items: &mut Vec<T>, labels: &mut Vec<String>, index: Option<usize>) -> (r: Option<T>)
    requires
        index matches Some(i) ==> (i < old(items)@.len() ==> i < old(labels)@.len()),
    ensures
        match index {
            Some(i) => if i < old(items)@.len() {
                &&& r == Some(old(items)@[i as int])
                &&& final(items)@ == old(items)@.update(i as int, old(items)@.last()).drop_last()
                &&& final(labels)@ == old(labels)@.update(i as int, old(labels)@.last()).drop_last()
            } else {
                &&& r is None
                &&& final(items)@ == old(items)@
                &&& final(labels)@ == old(labels)@
            },
            None => r is None && final(items)@ == old(items)@ && final(labels)@ == old(labels)@,
        },
{
    let i = match index {
        Some(i) => i,
        None => return None,
    };
    if i >= items.len() {
        return None;
    }
    labels.swap_remove(i);
    Some(items.swap_remove(i))
}

/// The devices the selector lists, with their labels in the same order.
pub struct DeviceCatalog<T> {
    devices: Vec<T>,
    labels: Vec<String>,
}

impl<T> DeviceCatalog<T> {
    pub closed spec fn spec_devices(self) -> Seq<T> {
        self.devices@
    }

    pub closed spec fn spec_labels(self) -> Seq<String> {
        self.labels@
    }

    /// Every device has its label.
    pub open spec fn wf(self) -> bool {
        self.spec_devices().len() == self.spec_labels().len()
    }

    /// The catalog of a discovery, and the message to show.
    pub fn from_discovery<F: Fn(&T) -> String>(discovery: DiscoveryResult<T>, label_for: F) -> (r: (
        Self,
        Option<String>,
    ))
        requires
            forall|t: &T| #[trigger] call_requires(label_for, (t,)),
        ensures
            r.0.wf(),
            r.0.spec_devices() == discovery.devices@,
            forall|i: int|
                0 <= i < r.0.spec_labels().len() ==> call_ensures(
                    label_for,
                    (&r.0.spec_devices()[i],),
                    #[trigger] r.0.spec_labels()[i],
                ),
            match r.1 {
                Some(m) => discovery.spec_error_message() == Some(m@),
                None => discovery.spec_error_message() is None,
            },
    {
        let (devices, labels, error_message) = catalog_parts_from_discovery(discovery, label_for);
        (DeviceCatalog { devices, labels }, error_message)
    }

    /// A catalog of devices and their labels, paired by position.
    pub fn from_parts(devices: Vec<T>, labels: Vec<String>) -> (c: Self)
        requires
            devices@.len() == labels@.len(),
        ensures
            c.wf(),
            c.spec_devices() == devices@,
            c.spec_labels() == labels@,
    {
        DeviceCatalog { devices, labels }
    }

    pub fn labels(&self) -> (l: &[String])
        ensures
            l@ == self.spec_labels(),
    {
        self.labels.as_slice()
    }

    /// The label at `index`, if there is one.
    pub fn label(&self, index: usize) -> (l: Option<&str>)
        ensures
            match l {
                Some(s) => index < self.spec_labels().len() && s@ == self.spec_labels()[index as int]@,
                None => index >= self.spec_labels().len(),
            },
    {
        if index < self.labels.len() {
            Some(self.labels[index].as_str())
        } else {
            None
        }
    }

    /// Takes the device at `index` out of the catalog, with its label.
    pub fn take_selected(&mut self, index: Option<usize>) -> (r: Option<T>)
        requires
            old(self).wf(),
        ensures
            final(self).wf(),
            match index {
                Some(i) => if i < old(self).spec_devices().len() {
                    &&& r == Some(old(self).spec_devices()[i as int])
                    &&& final(self).spec_devices() == old(self).spec_devices().update(
                        i as int,
                        old(self).spec_devices().last(),
                    ).drop_last()
                    &&& final(self).spec_labels() == old(self).spec_labels().update(
                        i as int,
                        old(self).spec_labels().last(),
                    ).drop_last()
                } else {
                    r is None && final(self).spec_devices() == old(self).spec_devices()
                        && final(self).spec_labels() == old(self).spec_labels()
                },
                None => r is None && final(self).spec_devices() == old(self).spec_devices()
                    && final(self).spec_labels() == old(self).spec_labels(),
            },
    {
        take_selected_item(&mut self.devices, &mut self.labels, index)
    }
}

} // verus!
