//! The registry of known devices.
//!
//! The registry maps an identity to the device discovered under it. It keeps its
//! entries in the order in which they were inserted, and never holds two entries
//! for one identity. It is a plain value: whoever shares it among tasks guards
//! it, and performs no I/O while holding the guard.

use crate::device::{Device, DeviceIdentity, DeviceView};
use crate::dto::info::{statuses_info, DeviceInfo, DeviceInfoView};
use crate::first_match::{lemma_filter_first_match, lemma_filter_without_match};
use vstd::prelude::*;

verus! {

/// The contents of a registry: identities with their devices, oldest first.
pub type Entries = Seq<(DeviceIdentity, DeviceView)>;

/// Whether some entry has this identity.
pub open spec fn has_key(entries: Entries, id: DeviceIdentity) -> bool {
    exists|k: int| 0 <= k < entries.len() && (#[trigger] entries[k]).0 == id
}

/// Whether no identity occurs twice.
pub open spec fn distinct_keys(entries: Entries) -> bool {
    forall|i: int, j: int|
        0 <= i < j < entries.len() ==> (#[trigger] entries[i]).0 != (#[trigger] entries[j]).0
}

/// The test that picks the entries of one identity.
pub open spec fn keyed(id: DeviceIdentity) -> spec_fn((DeviceIdentity, DeviceView)) -> bool {
    |e: (DeviceIdentity, DeviceView)| e.0 == id
}

/// The device entered under an identity, if there is one.
pub open spec fn entry_of(entries: Entries, id: DeviceIdentity) -> Option<DeviceView> {
    let entered = entries.filter(keyed(id));
    if entered.len() == 0 {
        None
    } else {
        Some(entered[0].1)
    }
}

/// The contents after an attempt to enter `device` under `id`: unchanged where
/// the identity is taken, else with the new entry last.
pub open spec fn with_inserted(entries: Entries, id: DeviceIdentity, device: DeviceView) -> Entries {
    if has_key(entries, id) {
        entries
    } else {
        entries.push((id, device))
    }
}

/// The contents after `device` has replaced what was entered under `id`:
/// unchanged where nothing was.
pub open spec fn with_replaced(entries: Entries, id: DeviceIdentity, device: DeviceView) -> Entries {
    Seq::new(
        entries.len(),
        |k: int|
            if entries[k].0 == id {
                (id, device)
            } else {
                entries[k]
            },
    )
}

/// The messages that report every entry with its last statuses, in order.
pub open spec fn status_reports(entries: Entries) -> Seq<DeviceInfoView> {
    Seq::new(
        entries.len(),
        |k: int| statuses_info(entries[k].1, entries[k].1.local, entries[k].1.remote),
    )
}

#[derive(Debug)]
struct Entry {
    id: DeviceIdentity,
    device: Device,
}

/// The registry of known devices.
#[derive(Debug)]
pub struct DeviceList {
    entries: Vec<Entry>,
}

impl View for DeviceList {
    type V = Entries;

    closed spec fn view(&self) -> Entries {
        Seq::new(self.entries.len() as nat, |k: int| (self.entries[k].id, self.entries[k].device@))
    }
}

impl DeviceList {
    #[verifier::type_invariant]
    spec fn unique(&self) -> bool {
        forall|i: int, j: int|
            0 <= i < j < self.entries.len() ==> self.entries[i].id != self.entries[j].id
    }

    /// An empty registry.
    pub fn new() -> (list: Self)
        ensures
            list@ == Entries::empty(),
    {
        let list = DeviceList { entries: Vec::new() };
        assert(list@ =~= Entries::empty());
        list
    }

    /// Does nothing when run. To the verifier it says what holds of every
    /// registry: no identity occurs twice.
    pub fn note_distinct(&self)
        ensures
            distinct_keys(self@),
    {
        proof {
            use_type_invariant(self);
        }
    }

    /// The number of known devices.
    pub fn len(&self) -> (count: usize)
        ensures
            count == self@.len(),
    {
        self.entries.len()
    }

    /// Whether no device is known.
    pub fn is_empty(&self) -> (empty: bool)
        ensures
            empty <==> self@.len() == 0,
    {
        self.entries.len() == 0
    }

    /// Index of the entry with this identity, or the number of entries.
    fn position(&self, id: DeviceIdentity) -> (at: usize)
        ensures
            at <= self.entries.len(),
            at < self.entries.len() ==> self.entries[at as int].id == id,
            forall|k: int| 0 <= k < at ==> self.entries[k].id != id,
            at < self.entries.len() <==> has_key(self@, id),
            at < self.entries.len() ==> entry_of(self@, id) == Some(self.entries[at as int].device@),
            at == self.entries.len() ==> entry_of(self@, id) is None,
    {
        let mut at: usize = 0;
        while at < self.entries.len()
            invariant
                at <= self.entries.len(),
                forall|k: int| 0 <= k < at ==> self.entries[k].id != id,
            ensures
                at < self.entries.len() ==> self.entries[at as int].id == id,
            decreases self.entries.len() - at,
        {
            if self.entries[at].id == id {
                break;
            }
            at += 1;
        }
        proof {
            if at < self.entries.len() {
                assert(self@[at as int].0 == id);
                lemma_filter_first_match(self@, keyed(id), at as int);
            } else {
                lemma_filter_without_match(self@, keyed(id));
            }
        }
        at
    }

    /// Whether a device is known under this identity.
    pub fn contains(&self, id: DeviceIdentity) -> (known: bool)
        ensures
            known <==> has_key(self@, id),
    {
        self.position(id) < self.entries.len()
    }

    /// Enters `device` under `id` unless the identity is taken, in one step.
    /// Returns whether the device was entered; an entry that exists is never
    /// overwritten.
    pub fn insert_if_absent(&mut self, id: DeviceIdentity, device: Device) -> (inserted: bool)
        ensures
            inserted <==> !has_key(old(self)@, id),
            final(self)@ == with_inserted(old(self)@, id, device@),
            distinct_keys(final(self)@),
    {
        proof {
            use_type_invariant(&*self);
        }
        let at = self.position(id);
        if at < self.entries.len() {
            return false;
        }
        let ghost before = self@;
        let mut entries: Vec<Entry> = Vec::new();
        std::mem::swap(&mut self.entries, &mut entries);
        entries.push(Entry { id, device });
        std::mem::swap(&mut self.entries, &mut entries);
        assert(self@ =~= before.push((id, device@)));
        true
    }

    /// A copy of the device known under this identity.
    pub fn get_device(&self, id: DeviceIdentity) -> (found: Option<Device>)
        ensures
            match found {
                Some(device) => entry_of(self@, id) == Some(device@),
                None => entry_of(self@, id) is None,
            },
    {
        let at = self.position(id);
        if at < self.entries.len() {
            Some(self.entries[at].device.clone())
        } else {
            None
        }
    }

    /// Copies of all known devices, in the order in which they were entered.
    pub fn snapshot_values(&self) -> (devices: Vec<Device>)
        ensures
            devices.len() == self@.len(),
            forall|k: int| 0 <= k < devices.len() ==> (#[trigger] devices[k])@ == self@[k].1,
    {
        let mut devices: Vec<Device> = Vec::new();
        let mut at: usize = 0;
        while at < self.entries.len()
            invariant
                at <= self.entries.len(),
                devices.len() == at,
                forall|k: int| 0 <= k < at ==> (#[trigger] devices[k])@ == self@[k].1,
            decreases self.entries.len() - at,
        {
            devices.push(self.entries[at].device.clone());
            at += 1;
        }
        devices
    }

    /// One message per known device with the statuses last recorded for it, in
    /// the order in which the devices were entered.
    pub fn status_report(&self) -> (reports: Vec<DeviceInfo>)
        ensures
            reports.len() == self@.len(),
            forall|k: int|
                0 <= k < reports.len() ==> (#[trigger] reports[k])@ == status_reports(self@)[k],
    {
        let mut reports: Vec<DeviceInfo> = Vec::new();
        let mut at: usize = 0;
        while at < self.entries.len()
            invariant
                at <= self.entries.len(),
                reports.len() == at,
                forall|k: int|
                    0 <= k < at ==> (#[trigger] reports[k])@ == status_reports(self@)[k],
            decreases self.entries.len() - at,
        {
            let device = &self.entries[at].device;
            let (local, remote) = device.get_last_statuses();
            reports.push(DeviceInfo::from_device_statuses(device, local, remote));
            at += 1;
        }
        reports
    }

    /// Puts `device` in the place of what is known under `id`, and says whether
    /// anything was. Nothing is entered under an unknown identity: a task that
    /// outlived a reset of the registry does not bring its device back.
    pub fn replace(&mut self, id: DeviceIdentity, device: Device) -> (replaced: bool)
        ensures
            replaced <==> has_key(old(self)@, id),
            final(self)@ == with_replaced(old(self)@, id, device@),
            distinct_keys(final(self)@),
    {
        proof {
            use_type_invariant(&*self);
        }
        let at = self.position(id);
        let ghost before = self@;
        if at < self.entries.len() {
            let mut entries: Vec<Entry> = Vec::new();
            std::mem::swap(&mut self.entries, &mut entries);
            entries.set(at, Entry { id, device });
            std::mem::swap(&mut self.entries, &mut entries);
            assert(self@ =~= with_replaced(before, id, device@));
            true
        } else {
            assert(self@ =~= with_replaced(before, id, device@));
            false
        }
    }

    /// Forgets every device. Copies handed out earlier stay as they are.
    pub fn clear(&mut self)
        ensures
            final(self)@ == Entries::empty(),
    {
        self.entries = Vec::new();
        assert(self@ =~= Entries::empty());
    }
}

impl Default for DeviceList {
    fn default() -> (list: Self)
        ensures
            list@ == Entries::empty(),
    {
        DeviceList::new()
    }
}

impl Clone for DeviceList {
    fn clone(&self) -> (copy: Self)
        ensures
            copy@ == self@,
    {
        proof {
            use_type_invariant(self);
        }
        let mut entries: Vec<Entry> = Vec::new();
        let mut at: usize = 0;
        while at < self.entries.len()
            invariant
                at <= self.entries.len(),
                entries.len() == at,
                forall|k: int|
                    0 <= k < at ==> {
                        &&& (#[trigger] entries[k]).id == self.entries[k].id
                        &&& entries[k].device@ == self.entries[k].device@
                    },
            decreases self.entries.len() - at,
        {
            let device = self.entries[at].device.clone();
            entries.push(Entry { id: self.entries[at].id, device });
            at += 1;
        }
        let copy = DeviceList { entries };
        assert(copy@ =~= self@);
        copy
    }
}

/// Entering under one identity twice: the second attempt is turned away and
/// leaves the registry as the first attempt left it, so the entry stays the one
/// of the first attempt.
pub proof fn lemma_second_insert_is_refused(
    entries: Entries,
    id: DeviceIdentity,
    first: DeviceView,
    second: DeviceView,
)
    ensures
        has_key(with_inserted(entries, id, first), id),
        with_inserted(with_inserted(entries, id, first), id, second) == with_inserted(
            entries,
            id,
            first,
        ),
        !has_key(entries, id) ==> entry_of(with_inserted(entries, id, first), id) == Some(first),
{
    let after = with_inserted(entries, id, first);
    if !has_key(entries, id) {
        let at = entries.len() as int;
        assert(after[at].0 == id);
        assert forall|k: int| 0 <= k < at implies !(after[k].0 == id) by {
            assert(after[k] == entries[k]);
        }
        lemma_filter_first_match(after, keyed(id), at);
    }
}

/// An attempt to enter a device keeps identities apart, and changes nothing of
/// what was entered under another identity.
pub proof fn lemma_insert_keeps_others(
    entries: Entries,
    id: DeviceIdentity,
    device: DeviceView,
    other: DeviceIdentity,
)
    requires
        distinct_keys(entries),
        other != id,
    ensures
        distinct_keys(with_inserted(entries, id, device)),
        has_key(with_inserted(entries, id, device), other) == has_key(entries, other),
        entry_of(with_inserted(entries, id, device), other) == entry_of(entries, other),
{
    let after = with_inserted(entries, id, device);
    if !has_key(entries, id) {
        assert(after.drop_last() =~= entries);
        assert(entry_of(after, other) == entry_of(entries, other)) by {
            reveal(Seq::filter);
        }
        if has_key(after, other) {
            let k = choose|k: int| 0 <= k < after.len() && (#[trigger] after[k]).0 == other;
            assert(entries[k].0 == other);
        }
        if has_key(entries, other) {
            let k = choose|k: int| 0 <= k < entries.len() && (#[trigger] entries[k]).0 == other;
            assert(after[k].0 == other);
        }
    }
}

} // verus!
