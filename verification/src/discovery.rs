//! What becomes of a peripheral that a scan has found.
//!
//! Only peripherals whose advertised name begins with `LHB-` are managed. Any
//! other is reported once as ignored and never entered into the registry.

use crate::device::{fresh_device, Device, DeviceIdentity, DeviceView};
use crate::device_list::{
    distinct_keys, has_key, with_inserted, with_replaced, DeviceList, Entries,
};
use crate::dto::info::{ignored_info, is_report, DeviceInfo, DeviceInfoView};
use vstd::prelude::*;
use vstd::string::*;

verus! {

/// The prefix that the name of a managed device begins with.
pub open spec fn name_prefix() -> Seq<char> {
    seq!['L', 'H', 'B', '-']
}

/// Whether a name is that of a managed device.
pub open spec fn is_managed_name(name: Seq<char>) -> bool {
    name_prefix().is_prefix_of(name)
}

/// Whether a peripheral advertises the name of a managed device. One without a
/// name does not.
pub open spec fn advertises_managed_name(name: Option<Seq<char>>) -> bool {
    match name {
        Some(name) => is_managed_name(name),
        None => false,
    }
}

/// The view of an optional name.
pub open spec fn name_view(name: Option<String>) -> Option<Seq<char>> {
    match name {
        Some(name) => Some(name@),
        None => None,
    }
}

/// Whether a name begins with `LHB-`.
pub fn has_managed_name(name: &str) -> (managed: bool)
    ensures
        managed == is_managed_name(name@),
{
    if name.unicode_len() < 4 {
        return false;
    }
    let managed = name.get_char(0) == 'L' && name.get_char(1) == 'H' && name.get_char(2) == 'B'
        && name.get_char(3) == '-';
    proof {
        let head = name@.subrange(0, 4);
        if managed {
            assert(head =~= name_prefix());
        } else {
            assert(head[0] == name@[0] && head[1] == name@[1] && head[2] == name@[2] && head[3]
                == name@[3]);
        }
    }
    managed
}

/// What the engine makes of a peripheral once its properties are known.
#[derive(Debug, PartialEq, Eq)]
pub enum Sighting {
    /// A device is known under this identity already. Nothing is to be done.
    Known,
    /// The name is not that of a managed device. The message reports it; nothing
    /// else is to be done.
    Ignored(DeviceInfo),
    /// A managed device, now entered into the registry and to be verified.
    Managed(Device),
}

/// Mathematical form of a [`Sighting`].
pub enum SightingView {
    Known,
    Ignored(DeviceInfoView),
    Managed(DeviceView),
}

impl View for Sighting {
    type V = SightingView;

    open spec fn view(&self) -> SightingView {
        match self {
            Sighting::Known => SightingView::Known,
            Sighting::Ignored(info) => SightingView::Ignored(info@),
            Sighting::Managed(device) => SightingView::Managed(device@),
        }
    }
}

/// The registry after a peripheral has been considered, and what was made of
/// the peripheral. The name decides first: a peripheral without the name of a
/// managed device is ignored, whether or not its identity is known.
pub open spec fn enrolled(
    entries: Entries,
    id: DeviceIdentity,
    address: Seq<char>,
    name: Option<Seq<char>>,
) -> (Entries, SightingView) {
    if !advertises_managed_name(name) {
        (entries, SightingView::Ignored(ignored_info(id, address, name)))
    } else if has_key(entries, id) {
        (entries, SightingView::Known)
    } else {
        let device = fresh_device(id, address, name->0);
        (with_inserted(entries, id, device), SightingView::Managed(device))
    }
}

/// Whether every entry carries the name of a managed device.
pub open spec fn all_managed(entries: Entries) -> bool {
    forall|k: int| 0 <= k < entries.len() ==> is_managed_name((#[trigger] entries[k]).1.name)
}

/// Whether every entry stands under the identity of its device.
pub open spec fn keyed_by_identity(entries: Entries) -> bool {
    forall|k: int| 0 <= k < entries.len() ==> (#[trigger] entries[k]).0 == entries[k].1.id
}

/// Whether a discovered peripheral is worth a look: not if a device is known
/// under its identity, which is then being processed or already resolved.
pub fn should_inspect(devices: &DeviceList, id: DeviceIdentity) -> (inspect: bool)
    ensures
        inspect <==> !has_key(devices@, id),
{
    !devices.contains(id)
}

/// Considers a peripheral whose properties have been fetched. A managed device
/// is entered into the registry unless its identity is taken; the check and the
/// entry are one step, so of two tasks that consider the same peripheral only
/// one is told to verify it.
pub fn enroll(
    devices: &mut DeviceList,
    id: DeviceIdentity,
    address: String,
    name: Option<String>,
) -> (sighting: Sighting)
    ensures
        (final(devices)@, sighting@) == enrolled(old(devices)@, id, address@, name_view(name)),
        distinct_keys(final(devices)@),
        all_managed(old(devices)@) ==> all_managed(final(devices)@),
        keyed_by_identity(old(devices)@) ==> keyed_by_identity(final(devices)@),
        sighting matches Sighting::Ignored(info) ==> is_report(info@),
{
    let ghost before = devices@;
    proof {
        lemma_enrolled_keeps_invariants(before, id, address@, name_view(name));
    }
    devices.note_distinct();
    let managed = match &name {
        Some(name) => has_managed_name(name.as_str()),
        None => false,
    };
    if !managed {
        return Sighting::Ignored(DeviceInfo::ignored(id, address, name));
    }
    let device = Device::new(id, address, name.unwrap());
    if devices.insert_if_absent(id, device.clone()) {
        Sighting::Managed(device)
    } else {
        Sighting::Known
    }
}

/// A peripheral whose name is not that of a managed device never enters the
/// registry, and is reported by exactly one message, which says `Ignored`.
pub proof fn lemma_unmanaged_is_ignored(
    entries: Entries,
    id: DeviceIdentity,
    address: Seq<char>,
    name: Option<Seq<char>>,
)
    requires
        !advertises_managed_name(name),
    ensures
        enrolled(entries, id, address, name).0 == entries,
        enrolled(entries, id, address, name).1 == SightingView::Ignored(
            ignored_info(id, address, name),
        ),
        is_report(ignored_info(id, address, name)),
{
}

/// Considering a peripheral keeps what holds of a registry: only managed names
/// in it, each device under its own identity, no identity twice.
pub proof fn lemma_enrolled_keeps_invariants(
    entries: Entries,
    id: DeviceIdentity,
    address: Seq<char>,
    name: Option<Seq<char>>,
)
    ensures
        all_managed(entries) ==> all_managed(enrolled(entries, id, address, name).0),
        keyed_by_identity(entries) ==> keyed_by_identity(enrolled(entries, id, address, name).0),
        distinct_keys(entries) ==> distinct_keys(enrolled(entries, id, address, name).0),
{
    let after = enrolled(entries, id, address, name).0;
    if advertises_managed_name(name) && !has_key(entries, id) {
        let device = fresh_device(id, address, name->0);
        assert(after == entries.push((id, device)));
        assert forall|k: int| 0 <= k < after.len() implies (is_managed_name(
            (#[trigger] after[k]).1.name,
        ) || !all_managed(entries)) by {
            if k < entries.len() {
                assert(after[k] == entries[k]);
            }
        }
        assert forall|k: int| 0 <= k < after.len() implies ((#[trigger] after[k]).0
            == after[k].1.id || !keyed_by_identity(entries)) by {
            if k < entries.len() {
                assert(after[k] == entries[k]);
            }
        }
        if distinct_keys(entries) {
            assert forall|i: int, j: int| 0 <= i < j < after.len() implies (#[trigger] after[i]).0
                != (#[trigger] after[j]).0 by {
                assert(after[i] == entries[i]);
                if j < entries.len() {
                    assert(after[j] == entries[j]);
                }
            }
        }
    }
}

/// Of two attempts to enroll the same managed peripheral, the second finds it
/// known: one discovery gives one verification.
pub proof fn lemma_enrolled_once(
    entries: Entries,
    id: DeviceIdentity,
    address: Seq<char>,
    name: Option<Seq<char>>,
    again_address: Seq<char>,
    again_name: Option<Seq<char>>,
)
    requires
        advertises_managed_name(name),
        advertises_managed_name(again_name),
    ensures
        enrolled(enrolled(entries, id, address, name).0, id, again_address, again_name).1
            == SightingView::Known,
        enrolled(enrolled(entries, id, address, name).0, id, again_address, again_name).0
            == enrolled(entries, id, address, name).0,
{
    let after = enrolled(entries, id, address, name).0;
    if !has_key(entries, id) {
        assert(after[entries.len() as int].0 == id);
    }
}

/// A peripheral whose identity is known is never handed out for verification
/// again, and considering it leaves the registry as it is.
pub proof fn lemma_known_is_not_enrolled_again(
    entries: Entries,
    id: DeviceIdentity,
    address: Seq<char>,
    name: Option<Seq<char>>,
)
    requires
        has_key(entries, id),
    ensures
        !(enrolled(entries, id, address, name).1 is Managed),
        enrolled(entries, id, address, name).0 == entries,
{
}

/// Putting a device back in its place keeps what holds of a registry, as long as
/// the device comes back under its own identity and with the name of a managed
/// device. A flow changes neither, so the registry holds managed devices only,
/// whatever the flows report.
pub proof fn lemma_replaced_keeps_invariants(
    entries: Entries,
    id: DeviceIdentity,
    device: DeviceView,
)
    requires
        device.id == id,
        is_managed_name(device.name),
    ensures
        all_managed(entries) ==> all_managed(with_replaced(entries, id, device)),
        keyed_by_identity(entries) ==> keyed_by_identity(with_replaced(entries, id, device)),
        distinct_keys(entries) ==> distinct_keys(with_replaced(entries, id, device)),
        forall|other: DeviceIdentity|
            has_key(with_replaced(entries, id, device), other) == has_key(entries, other),
{
    let after = with_replaced(entries, id, device);
    assert forall|k: int| 0 <= k < after.len() implies (#[trigger] after[k]).0 == entries[k].0 by {}
    if all_managed(entries) {
        assert forall|k: int| 0 <= k < after.len() implies is_managed_name(
            (#[trigger] after[k]).1.name,
        ) by {
            assert(is_managed_name(entries[k].1.name));
        }
    }
    if keyed_by_identity(entries) {
        assert forall|k: int| 0 <= k < after.len() implies (#[trigger] after[k]).0
            == after[k].1.id by {
            assert(entries[k].0 == entries[k].1.id);
        }
    }
    if distinct_keys(entries) {
        assert forall|i: int, j: int| 0 <= i < j < after.len() implies (#[trigger] after[i]).0
            != (#[trigger] after[j]).0 by {
            assert(entries[i].0 != entries[j].0);
        }
    }
    assert forall|other: DeviceIdentity| has_key(after, other) == has_key(entries, other) by {
        if has_key(after, other) {
            let k = choose|k: int| 0 <= k < after.len() && (#[trigger] after[k]).0 == other;
            assert(entries[k].0 == other);
        }
        if has_key(entries, other) {
            let k = choose|k: int| 0 <= k < entries.len() && (#[trigger] entries[k]).0 == other;
            assert(after[k].0 == other);
        }
    }
}

} // verus!
