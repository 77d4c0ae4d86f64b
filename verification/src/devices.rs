//! Small integer identities for input devices.

use vstd::prelude::*;
use rustc_hash::FxHashMap;

verus! {

/// The hasher builder of `rustc_hash`, which a map carries along. Nothing
/// is said of what it holds.
#[verifier::external_type_specification]
#[verifier::external_body]
pub struct ExFxBuildHasher(rustc_hash::FxBuildHasher);

/// The map behind a [`DeviceTable`]: from a device to its identity.
pub type IdMap = FxHashMap<u64, u32>;

/// Calls `FxHashMap::default`: a hash map of the standard library with the
/// Fx hasher and no entry.
#[verifier::external_body]
fn table_new() -> (table: IdMap)
    ensures
        table@ =~= Map::empty(),
{
    FxHashMap::default()
}

/// Calls `HashMap::get` on a map with the Fx hasher: the value stored under
/// `device`, if the map has that key. The hasher is a deterministic
/// function of the key, so the map finds every key it holds.
#[verifier::external_body]
fn table_get(table: &IdMap, device: u64) -> (id: Option<u32>)
    ensures
        id == if table@.contains_key(device) {
            Some(table@[device])
        } else {
            None::<u32>
        },
{
    table.get(&device).copied()
}

/// Calls `HashMap::insert` on a map with the Fx hasher: afterwards the map
/// holds `id` under `device`, and every other key as before.
#[verifier::external_body]
fn table_insert(table: &mut IdMap, device: u64, id: u32)
    ensures
        final(table)@ == old(table)@.insert(device, id),
{
    table.insert(device, id);
}

/// The devices seen so far, each with the identity it was given.
pub struct DeviceTable {
    devices: u32,
    device_id_map: IdMap,
}

/// The mathematical value of a [`DeviceTable`].
pub struct DeviceTableView {
    /// How many identities have been given out.
    pub devices: u32,
    /// The identity of each device seen.
    pub ids: Map<u64, u32>,
}

impl View for DeviceTable {
    type V = DeviceTableView;

    closed spec fn view(&self) -> DeviceTableView {
        DeviceTableView { devices: self.devices, ids: self.device_id_map@ }
    }
}

impl DeviceTableView {
    /// Every identity in the table was given out: it is below the count.
    pub open spec fn wf(self) -> bool {
        forall|d: u64| #[trigger] self.ids.contains_key(d) ==> self.ids[d] < self.devices
    }

    /// No two devices share an identity.
    pub open spec fn distinct(self) -> bool {
        forall|a: u64, b: u64|
            self.ids.contains_key(a) && self.ids.contains_key(b) && a != b ==> self.ids[a]
                != self.ids[b]
    }

    /// The table with no device.
    pub open spec fn empty() -> DeviceTableView {
        DeviceTableView { devices: 0, ids: Map::empty() }
    }

    /// The identity of `device`: the one it has, or else the next unused
    /// integer. There is none for a new device once `u32::MAX` identities
    /// have been given out.
    pub open spec fn identity(self, device: u64) -> Option<u32> {
        if self.ids.contains_key(device) {
            Some(self.ids[device])
        } else if self.devices < u32::MAX {
            Some(self.devices)
        } else {
            None
        }
    }

    /// The table after `device` was identified: a new device is entered
    /// with its identity.
    pub open spec fn identify(self, device: u64) -> DeviceTableView {
        if !self.ids.contains_key(device) && self.devices < u32::MAX {
            DeviceTableView {
                devices: (self.devices + 1) as u32,
                ids: self.ids.insert(device, self.devices),
            }
        } else {
            self
        }
    }
}

/// A device that has an identity keeps it, whichever device is identified
/// next.
pub proof fn lemma_identity_is_stable(table: DeviceTableView, device: u64, next: u64)
    requires
        table.ids.contains_key(device),
    ensures
        table.identify(next).ids.contains_key(device),
        table.identify(next).ids[device] == table.ids[device],
        table.identify(next).identity(device) == table.identity(device),
{
}

/// Identifying a device enters it under the identity that was returned,
/// and a new identity is the number of identities given out before.
pub proof fn lemma_identity_is_recorded(table: DeviceTableView, device: u64)
    requires
        table.identity(device) is Some,
    ensures
        table.identify(device).ids.contains_key(device),
        table.identify(device).ids[device] == table.identity(device).unwrap(),
        table.identify(device).devices >= table.devices,
        !table.ids.contains_key(device) ==> table.identity(device) == Some(table.devices)
            && table.identify(device).devices == table.devices + 1,
{
}

/// Identifying a device keeps the table well formed, and keeps distinct
/// devices under distinct identities.
pub proof fn lemma_identities_stay_distinct(table: DeviceTableView, device: u64)
    requires
        table.wf(),
        table.distinct(),
    ensures
        table.identify(device).wf(),
        table.identify(device).distinct(),
{
    let after = table.identify(device);
    assert forall|a: u64, b: u64|
        after.ids.contains_key(a) && after.ids.contains_key(b) && a != b implies after.ids[a]
        != after.ids[b] by {
        if a != device {
            assert(table.ids.contains_key(a));
        }
        if b != device {
            assert(table.ids.contains_key(b));
        }
    }
}

impl DeviceTable {
    /// Makes a table with no device.
    pub fn new() -> (table: DeviceTable)
        ensures
            table@ == DeviceTableView::empty(),
    {
        DeviceTable { devices: 0, device_id_map: table_new() }
    }

    /// The number of identities given out so far.
    pub fn devices(&self) -> (n: u32)
        ensures
            n == self@.devices,
    {
        self.devices
    }

    /// Looks up the identity of a device without entering it.
    pub fn get(&self, device: u64) -> (id: Option<u32>)
        ensures
            id == if self@.ids.contains_key(device) {
                Some(self@.ids[device])
            } else {
                None::<u32>
            },
    {
        table_get(&self.device_id_map, device)
    }

    /// Returns the identity of `device`, entering the device if it is new.
    pub fn identify(&mut self, device: u64) -> (id: Option<u32>)
        ensures
            id == old(self)@.identity(device),
            final(self)@ == old(self)@.identify(device),
    {
        match table_get(&self.device_id_map, device) {
            Some(id) => Some(id),
            None => {
                if self.devices < u32::MAX {
                    let id: u32 = self.devices;
                    table_insert(&mut self.device_id_map, device, id);
                    self.devices = id + 1;
                    Some(id)
                } else {
                    None
                }
            },
        }
    }
}

} // verus!
