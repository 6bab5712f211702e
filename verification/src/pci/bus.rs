//! The PCI functions of a machine, and the search among them.

use crate::pci::config::{ConfigurationSpace, PciAddress, ADDRESS_PORT, DATA_PORT};
use crate::pci::scan::PciScan;
use vstd::prelude::*;

verus! {

/// The endpoints of a machine.
#[derive(Debug)]
pub struct PciBus {
    config_space: ConfigurationSpace,
    devices: Vec<PciAddress>,
}

/// The base class and the subclass of a function.
#[derive(Clone, Copy, Debug, PartialEq, Eq, Structural)]
pub struct DeviceClass {
    pub base_class: u8,
    pub sub_class: u8,
}

/// The vendor and the device number of a function.
#[derive(Clone, Copy, Debug, PartialEq, Eq, Structural)]
pub struct DeviceId {
    pub vendor_id: u16,
    pub device_id: u16,
}

impl View for PciBus {
    type V = Seq<PciAddress>;

    closed spec fn view(&self) -> Seq<PciAddress> {
        self.devices@
    }
}

/// Those of the devices whose place is wanted, in order.
pub open spec fn selected(devices: Seq<PciAddress>, wanted: spec_fn(int) -> bool) -> Seq<PciAddress>
    decreases devices.len(),
{
    if devices.len() == 0 {
        Seq::empty()
    } else {
        let before = selected(devices.drop_last(), wanted);
        if wanted(devices.len() - 1) {
            before.push(devices.last())
        } else {
            before
        }
    }
}

/// A vendor's functions are wanted.
pub open spec fn of_vendor(ids: Seq<DeviceId>, vendor_id: u16) -> spec_fn(int) -> bool {
    |i: int| ids[i].vendor_id == vendor_id
}

/// The functions with the given numbers are wanted.
pub open spec fn with_ids(ids: Seq<DeviceId>, vendor_id: u16, device_id: u16) -> spec_fn(
    int,
) -> bool {
    |i: int| ids[i].vendor_id == vendor_id && ids[i].device_id == device_id
}

/// The functions of the given class are wanted.
pub open spec fn of_class(classes: Seq<DeviceClass>, base_class: u8, sub_class: u8) -> spec_fn(
    int,
) -> bool {
    |i: int| classes[i].base_class == base_class && classes[i].sub_class == sub_class
}

impl PciBus {
    /// The configuration space through which the endpoints were found.
    pub closed spec fn space(&self) -> ConfigurationSpace {
        self.config_space
    }

    /// Begins to look for the endpoints of the machine.
    pub fn scan() -> (scan: PciScan)
        ensures
            scan@ == crate::pci::scan::ScanState::initial(),
            scan@.wf(),
    {
        PciScan::new()
    }

    /// The endpoints that an enumeration has found.
    pub fn from_scan(scan: PciScan) -> (bus: PciBus)
        requires
            scan@.waiting is Finished,
        ensures
            bus@ == scan@.found,
            bus.space().address_port == ADDRESS_PORT,
            bus.space().data_port == DATA_PORT,
    {
        PciBus { config_space: ConfigurationSpace::new(), devices: scan.into_found() }
    }

    /// The configuration space of the machine.
    pub fn config_space(&self) -> (space: &ConfigurationSpace)
        ensures
            *space == self.space(),
    {
        &self.config_space
    }

    /// The endpoints.
    pub fn devices(&self) -> (devices: &Vec<PciAddress>)
        ensures
            devices@ == self@,
    {
        &self.devices
    }

    /// The endpoints of a vendor. `ids` are the numbers of the endpoints as they are read
    /// for the search.
    pub fn search_by_vendor(&self, vendor_id: u16, ids: &Vec<DeviceId>) -> (found: Vec<PciAddress>)
        requires
            ids@.len() == self@.len(),
        ensures
            found@ == selected(self@, of_vendor(ids@, vendor_id)),
    {
        let mut found: Vec<PciAddress> = Vec::new();
        let mut i: usize = 0;
        assert(self@.take(0) =~= Seq::<PciAddress>::empty());
        while i < self.devices.len()
            invariant
                i <= self@.len(),
                ids@.len() == self@.len(),
                self@ == self.devices@,
                found@ == selected(self@.take(i as int), of_vendor(ids@, vendor_id)),
            decreases self@.len() - i,
        {
            assert(self@.take(i + 1).drop_last() =~= self@.take(i as int));
            if ids[i].vendor_id == vendor_id {
                found.push(self.devices[i]);
            }
            i = i + 1;
        }
        assert(self@.take(i as int) =~= self@);
        found
    }

    /// The endpoints with the given numbers. `ids` are the numbers of the endpoints as they
    /// are read for the search.
    pub fn search_by_ids(&self, vendor_id: u16, device_id: u16, ids: &Vec<DeviceId>) -> (found: Vec<
        PciAddress,
    >)
        requires
            ids@.len() == self@.len(),
        ensures
            found@ == selected(self@, with_ids(ids@, vendor_id, device_id)),
    {
        let mut found: Vec<PciAddress> = Vec::new();
        let mut i: usize = 0;
        assert(self@.take(0) =~= Seq::<PciAddress>::empty());
        while i < self.devices.len()
            invariant
                i <= self@.len(),
                ids@.len() == self@.len(),
                self@ == self.devices@,
                found@ == selected(self@.take(i as int), with_ids(ids@, vendor_id, device_id)),
            decreases self@.len() - i,
        {
            assert(self@.take(i + 1).drop_last() =~= self@.take(i as int));
            if ids[i].vendor_id == vendor_id && ids[i].device_id == device_id {
                found.push(self.devices[i]);
            }
            i = i + 1;
        }
        assert(self@.take(i as int) =~= self@);
        found
    }

    /// The endpoints of a class. `classes` are the classes of the endpoints as they are read
    /// for the search.
    pub fn search_by_class(
        &self,
        base_class: u8,
        sub_class: u8,
        classes: &Vec<DeviceClass>,
    ) -> (found: Vec<PciAddress>)
        requires
            classes@.len() == self@.len(),
        ensures
            found@ == selected(self@, of_class(classes@, base_class, sub_class)),
    {
        let mut found: Vec<PciAddress> = Vec::new();
        let mut i: usize = 0;
        assert(self@.take(0) =~= Seq::<PciAddress>::empty());
        while i < self.devices.len()
            invariant
                i <= self@.len(),
                classes@.len() == self@.len(),
                self@ == self.devices@,
                found@ == selected(
                    self@.take(i as int),
                    of_class(classes@, base_class, sub_class),
                ),
            decreases self@.len() - i,
        {
            assert(self@.take(i + 1).drop_last() =~= self@.take(i as int));
            if classes[i].base_class == base_class && classes[i].sub_class == sub_class {
                found.push(self.devices[i]);
            }
            i = i + 1;
        }
        assert(self@.take(i as int) =~= self@);
        found
    }
}

/// A search finds an endpoint exactly if one of its places is wanted.
pub proof fn selected_contains(
    devices: Seq<PciAddress>,
    wanted: spec_fn(int) -> bool,
    device: PciAddress,
)
    ensures
        selected(devices, wanted).contains(device) <==> exists|i: int|
            0 <= i < devices.len() && #[trigger] devices[i] == device && wanted(i),
    decreases devices.len(),
{
    if devices.len() > 0 {
        let rest = devices.drop_last();
        let before = selected(rest, wanted);
        let all = selected(devices, wanted);
        let last = devices.len() - 1;
        selected_contains(rest, wanted, device);
        if all.contains(device) {
            let j = all.index_of(device);
            if j < before.len() {
                assert(before[j] == device);
                assert(before.contains(device));
                let i = choose|i: int|
                    0 <= i < rest.len() && #[trigger] rest[i] == device && wanted(i);
                assert(devices[i] == device);
            } else {
                assert(devices[last] == device);
            }
        }
        if exists|i: int| 0 <= i < devices.len() && #[trigger] devices[i] == device && wanted(i) {
            let i = choose|i: int|
                0 <= i < devices.len() && #[trigger] devices[i] == device && wanted(i);
            if i == last {
                assert(all.last() == device);
            } else {
                assert(rest[i] == device);
                let j = before.index_of(device);
                assert(all[j] == device);
            }
        }
    }
}

/// A search by numbers finds nothing that a search by vendor does not find.
pub proof fn ids_refine_vendor(
    devices: Seq<PciAddress>,
    ids: Seq<DeviceId>,
    vendor_id: u16,
    device_id: u16,
    device: PciAddress,
)
    requires
        selected(devices, with_ids(ids, vendor_id, device_id)).contains(device),
    ensures
        selected(devices, of_vendor(ids, vendor_id)).contains(device),
{
    selected_contains(devices, with_ids(ids, vendor_id, device_id), device);
    selected_contains(devices, of_vendor(ids, vendor_id), device);
    let i = choose|i: int|
        0 <= i < devices.len() && #[trigger] devices[i] == device && with_ids(
            ids,
            vendor_id,
            device_id,
        )(i);
    assert(of_vendor(ids, vendor_id)(i));
}

/// The places below `len` that are wanted, in order.
pub open spec fn wanted_places(len: nat, wanted: spec_fn(int) -> bool) -> Seq<int>
    decreases len,
{
    if len == 0 {
        Seq::empty()
    } else {
        let before = wanted_places((len - 1) as nat, wanted);
        if wanted(len - 1) {
            before.push(len - 1)
        } else {
            before
        }
    }
}

/// A search gives the endpoints at the wanted places.
pub proof fn selected_is_places(devices: Seq<PciAddress>, wanted: spec_fn(int) -> bool)
    ensures
        forall|k: int|
            0 <= k < wanted_places(devices.len(), wanted).len() ==> 0
                <= #[trigger] wanted_places(devices.len(), wanted)[k] < devices.len(),
        selected(devices, wanted) == wanted_places(devices.len(), wanted).map_values(
            |i: int| devices[i],
        ),
    decreases devices.len(),
{
    let places = wanted_places(devices.len(), wanted);
    if devices.len() > 0 {
        let rest = devices.drop_last();
        selected_is_places(rest, wanted);
        let before = wanted_places(rest.len(), wanted);
        assert(selected(devices, wanted) =~= places.map_values(|i: int| devices[i])) by {
            assert forall|k: int| 0 <= k < before.len() implies rest[before[k]]
                == devices[#[trigger] before[k]] by {}
        }
    } else {
        assert(selected(devices, wanted) =~= places.map_values(|i: int| devices[i]));
    }
}

/// The search by numbers is the search by vendor of which the endpoints with the device number
/// are kept: the places that it gives are those that the search by vendor gives and that have
/// the number, in the same order.
pub proof fn ids_filter_vendor(
    devices: Seq<PciAddress>,
    ids: Seq<DeviceId>,
    vendor_id: u16,
    device_id: u16,
)
    ensures
        wanted_places(devices.len(), with_ids(ids, vendor_id, device_id)) == wanted_places(
            devices.len(),
            of_vendor(ids, vendor_id),
        ).filter(|i: int| ids[i].device_id == device_id),
        selected(devices, with_ids(ids, vendor_id, device_id)) == wanted_places(
            devices.len(),
            of_vendor(ids, vendor_id),
        ).filter(|i: int| ids[i].device_id == device_id).map_values(|i: int| devices[i]),
        selected(devices, of_vendor(ids, vendor_id)) == wanted_places(
            devices.len(),
            of_vendor(ids, vendor_id),
        ).map_values(|i: int| devices[i]),
{
    places_filtered(devices.len(), ids, vendor_id, device_id);
    selected_is_places(devices, with_ids(ids, vendor_id, device_id));
    selected_is_places(devices, of_vendor(ids, vendor_id));
}

/// The places of a search by numbers are kept from those of a search by vendor.
proof fn places_filtered(len: nat, ids: Seq<DeviceId>, vendor_id: u16, device_id: u16)
    ensures
        wanted_places(len, with_ids(ids, vendor_id, device_id)) == wanted_places(
            len,
            of_vendor(ids, vendor_id),
        ).filter(|i: int| ids[i].device_id == device_id),
    decreases len,
{
    reveal(Seq::filter);
    let keep = |i: int| ids[i].device_id == device_id;
    let vendor = wanted_places(len, of_vendor(ids, vendor_id));
    if len == 0 {
        assert(vendor.filter(keep) =~= Seq::<int>::empty());
    } else {
        let before = wanted_places((len - 1) as nat, of_vendor(ids, vendor_id));
        places_filtered((len - 1) as nat, ids, vendor_id, device_id);
        if of_vendor(ids, vendor_id)(len - 1) {
            assert(vendor.drop_last() =~= before);
        }
    }
}

/// A search gave the devices at some places, in the order of the places and each place once.
pub open spec fn gives(places: Seq<int>, devices: Seq<PciAddress>, found: Seq<PciAddress>) -> bool {
    &&& found.len() == places.len()
    &&& forall|k: int|
        0 <= k < places.len() ==> 0 <= #[trigger] places[k] < devices.len() && found[k]
            == devices[places[k]]
    &&& forall|j: int, k: int| 0 <= j < k < places.len() ==> places[j] < places[k]
}

/// The wanted places are in ascending order, and a place is among them exactly if it is wanted.
proof fn places_are_the_wanted(len: nat, wanted: spec_fn(int) -> bool)
    ensures
        ({
            let places = wanted_places(len, wanted);
            &&& forall|k: int| 0 <= k < places.len() ==> 0 <= #[trigger] places[k] < len
            &&& forall|j: int, k: int| 0 <= j < k < places.len() ==> places[j] < places[k]
            &&& forall|i: int| 0 <= i < len ==> (#[trigger] places.contains(i) <==> wanted(i))
        }),
    decreases len,
{
    let places = wanted_places(len, wanted);
    if len > 0 {
        let last = len - 1;
        let before = wanted_places((len - 1) as nat, wanted);
        places_are_the_wanted((len - 1) as nat, wanted);
        assert forall|i: int| 0 <= i < len implies (#[trigger] places.contains(i) <==> wanted(
            i,
        )) by {
            if before.contains(i) {
                let k = before.index_of(i);
                assert(places[k] == i);
            }
            if places.contains(i) {
                let k = places.index_of(i);
                if k < before.len() {
                    assert(before[k] == i);
                    assert(before.contains(i));
                }
            }
            if i == last && wanted(last) {
                assert(places[places.len() - 1] == last);
            }
            if i < last {
                assert(before.contains(i) <==> wanted(i));
            }
        }
    }
}

/// The search by vendor gives the endpoints whose vendor is the given one, all of them and no
/// others, in order.
pub proof fn vendor_search_is_exact(
    bus: PciBus,
    vendor_id: u16,
    ids: Vec<DeviceId>,
    found: Vec<PciAddress>,
)
    requires
        ids@.len() == bus@.len(),
        call_ensures(
            PciBus::search_by_vendor,
            (&bus, vendor_id, &ids),
            found,
        ),
    ensures
        exists|places: Seq<int>| #[trigger]
            gives(places, bus@, found@) && forall|i: int|
                0 <= i < bus@.len() ==> (#[trigger] places.contains(i) <==> (
                ids@[i].vendor_id == vendor_id)),
        forall|device: PciAddress|
            found@.contains(device) <==> exists|i: int|
                0 <= i < bus@.len() && #[trigger] bus@[i] == device && (
                ids@[i].vendor_id == vendor_id),
{
    let wanted = of_vendor(ids@, vendor_id);
    let direct = |i: int| ids@[i].vendor_id == vendor_id;
    let places = wanted_places(bus@.len(), wanted);
    selected_is_places(bus@, wanted);
    places_are_the_wanted(bus@.len(), wanted);
    assert(gives(places, bus@, found@));
    assert forall|i: int| wanted(i) <==> #[trigger] direct(i) by {}
    assert forall|i: int| 0 <= i < bus@.len() implies (#[trigger] places.contains(i) <==> (
    ids@[i].vendor_id == vendor_id)) by {
        assert(wanted(i) <==> direct(i));
    }
    assert forall|device: PciAddress| found@.contains(device) <==> exists|i: int|
        0 <= i < bus@.len() && #[trigger] bus@[i] == device && (
        ids@[i].vendor_id == vendor_id) by {
        selected_contains(bus@, wanted, device);
        if found@.contains(device) {
            let i = choose|i: int|
                0 <= i < bus@.len() && #[trigger] bus@[i] == device && wanted(i);
            assert(direct(i));
        }
        if exists|i: int|
            0 <= i < bus@.len() && #[trigger] bus@[i] == device && (
            ids@[i].vendor_id == vendor_id) {
            let i = choose|i: int|
                0 <= i < bus@.len() && #[trigger] bus@[i] == device && (
                ids@[i].vendor_id == vendor_id);
            assert(direct(i));
            assert(bus@[i] == device && wanted(i));
        }
    }
}

/// The search by numbers gives the endpoints whose vendor and whose device number are the given
/// ones, all of them and no others, in order.
pub proof fn ids_search_is_exact(
    bus: PciBus,
    vendor_id: u16,
    device_id: u16,
    ids: Vec<DeviceId>,
    found: Vec<PciAddress>,
)
    requires
        ids@.len() == bus@.len(),
        call_ensures(
            PciBus::search_by_ids,
            (&bus, vendor_id, device_id, &ids),
            found,
        ),
    ensures
        exists|places: Seq<int>| #[trigger]
            gives(places, bus@, found@) && forall|i: int|
                0 <= i < bus@.len() ==> (#[trigger] places.contains(i) <==> (
                ids@[i].vendor_id == vendor_id && ids@[i].device_id == device_id)),
        forall|device: PciAddress|
            found@.contains(device) <==> exists|i: int|
                0 <= i < bus@.len() && #[trigger] bus@[i] == device && (
                ids@[i].vendor_id == vendor_id && ids@[i].device_id == device_id),
{
    let wanted = with_ids(ids@, vendor_id, device_id);
    let direct = |i: int| ids@[i].vendor_id == vendor_id
        && ids@[i].device_id == device_id;
    let places = wanted_places(bus@.len(), wanted);
    selected_is_places(bus@, wanted);
    places_are_the_wanted(bus@.len(), wanted);
    assert(gives(places, bus@, found@));
    assert forall|i: int| wanted(i) <==> #[trigger] direct(i) by {}
    assert forall|i: int| 0 <= i < bus@.len() implies (#[trigger] places.contains(i) <==> (
    ids@[i].vendor_id == vendor_id && ids@[i].device_id == device_id)) by {
        assert(wanted(i) <==> direct(i));
    }
    assert forall|device: PciAddress| found@.contains(device) <==> exists|i: int|
        0 <= i < bus@.len() && #[trigger] bus@[i] == device && (
        ids@[i].vendor_id == vendor_id && ids@[i].device_id == device_id) by {
        selected_contains(bus@, wanted, device);
        if found@.contains(device) {
            let i = choose|i: int|
                0 <= i < bus@.len() && #[trigger] bus@[i] == device && wanted(i);
            assert(direct(i));
        }
        if exists|i: int|
            0 <= i < bus@.len() && #[trigger] bus@[i] == device && (
            ids@[i].vendor_id == vendor_id && ids@[i].device_id == device_id) {
            let i = choose|i: int|
                0 <= i < bus@.len() && #[trigger] bus@[i] == device && (
                ids@[i].vendor_id == vendor_id && ids@[i].device_id == device_id);
            assert(direct(i));
            assert(bus@[i] == device && wanted(i));
        }
    }
}

/// The search by class gives the endpoints whose base class and whose subclass are the given
/// ones, all of them and no others, in order.
pub proof fn class_search_is_exact(
    bus: PciBus,
    base_class: u8,
    sub_class: u8,
    classes: Vec<DeviceClass>,
    found: Vec<PciAddress>,
)
    requires
        classes@.len() == bus@.len(),
        call_ensures(
            PciBus::search_by_class,
            (&bus, base_class, sub_class, &classes),
            found,
        ),
    ensures
        exists|places: Seq<int>| #[trigger]
            gives(places, bus@, found@) && forall|i: int|
                0 <= i < bus@.len() ==> (#[trigger] places.contains(i) <==> (
                classes@[i].base_class == base_class
                    && classes@[i].sub_class == sub_class)),
        forall|device: PciAddress|
            found@.contains(device) <==> exists|i: int|
                0 <= i < bus@.len() && #[trigger] bus@[i] == device && (
                classes@[i].base_class == base_class
                    && classes@[i].sub_class == sub_class),
{
    let wanted = of_class(classes@, base_class, sub_class);
    let direct = |i: int| classes@[i].base_class == base_class
        && classes@[i].sub_class == sub_class;
    let places = wanted_places(bus@.len(), wanted);
    selected_is_places(bus@, wanted);
    places_are_the_wanted(bus@.len(), wanted);
    assert(gives(places, bus@, found@));
    assert forall|i: int| wanted(i) <==> #[trigger] direct(i) by {}
    assert forall|i: int| 0 <= i < bus@.len() implies (#[trigger] places.contains(i) <==> (
    classes@[i].base_class == base_class && classes@[i].sub_class == sub_class)) by {
        assert(wanted(i) <==> direct(i));
    }
    assert forall|device: PciAddress| found@.contains(device) <==> exists|i: int|
        0 <= i < bus@.len() && #[trigger] bus@[i] == device && (
        classes@[i].base_class == base_class && classes@[i].sub_class == sub_class) by {
        selected_contains(bus@, wanted, device);
        if found@.contains(device) {
            let i = choose|i: int|
                0 <= i < bus@.len() && #[trigger] bus@[i] == device && wanted(i);
            assert(direct(i));
        }
        if exists|i: int|
            0 <= i < bus@.len() && #[trigger] bus@[i] == device && (
            classes@[i].base_class == base_class && classes@[i].sub_class == sub_class) {
            let i = choose|i: int|
                0 <= i < bus@.len() && #[trigger] bus@[i] == device && (
                classes@[i].base_class == base_class
                    && classes@[i].sub_class == sub_class);
            assert(direct(i));
            assert(bus@[i] == device && wanted(i));
        }
    }
}

} // verus!
