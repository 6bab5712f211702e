//! Which endpoints an enumeration finds: those that the bus tree leads to, each once.

use crate::pci::config::PciAddress;
use crate::pci::enumeration::{asked_endpoint_is_found, Machine};
use crate::pci::scan::{
    address_of, Place, Query, MAX_DEVICES_PER_BUS, MAX_FUNCTIONS_PER_DEVICE,
};
use vstd::prelude::*;

verus! {

/// The functions of a device below `function` are there, and the device says that it has
/// several.
pub open spec fn functions_before(
    machine: Machine,
    bus: u8,
    device: int,
    function: int,
) -> bool {
    &&& machine.present(address_of(bus, device, 0))
    &&& (machine.several)(address_of(bus, device, 0))
    &&& forall|below: int|
        1 <= below < function ==> machine.present(#[trigger] address_of(bus, device, below))
}

/// A function shows on its bus: it is there, and so are all functions below it.
pub open spec fn shows(machine: Machine, place: Place) -> bool {
    &&& place.wf()
    &&& machine.present(place.at())
    &&& place.function == 0 || functions_before(
        machine,
        place.bus,
        place.device as int,
        place.function as int,
    )
}

/// A bridge shows at a place.
pub open spec fn shows_bridge(machine: Machine, place: Place) -> bool {
    shows(machine, place) && (machine.header)(place.at()) is PciPciBridge
}

/// The bus behind the bridge at a place.
pub open spec fn behind(machine: Machine, place: Place) -> u8 {
    (machine.secondary)(place.at())
}

/// A path of bridges leads from one bus to another.
pub open spec fn leads(machine: Machine, start: u8, path: Seq<Place>, bus: u8) -> bool
    decreases path.len(),
{
    if path.len() == 0 {
        start == bus
    } else {
        &&& path[0].bus == start
        &&& shows_bridge(machine, path[0])
        &&& leads(machine, behind(machine, path[0]), path.drop_first(), bus)
    }
}

/// The first bus is enumerated: there is a host controller.
pub open spec fn has_host(machine: Machine) -> bool {
    machine.present(address_of(0, 0, 0)) || !(machine.several)(address_of(0, 0, 0))
}

/// The bus tree leads to an endpoint at a place.
pub open spec fn reachable_endpoint(machine: Machine, place: Place) -> bool {
    &&& has_host(machine)
    &&& exists|path: Seq<Place>| leads(machine, 0, path, place.bus)
    &&& shows(machine, place)
    &&& (machine.header)(place.at()) is Endpoint
}

/// Every question of the first list is in the second.
pub open spec fn within(inner: Seq<Query>, outer: Seq<Query>) -> bool {
    forall|query: Query| #[trigger] inner.contains(query) ==> outer.contains(query)
}

/// What is in one of two lists is in both together.
proof fn within_concat(first: Seq<Query>, second: Seq<Query>)
    ensures
        within(first, first + second),
        within(second, first + second),
{
    let all = first + second;
    assert forall|query: Query| #[trigger] first.contains(query) implies all.contains(query) by {
        let i = first.index_of(query);
        assert(all[i] == query);
    }
    assert forall|query: Query| #[trigger] second.contains(query) implies all.contains(query) by {
        let i = second.index_of(query);
        assert(all[first.len() + i] == query);
    }
}

/// The questions about a function are among those about its device from an earlier function
/// on.
proof fn function_within(machine: Machine, bus: u8, device: int, first: int, function: int)
    requires
        1 <= first <= function < MAX_FUNCTIONS_PER_DEVICE,
        functions_before(machine, bus, device, function),
        machine.present(address_of(bus, device, function)),
    ensures
        within(
            machine.of_function(bus, device, function),
            machine.from_function(bus, device, first),
        ),
    decreases function - first,
{
    let address = address_of(bus, device, first);
    let head = seq![Query::Vendor { address }];
    let own = machine.of_function(bus, device, first);
    let rest = machine.from_function(bus, device, first + 1);
    assert(machine.present(address));
    assert(machine.from_function(bus, device, first) == head + own + rest);
    within_concat(head, own);
    within_concat(head + own, rest);
    if first < function {
        function_within(machine, bus, device, first + 1, function);
    }
}

/// The questions about a function that shows are among those about its device.
proof fn place_within_device(machine: Machine, place: Place)
    requires
        shows(machine, place),
    ensures
        within(
            machine.of_function(place.bus, place.device as int, place.function as int),
            machine.of_device(place.bus, place.device as int),
        ),
{
    let bus = place.bus;
    let device = place.device as int;
    let address = address_of(bus, device, 0);
    let head = seq![Query::Vendor { address }];
    let own = machine.of_function(bus, device, 0);
    let more = seq![Query::MultipleFunctions { address }];
    let rest = if (machine.several)(address) {
        machine.from_function(bus, device, 1)
    } else {
        Seq::empty()
    };
    assert(machine.present(address));
    assert(machine.of_device(bus, device) == head + own + more + rest);
    within_concat(head, own);
    within_concat(head + own, more);
    within_concat(head + own + more, rest);
    if place.function > 0 {
        function_within(machine, bus, device, 1, place.function as int);
    }
}

/// The questions about a device are among those about its bus from an earlier device on.
proof fn device_within(machine: Machine, bus: u8, first: int, device: int)
    requires
        0 <= first <= device < MAX_DEVICES_PER_BUS,
    ensures
        within(machine.of_device(bus, device), machine.from_device(bus, first)),
    decreases device - first,
{
    let own = machine.of_device(bus, first);
    let rest = machine.from_device(bus, first + 1);
    assert(machine.from_device(bus, first) == own + rest);
    within_concat(own, rest);
    if first < device {
        device_within(machine, bus, first + 1, device);
    }
}

/// The questions about a function that shows are among those about its bus.
proof fn place_within_bus(machine: Machine, place: Place)
    requires
        shows(machine, place),
    ensures
        within(
            machine.of_function(place.bus, place.device as int, place.function as int),
            machine.from_device(place.bus, 0),
        ),
{
    place_within_device(machine, place);
    device_within(machine, place.bus, 0, place.device as int);
}

/// The questions about a bus are among those about every bus from which a path leads to it.
proof fn bus_within(machine: Machine, start: u8, path: Seq<Place>, bus: u8)
    requires
        machine.regular(),
        leads(machine, start, path, bus),
    ensures
        within(machine.from_device(bus, 0), machine.from_device(start, 0)),
    decreases path.len(),
{
    if path.len() > 0 {
        let bridge = path[0];
        let next = behind(machine, bridge);
        let device = bridge.device as int;
        let function = bridge.function as int;
        bus_within(machine, next, path.drop_first(), bus);
        place_within_bus(machine, bridge);
        let head = seq![
            Query::Header { address: bridge.at() },
            Query::SecondaryBus { address: bridge.at() },
        ];
        assert(machine.present(address_of(start, device, function)));
        assert(machine.of_function(start, device, function) == head + machine.from_device(
            next,
            0,
        ));
        within_concat(head, machine.from_device(next, 0));
    }
}

/// The questions about the first bus are among all questions.
proof fn first_bus_within(machine: Machine)
    requires
        has_host(machine),
    ensures
        within(machine.from_device(0, 0), machine.all_queries()),
{
    let root = address_of(0, 0, 0);
    let start = seq![Query::MultipleFunctions { address: root }];
    let host = seq![Query::Vendor { address: root }];
    let bus = machine.from_device(0, 0);
    let end = seq![Query::Vendor { address: address_of(0, 0, 1) }];
    within_concat(start, machine.from_first_host());
    if (machine.several)(root) {
        within_concat(host, bus);
        within_concat(host + bus, end);
    }
}

/// Every endpoint that the bus tree leads to is found, on whichever bus and whichever of the
/// functions of its device it is.
pub proof fn reachable_endpoint_is_found(machine: Machine, place: Place)
    requires
        machine.regular(),
        reachable_endpoint(machine, place),
    ensures
        machine.endpoints(machine.all_queries()).contains(place.at()),
{
    let path = choose|path: Seq<Place>| leads(machine, 0, path, place.bus);
    let query = Query::Header { address: place.at() };
    let own = machine.of_function(place.bus, place.device as int, place.function as int);
    assert(own[0] == query);
    assert(own.contains(query));
    place_within_bus(machine, place);
    bus_within(machine, 0, path, place.bus);
    first_bus_within(machine);
    asked_endpoint_is_found(machine, machine.all_queries(), place.at());
}

/// The header at an address is asked for because of the function at a place: it is that
/// function, or the function is a bridge from which a path leads to it.
pub open spec fn asked_through(machine: Machine, place: Place, address: PciAddress) -> bool {
    exists|path: Seq<Place>, end: Place| #[trigger] witnesses(machine, place, address, path, end)
}

/// A path, and the function at its end, that show why the header at an address is asked for.
pub open spec fn witnesses(
    machine: Machine,
    place: Place,
    address: PciAddress,
    path: Seq<Place>,
    end: Place,
) -> bool {
    &&& shows(machine, end)
    &&& end.at() == address
    &&& leads(machine, place.bus, path, end.bus)
    &&& path.len() == 0 ==> end == place
    &&& path.len() > 0 ==> path[0] == place
}

/// The place of a function.
pub open spec fn place_of(bus: u8, device: int, function: int) -> Place {
    Place { bus, device: device as u8, function: function as u8 }
}

/// A header that is asked for among the questions about a function.
proof fn asked_of_function(
    machine: Machine,
    bus: u8,
    device: int,
    function: int,
    address: PciAddress,
)
    requires
        0 <= device < MAX_DEVICES_PER_BUS,
        0 <= function < MAX_FUNCTIONS_PER_DEVICE,
        shows(machine, place_of(bus, device, function)),
        machine.of_function(bus, device, function).contains(Query::Header { address }),
    ensures
        asked_through(machine, place_of(bus, device, function), address),
    decreases
            (machine.height)(bus),
            MAX_DEVICES_PER_BUS - device,
            9 - function,
            0int,
{
    let place = place_of(bus, device, function);
    let query = Query::Header { address };
    let own = machine.of_function(bus, device, function);
    if address == place.at() {
        assert(witnesses(machine, place, address, Seq::empty(), place));
    } else {
        let next = behind(machine, place);
        let head = seq![
            Query::Header { address: place.at() },
            Query::SecondaryBus { address: place.at() },
        ];
        let i = own.index_of(query);
        assert(own[0] == Query::Header { address: place.at() });
        assert(own == head + machine.from_device(next, 0));
        assert(machine.from_device(next, 0)[i - 2] == query);
        asked_from_device(machine, next, 0, address);
        let (d, f) = choose|d: int, f: int|
            #![trigger place_of(next, d, f)]
            0 <= d < MAX_DEVICES_PER_BUS && 0 <= f < MAX_FUNCTIONS_PER_DEVICE && shows(
                machine,
                place_of(next, d, f),
            ) && asked_through(machine, place_of(next, d, f), address);
        let inner = place_of(next, d, f);
        let (path, end) = choose|path: Seq<Place>, end: Place| #[trigger]
            witnesses(machine, inner, address, path, end);
        let longer = seq![place] + path;
        assert(longer.drop_first() =~= path);
        assert(leads(machine, bus, longer, end.bus));
        assert(witnesses(machine, place, address, longer, end));
    }
}

/// A header that is asked for among the questions about the functions of a device.
proof fn asked_from_function(
    machine: Machine,
    bus: u8,
    device: int,
    first: int,
    address: PciAddress,
)
    requires
        0 <= device < MAX_DEVICES_PER_BUS,
        1 <= first <= MAX_FUNCTIONS_PER_DEVICE,
        functions_before(machine, bus, device, first),
        machine.from_function(bus, device, first).contains(Query::Header { address }),
    ensures
        exists|function: int|
            #![trigger place_of(bus, device, function)]
            first <= function < MAX_FUNCTIONS_PER_DEVICE && shows(
                machine,
                place_of(bus, device, function),
            ) && asked_through(machine, place_of(bus, device, function), address),
    decreases
            (machine.height)(bus),
            MAX_DEVICES_PER_BUS - device,
            9 - first,
            1int,
{
    let query = Query::Header { address };
    let all = machine.from_function(bus, device, first);
    let i = all.index_of(query);
    let at = address_of(bus, device, first);
    let head = seq![Query::Vendor { address: at }];
    assert(first < MAX_FUNCTIONS_PER_DEVICE);
    if !machine.present(at) {
        assert(all == head);
        assert(false);
    }
    let own = machine.of_function(bus, device, first);
    let rest = machine.from_function(bus, device, first + 1);
    assert(all == head + own + rest);
    assert(shows(machine, place_of(bus, device, first)));
    if i < 1 + own.len() {
        assert(own[i - 1] == query);
        asked_of_function(machine, bus, device, first, address);
    } else {
        assert(rest[i - 1 - own.len()] == query);
        asked_from_function(machine, bus, device, first + 1, address);
        let function = choose|function: int|
            #![trigger place_of(bus, device, function)]
            first + 1 <= function < MAX_FUNCTIONS_PER_DEVICE && shows(
                machine,
                place_of(bus, device, function),
            ) && asked_through(machine, place_of(bus, device, function), address);
        assert(first <= function);
    }
}

/// A header that is asked for among the questions about a device.
proof fn asked_of_device(machine: Machine, bus: u8, device: int, address: PciAddress)
    requires
        0 <= device < MAX_DEVICES_PER_BUS,
        machine.of_device(bus, device).contains(Query::Header { address }),
    ensures
        exists|function: int|
            #![trigger place_of(bus, device, function)]
            0 <= function < MAX_FUNCTIONS_PER_DEVICE && shows(
                machine,
                place_of(bus, device, function),
            ) && asked_through(machine, place_of(bus, device, function), address),
    decreases (machine.height)(bus), MAX_DEVICES_PER_BUS - device, 10int, 1int,
{
    let query = Query::Header { address };
    let all = machine.of_device(bus, device);
    let i = all.index_of(query);
    let at = address_of(bus, device, 0);
    let head = seq![Query::Vendor { address: at }];
    if !machine.present(at) {
        assert(all == head);
        assert(false);
    }
    let own = machine.of_function(bus, device, 0);
    let more = seq![Query::MultipleFunctions { address: at }];
    let rest = if (machine.several)(at) {
        machine.from_function(bus, device, 1)
    } else {
        Seq::empty()
    };
    assert(all == head + own + more + rest);
    assert(shows(machine, place_of(bus, device, 0)));
    if i < 1 + own.len() {
        assert(own[i - 1] == query);
        asked_of_function(machine, bus, device, 0, address);
    } else {
        assert(i != 1 + own.len());
        assert(rest[i - 2 - own.len()] == query);
        asked_from_function(machine, bus, device, 1, address);
    }
}

/// A header that is asked for among the questions about a bus.
proof fn asked_from_device(machine: Machine, bus: u8, first: int, address: PciAddress)
    requires
        0 <= first <= MAX_DEVICES_PER_BUS,
        machine.from_device(bus, first).contains(Query::Header { address }),
    ensures
        exists|device: int, function: int|
            #![trigger place_of(bus, device, function)]
            first <= device < MAX_DEVICES_PER_BUS && 0 <= function < MAX_FUNCTIONS_PER_DEVICE
                && shows(machine, place_of(bus, device, function)) && asked_through(
                machine,
                place_of(bus, device, function),
                address,
            ),
    decreases (machine.height)(bus), MAX_DEVICES_PER_BUS - first, 11int, 0int,
{
    let query = Query::Header { address };
    let all = machine.from_device(bus, first);
    let i = all.index_of(query);
    let own = machine.of_device(bus, first);
    let rest = machine.from_device(bus, first + 1);
    assert(first < MAX_DEVICES_PER_BUS);
    assert(all == own + rest);
    if i < own.len() {
        assert(own[i] == query);
        asked_of_device(machine, bus, first, address);
    } else {
        assert(rest[i - own.len()] == query);
        asked_from_device(machine, bus, first + 1, address);
        let (device, function) = choose|device: int, function: int|
            #![trigger place_of(bus, device, function)]
            first + 1 <= device < MAX_DEVICES_PER_BUS && 0 <= function < MAX_FUNCTIONS_PER_DEVICE
                && shows(machine, place_of(bus, device, function)) && asked_through(
                machine,
                place_of(bus, device, function),
                address,
            );
        assert(first <= device);
    }
}

/// Only endpoints whose header was asked for are found.
proof fn found_endpoint_was_asked(machine: Machine, queries: Seq<Query>, address: PciAddress)
    requires
        machine.endpoints(queries).contains(address),
    ensures
        queries.contains(Query::Header { address }),
        (machine.header)(address) is Endpoint,
    decreases queries.len(),
{
    let query = Query::Header { address };
    let rest = queries.drop_last();
    let found = machine.endpoints(rest);
    let all = machine.endpoints(queries);
    let j = all.index_of(address);
    assert(queries.len() > 0);
    if j < found.len() {
        assert(found[j] == address);
        found_endpoint_was_asked(machine, rest, address);
        let i = rest.index_of(query);
        assert(queries[i] == query);
    } else {
        assert(queries[queries.len() - 1] == query);
    }
}

/// A header is asked for on the first bus or behind it.
proof fn asked_behind_first_bus(machine: Machine, address: PciAddress)
    requires
        machine.all_queries().contains(Query::Header { address }),
    ensures
        has_host(machine),
        machine.from_device(0, 0).contains(Query::Header { address }),
{
    let query = Query::Header { address };
    let root = address_of(0, 0, 0);
    let bus = machine.from_device(0, 0);
    let all = machine.all_queries();
    let i = all.index_of(query);
    if !(machine.several)(root) {
        assert(bus[i - 1] == query);
    } else if machine.present(root) {
        assert(bus[i - 2] == query);
    }
}

/// Nothing is found but endpoints that the bus tree leads to.
pub proof fn found_endpoint_is_reachable(machine: Machine, address: PciAddress)
    requires
        machine.endpoints(machine.all_queries()).contains(address),
    ensures
        exists|place: Place| #[trigger]
            reachable_endpoint(machine, place) && place.at() == address,
{
    found_endpoint_was_asked(machine, machine.all_queries(), address);
    asked_behind_first_bus(machine, address);
    asked_from_device(machine, 0, 0, address);
    let (device, function) = choose|device: int, function: int|
        #![trigger place_of(0, device, function)]
        0 <= device < MAX_DEVICES_PER_BUS && 0 <= function < MAX_FUNCTIONS_PER_DEVICE && shows(
            machine,
            place_of(0, device, function),
        ) && asked_through(machine, place_of(0, device, function), address);
    let place = place_of(0, device, function);
    let (path, end) = choose|path: Seq<Place>, end: Place| #[trigger]
        witnesses(machine, place, address, path, end);
    assert(leads(machine, 0, path, end.bus));
    assert(reachable_endpoint(machine, end));
}

/// A path of bridges leads from the first bus to a bus.
pub open spec fn reached(machine: Machine, bus: u8) -> bool {
    exists|path: Seq<Place>| leads(machine, 0, path, bus)
}

/// No bus is behind two bridges that the bus tree leads to.
pub open spec fn single_bridges(machine: Machine) -> bool {
    forall|a: Place, b: Place|
        #![trigger shows_bridge(machine, a), shows_bridge(machine, b)]
        shows_bridge(machine, a) && shows_bridge(machine, b) && reached(machine, a.bus) && reached(
            machine,
            b.bus,
        ) && behind(machine, a) == behind(machine, b) ==> a == b
}

/// One path after another is a path.
proof fn paths_join(
    machine: Machine,
    start: u8,
    first: Seq<Place>,
    middle: u8,
    second: Seq<Place>,
    bus: u8,
)
    requires
        leads(machine, start, first, middle),
        leads(machine, middle, second, bus),
    ensures
        leads(machine, start, first + second, bus),
    decreases first.len(),
{
    if first.len() == 0 {
        assert(first + second =~= second);
    } else {
        paths_join(
            machine,
            behind(machine, first[0]),
            first.drop_first(),
            middle,
            second,
            bus,
        );
        assert((first + second).drop_first() =~= first.drop_first() + second);
        assert((first + second)[0] == first[0]);
    }
}

/// A bus to which a path leads from a bus that is reached is reached.
proof fn reached_on(machine: Machine, start: u8, path: Seq<Place>, bus: u8)
    requires
        reached(machine, start),
        leads(machine, start, path, bus),
    ensures
        reached(machine, bus),
{
    let first = choose|first: Seq<Place>| leads(machine, 0, first, start);
    paths_join(machine, 0, first, start, path, bus);
}

/// The bus behind a bridge on a bus that is reached is reached.
proof fn reached_behind(machine: Machine, bridge: Place)
    requires
        reached(machine, bridge.bus),
        shows_bridge(machine, bridge),
    ensures
        reached(machine, behind(machine, bridge)),
{
    let step = seq![bridge];
    assert(step.drop_first() =~= Seq::<Place>::empty());
    assert(leads(machine, behind(machine, bridge), step.drop_first(), behind(machine, bridge)));
    reached_on(machine, bridge.bus, step, behind(machine, bridge));
}

/// Paths lead down.
proof fn paths_lead_down(machine: Machine, start: u8, path: Seq<Place>, bus: u8)
    requires
        machine.regular(),
        leads(machine, start, path, bus),
    ensures
        (machine.height)(bus) <= (machine.height)(start),
        path.len() > 0 ==> (machine.height)(bus) < (machine.height)(start),
    decreases path.len(),
{
    if path.len() > 0 {
        let bridge = path[0];
        assert(machine.present(
            address_of(bridge.bus, bridge.device as int, bridge.function as int),
        ));
        paths_lead_down(machine, behind(machine, bridge), path.drop_first(), bus);
    }
}

/// The last bridge of a path.
proof fn last_bridge(machine: Machine, start: u8, path: Seq<Place>, bus: u8)
    requires
        leads(machine, start, path, bus),
        path.len() > 0,
    ensures
        leads(machine, start, path.drop_last(), path.last().bus),
        shows_bridge(machine, path.last()),
        behind(machine, path.last()) == bus,
    decreases path.len(),
{
    let rest = path.drop_first();
    assert(leads(machine, behind(machine, path[0]), rest, bus));
    if path.len() == 1 {
        assert(path.last() == path[0]);
        assert(path.drop_last() =~= Seq::<Place>::empty());
        assert(rest =~= Seq::<Place>::empty());
    } else {
        last_bridge(machine, behind(machine, path[0]), rest, bus);
        assert(rest.last() == path.last());
        assert(path.drop_last().drop_first() =~= rest.drop_last());
        assert(path.drop_last()[0] == path[0]);
    }
}

/// There is only one path from a bus that is reached to another.
proof fn one_path(machine: Machine, start: u8, a: Seq<Place>, b: Seq<Place>, bus: u8)
    requires
        machine.regular(),
        single_bridges(machine),
        reached(machine, start),
        leads(machine, start, a, bus),
        leads(machine, start, b, bus),
    ensures
        a == b,
    decreases a.len(),
{
    paths_lead_down(machine, start, a, bus);
    paths_lead_down(machine, start, b, bus);
    if a.len() == 0 || b.len() == 0 {
        if a.len() > 0 {
            assert(start == bus);
        }
        if b.len() > 0 {
            assert(start == bus);
        }
        assert(a =~= b);
    } else {
        last_bridge(machine, start, a, bus);
        last_bridge(machine, start, b, bus);
        reached_on(machine, start, a.drop_last(), a.last().bus);
        reached_on(machine, start, b.drop_last(), b.last().bus);
        assert(a.last() == b.last());
        one_path(machine, start, a.drop_last(), b.drop_last(), a.last().bus);
        assert(a =~= a.drop_last().push(a.last()));
        assert(b =~= b.drop_last().push(b.last()));
    }
}

/// No header is asked for because of two functions of a bus.
proof fn asked_through_one(machine: Machine, a: Place, b: Place, address: PciAddress)
    requires
        machine.regular(),
        single_bridges(machine),
        a.bus == b.bus,
        reached(machine, a.bus),
        asked_through(machine, a, address),
        asked_through(machine, b, address),
    ensures
        a == b,
{
    let (path_a, end_a) = choose|path: Seq<Place>, end: Place| #[trigger]
        witnesses(machine, a, address, path, end);
    let (path_b, end_b) = choose|path: Seq<Place>, end: Place| #[trigger]
        witnesses(machine, b, address, path, end);
    assert(end_a == end_b);
    one_path(machine, a.bus, path_a, path_b, end_a.bus);
}

/// How often the header at an address is asked for.
pub open spec fn times_asked(queries: Seq<Query>, address: PciAddress) -> nat
    decreases queries.len(),
{
    if queries.len() == 0 {
        0
    } else {
        times_asked(queries.drop_last(), address) + (if queries.last() == (Query::Header {
            address,
        }) {
            1nat
        } else {
            0nat
        })
    }
}

/// What is asked in two portions is asked in the one or in the other.
proof fn times_concat(first: Seq<Query>, second: Seq<Query>, address: PciAddress)
    ensures
        times_asked(first + second, address) == times_asked(first, address) + times_asked(
            second,
            address,
        ),
    decreases second.len(),
{
    if second.len() == 0 {
        assert(first + second =~= first);
    } else {
        assert((first + second).drop_last() =~= first + second.drop_last());
        times_concat(first, second.drop_last(), address);
    }
}

/// A header is asked for at all exactly if it is among the questions.
proof fn asked_at_all(queries: Seq<Query>, address: PciAddress)
    ensures
        times_asked(queries, address) > 0 <==> queries.contains(Query::Header { address }),
    decreases queries.len(),
{
    let query = Query::Header { address };
    if queries.len() > 0 {
        let rest = queries.drop_last();
        asked_at_all(rest, address);
        if rest.contains(query) {
            let i = rest.index_of(query);
            assert(queries[i] == query);
        }
        if queries.last() == query {
            assert(queries[queries.len() - 1] == query);
        }
        if queries.contains(query) && queries.last() != query {
            let i = queries.index_of(query);
            assert(rest[i] == query);
        }
    }
}

/// One question.
proof fn times_of_one(query: Query, address: PciAddress)
    ensures
        times_asked(seq![query], address) == (if query == (Query::Header { address }) {
            1nat
        } else {
            0nat
        }),
{
    assert(seq![query].drop_last() =~= Seq::<Query>::empty());
    assert(times_asked(seq![query].drop_last(), address) == 0);
    assert(seq![query].last() == query);
}

/// Among the questions about a function no header is asked for twice.
proof fn function_asked_once(
    machine: Machine,
    bus: u8,
    device: int,
    function: int,
    address: PciAddress,
)
    requires
        machine.regular(),
        single_bridges(machine),
        reached(machine, bus),
        0 <= device < MAX_DEVICES_PER_BUS,
        0 <= function < MAX_FUNCTIONS_PER_DEVICE,
        shows(machine, place_of(bus, device, function)),
    ensures
        times_asked(machine.of_function(bus, device, function), address) <= 1,
    decreases
            (machine.height)(bus),
            MAX_DEVICES_PER_BUS - device,
            9 - function,
            0int,
{
    let place = place_of(bus, device, function);
    let own = machine.of_function(bus, device, function);
    let header = Query::Header { address: place.at() };
    let next = behind(machine, place);
    assert(place.at() == address_of(bus, device, function));
    assert(machine.present(address_of(bus, device, function)));
    times_of_one(header, address);
    if (machine.header)(place.at()) is PciPciBridge {
        let second = Query::SecondaryBus { address: place.at() };
        let inner = machine.from_device(next, 0);
        assert(own =~= seq![header] + seq![second] + inner);
        times_of_one(second, address);
        times_concat(seq![header], seq![second], address);
        times_concat(seq![header] + seq![second], inner, address);
        reached_behind(machine, place);
        bus_asked_once(machine, next, 0, address);
        if address == place.at() && times_asked(inner, address) > 0 {
            asked_at_all(inner, address);
            asked_from_device(machine, next, 0, address);
            let (d, f) = choose|d: int, f: int|
                #![trigger place_of(next, d, f)]
                0 <= d < MAX_DEVICES_PER_BUS && 0 <= f < MAX_FUNCTIONS_PER_DEVICE && shows(
                    machine,
                    place_of(next, d, f),
                ) && asked_through(machine, place_of(next, d, f), address);
            let (path, end) = choose|path: Seq<Place>, end: Place| #[trigger]
                witnesses(machine, place_of(next, d, f), address, path, end);
            assert(end.bus == bus);
            paths_lead_down(machine, next, path, bus);
        }
    } else {
        assert(own == seq![header]);
    }
}

/// Among the questions about the functions of a device no header is asked for twice.
proof fn functions_asked_once(
    machine: Machine,
    bus: u8,
    device: int,
    first: int,
    address: PciAddress,
)
    requires
        machine.regular(),
        single_bridges(machine),
        reached(machine, bus),
        0 <= device < MAX_DEVICES_PER_BUS,
        1 <= first <= MAX_FUNCTIONS_PER_DEVICE,
        functions_before(machine, bus, device, first),
    ensures
        times_asked(machine.from_function(bus, device, first), address) <= 1,
    decreases
            (machine.height)(bus),
            MAX_DEVICES_PER_BUS - device,
            9 - first,
            1int,
{
    let all = machine.from_function(bus, device, first);
    let at = address_of(bus, device, first);
    let vendor = Query::Vendor { address: at };
    times_of_one(vendor, address);
    if first < MAX_FUNCTIONS_PER_DEVICE && machine.present(at) {
        let own = machine.of_function(bus, device, first);
        let rest = machine.from_function(bus, device, first + 1);
        let place = place_of(bus, device, first);
        assert(all == seq![vendor] + own + rest);
        assert(shows(machine, place));
        times_concat(seq![vendor], own, address);
        times_concat(seq![vendor] + own, rest, address);
        function_asked_once(machine, bus, device, first, address);
        functions_asked_once(machine, bus, device, first + 1, address);
        if times_asked(own, address) > 0 && times_asked(rest, address) > 0 {
            asked_at_all(own, address);
            asked_at_all(rest, address);
            asked_of_function(machine, bus, device, first, address);
            asked_from_function(machine, bus, device, first + 1, address);
            let other = choose|function: int|
                #![trigger place_of(bus, device, function)]
                first + 1 <= function < MAX_FUNCTIONS_PER_DEVICE && shows(
                    machine,
                    place_of(bus, device, function),
                ) && asked_through(machine, place_of(bus, device, function), address);
            asked_through_one(machine, place, place_of(bus, device, other), address);
            assert(false);
        }
    } else if first < MAX_FUNCTIONS_PER_DEVICE {
        assert(all == seq![vendor]);
    } else {
        assert(all == Seq::<Query>::empty());
    }
}

/// Among the questions about a device no header is asked for twice.
proof fn device_asked_once(machine: Machine, bus: u8, device: int, address: PciAddress)
    requires
        machine.regular(),
        single_bridges(machine),
        reached(machine, bus),
        0 <= device < MAX_DEVICES_PER_BUS,
    ensures
        times_asked(machine.of_device(bus, device), address) <= 1,
    decreases (machine.height)(bus), MAX_DEVICES_PER_BUS - device, 10int, 1int,
{
    let all = machine.of_device(bus, device);
    let at = address_of(bus, device, 0);
    let vendor = Query::Vendor { address: at };
    times_of_one(vendor, address);
    if machine.present(at) {
        let own = machine.of_function(bus, device, 0);
        let more = Query::MultipleFunctions { address: at };
        let rest = if (machine.several)(at) {
            machine.from_function(bus, device, 1)
        } else {
            Seq::empty()
        };
        let place = place_of(bus, device, 0);
        assert(all == seq![vendor] + own + seq![more] + rest);
        assert(shows(machine, place));
        times_of_one(more, address);
        times_concat(seq![vendor], own, address);
        times_concat(seq![vendor] + own, seq![more], address);
        times_concat(seq![vendor] + own + seq![more], rest, address);
        function_asked_once(machine, bus, device, 0, address);
        if (machine.several)(at) {
            functions_asked_once(machine, bus, device, 1, address);
        }
        if times_asked(own, address) > 0 && times_asked(rest, address) > 0 {
            asked_at_all(own, address);
            asked_at_all(rest, address);
            asked_of_function(machine, bus, device, 0, address);
            asked_from_function(machine, bus, device, 1, address);
            let other = choose|function: int|
                #![trigger place_of(bus, device, function)]
                1 <= function < MAX_FUNCTIONS_PER_DEVICE && shows(
                    machine,
                    place_of(bus, device, function),
                ) && asked_through(machine, place_of(bus, device, function), address);
            asked_through_one(machine, place, place_of(bus, device, other), address);
            assert(false);
        }
    } else {
        assert(all == seq![vendor]);
    }
}

/// Among the questions about a bus no header is asked for twice.
proof fn bus_asked_once(machine: Machine, bus: u8, first: int, address: PciAddress)
    requires
        machine.regular(),
        single_bridges(machine),
        reached(machine, bus),
        0 <= first <= MAX_DEVICES_PER_BUS,
    ensures
        times_asked(machine.from_device(bus, first), address) <= 1,
    decreases (machine.height)(bus), MAX_DEVICES_PER_BUS - first, 11int, 0int,
{
    let all = machine.from_device(bus, first);
    if first < MAX_DEVICES_PER_BUS {
        let own = machine.of_device(bus, first);
        let rest = machine.from_device(bus, first + 1);
        assert(all == own + rest);
        times_concat(own, rest, address);
        device_asked_once(machine, bus, first, address);
        bus_asked_once(machine, bus, first + 1, address);
        if times_asked(own, address) > 0 && times_asked(rest, address) > 0 {
            asked_at_all(own, address);
            asked_at_all(rest, address);
            asked_of_device(machine, bus, first, address);
            asked_from_device(machine, bus, first + 1, address);
            let function = choose|function: int|
                #![trigger place_of(bus, first, function)]
                0 <= function < MAX_FUNCTIONS_PER_DEVICE && shows(
                    machine,
                    place_of(bus, first, function),
                ) && asked_through(machine, place_of(bus, first, function), address);
            let (d, f) = choose|d: int, f: int|
                #![trigger place_of(bus, d, f)]
                first + 1 <= d < MAX_DEVICES_PER_BUS && 0 <= f < MAX_FUNCTIONS_PER_DEVICE && shows(
                    machine,
                    place_of(bus, d, f),
                ) && asked_through(machine, place_of(bus, d, f), address);
            asked_through_one(
                machine,
                place_of(bus, first, function),
                place_of(bus, d, f),
                address,
            );
            assert(false);
        }
    } else {
        assert(all == Seq::<Query>::empty());
    }
}

/// Among all questions no header is asked for twice.
proof fn all_asked_once(machine: Machine, address: PciAddress)
    requires
        machine.regular(),
        single_bridges(machine),
    ensures
        times_asked(machine.all_queries(), address) <= 1,
{
    let root = address_of(0, 0, 0);
    let start = Query::MultipleFunctions { address: root };
    let host = Query::Vendor { address: root };
    let end = Query::Vendor { address: address_of(0, 0, 1) };
    let bus = machine.from_device(0, 0);
    assert(leads(machine, 0, Seq::empty(), 0));
    bus_asked_once(machine, 0, 0, address);
    times_of_one(start, address);
    times_of_one(host, address);
    times_of_one(end, address);
    times_concat(seq![start], machine.from_first_host(), address);
    times_concat(seq![host], bus, address);
    times_concat(seq![host] + bus, seq![end], address);
}

/// Where no header is asked for twice, no endpoint is found twice.
proof fn found_once(machine: Machine, queries: Seq<Query>)
    requires
        forall|address: PciAddress| #[trigger] times_asked(queries, address) <= 1,
    ensures
        machine.endpoints(queries).no_duplicates(),
    decreases queries.len(),
{
    if queries.len() > 0 {
        let rest = queries.drop_last();
        assert forall|address: PciAddress| #[trigger] times_asked(rest, address) <= 1 by {
            assert(times_asked(queries, address) <= 1);
        }
        found_once(machine, rest);
        let found = machine.endpoints(rest);
        if let Query::Header { address } = queries.last() {
            assert(times_asked(queries, address) <= 1);
            asked_at_all(rest, address);
            if found.contains(address) {
                found_endpoint_was_asked(machine, rest, address);
                assert(false);
            }
            assert forall|i: int, j: int| 0 <= i < j < found.push(address).len() implies #[trigger] found.push(
                address,
            )[i] != #[trigger] found.push(address)[j] by {
                if j == found.len() {
                    assert(found.contains(found[i]));
                }
            }
        }
    }
}

/// On a machine where no bus is behind two bridges, no endpoint is found twice.
pub proof fn endpoints_are_found_once(machine: Machine)
    requires
        machine.regular(),
        single_bridges(machine),
    ensures
        machine.endpoints(machine.all_queries()).no_duplicates(),
{
    assert forall|address: PciAddress| #[trigger]
        times_asked(machine.all_queries(), address) <= 1 by {
        all_asked_once(machine, address);
    }
    found_once(machine, machine.all_queries());
}

} // verus!
