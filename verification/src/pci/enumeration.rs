//! What an enumeration asks, and what it finds.

use crate::pci::config::PciAddress;
use crate::pci::scan::{
    address_of, HeaderKind, Place, Query, Reply, ScanState, Waiting, INVALID,
    MAX_DEVICES_PER_BUS, MAX_FUNCTIONS_PER_DEVICE,
};
use vstd::prelude::*;

verus! {

/// A machine, as its configuration space shows it.
pub ghost struct Machine {
    /// Who made a function; [`INVALID`] where there is none.
    pub vendor: spec_fn(PciAddress) -> u16,
    /// Whether a device has several functions.
    pub several: spec_fn(PciAddress) -> bool,
    /// What a function is.
    pub header: spec_fn(PciAddress) -> HeaderKind,
    /// The bus behind a bridge.
    pub secondary: spec_fn(PciAddress) -> u8,
    /// The height of the bus tree below a bus.
    pub height: spec_fn(u8) -> nat,
}

impl Machine {
    /// A function is there.
    pub open spec fn present(self, address: PciAddress) -> bool {
        (self.vendor)(address) != INVALID
    }

    /// The buses are a tree, every function is an endpoint or a bridge, and there is no
    /// second host controller.
    pub open spec fn regular(self) -> bool {
        &&& forall|bus: u8, device: int, function: int|
            self.present(#[trigger] address_of(bus, device, function)) ==> {
                let address = address_of(bus, device, function);
                match (self.header)(address) {
                    HeaderKind::Endpoint => true,
                    HeaderKind::PciPciBridge => (self.height)((self.secondary)(address)) < (
                    self.height)(bus),
                    _ => false,
                }
            }
        &&& (self.several)(address_of(0, 0, 0)) ==> !self.present(address_of(0, 0, 1))
    }

    /// The answer to a question.
    pub open spec fn reply(self, query: Query) -> Reply {
        match query {
            Query::Vendor { address } => Reply::Vendor { vendor_id: (self.vendor)(address) },
            Query::MultipleFunctions { address } => Reply::MultipleFunctions {
                several: (self.several)(address),
            },
            Query::Header { address } => Reply::Header { kind: (self.header)(address) },
            Query::SecondaryBus { address } => Reply::SecondaryBus {
                bus: (self.secondary)(address),
            },
        }
    }

    /// The questions about the devices of a bus from `device` on.
    pub open spec fn from_device(self, bus: u8, device: int) -> Seq<Query>
        decreases (self.height)(bus), MAX_DEVICES_PER_BUS - device, 11int, 0int,
    {
        if device >= MAX_DEVICES_PER_BUS {
            Seq::empty()
        } else {
            self.of_device(bus, device) + self.from_device(bus, device + 1)
        }
    }

    /// The questions about a device.
    pub open spec fn of_device(self, bus: u8, device: int) -> Seq<Query>
        decreases (self.height)(bus), MAX_DEVICES_PER_BUS - device, 10int, 1int,
    {
        let address = address_of(bus, device, 0);
        if !self.present(address) {
            seq![Query::Vendor { address }]
        } else {
            seq![Query::Vendor { address }] + self.of_function(bus, device, 0) + seq![
                Query::MultipleFunctions { address },
            ] + (if (self.several)(address) {
                self.from_function(bus, device, 1)
            } else {
                Seq::empty()
            })
        }
    }

    /// The questions about the functions of a device from `function` on: they end with the
    /// first that is not there.
    pub open spec fn from_function(self, bus: u8, device: int, function: int) -> Seq<Query>
        decreases
                (self.height)(bus),
                MAX_DEVICES_PER_BUS - device,
                (if function <= 0 {
                    9int
                } else if function >= MAX_FUNCTIONS_PER_DEVICE {
                    0int
                } else {
                    9 - function
                }),
                1int,
    {
        let address = address_of(bus, device, function);
        if function <= 0 || function >= MAX_FUNCTIONS_PER_DEVICE {
            Seq::empty()
        } else if !self.present(address) {
            seq![Query::Vendor { address }]
        } else {
            seq![Query::Vendor { address }] + self.of_function(bus, device, function)
                + self.from_function(bus, device, function + 1)
        }
    }

    /// The questions about a function that is there: what it is, and behind a bridge all
    /// about its bus.
    pub open spec fn of_function(self, bus: u8, device: int, function: int) -> Seq<Query>
        decreases
                (self.height)(bus),
                MAX_DEVICES_PER_BUS - device,
                (if 0 <= function <= 9 {
                    9 - function
                } else {
                    9int
                }),
                0int,
    {
        let address = address_of(bus, device, function);
        let bus_behind = (self.secondary)(address);
        if (self.header)(address) is PciPciBridge && (self.height)(bus_behind) < (self.height)(
            bus,
        ) {
            seq![Query::Header { address }, Query::SecondaryBus { address }] + self.from_device(
                bus_behind,
                0,
            )
        } else {
            seq![Query::Header { address }]
        }
    }

    /// All questions, in order.
    pub open spec fn all_queries(self) -> Seq<Query> {
        let root = address_of(0, 0, 0);
        seq![Query::MultipleFunctions { address: root }] + self.from_first_host()
    }

    /// The questions from the first host controller on.
    pub open spec fn from_first_host(self) -> Seq<Query> {
        let root = address_of(0, 0, 0);
        if !(self.several)(root) {
            self.from_device(0, 0)
        } else if !self.present(root) {
            seq![Query::Vendor { address: root }]
        } else {
            seq![Query::Vendor { address: root }] + self.from_device(0, 0) + seq![
                Query::Vendor { address: address_of(0, 0, 1) },
            ]
        }
    }

    /// The endpoints that the answers to some questions show, in order.
    pub open spec fn endpoints(self, queries: Seq<Query>) -> Seq<PciAddress>
        decreases queries.len(),
    {
        if queries.len() == 0 {
            Seq::empty()
        } else {
            let before = self.endpoints(queries.drop_last());
            match queries.last() {
                Query::Header { address } => if (self.header)(address) is Endpoint {
                    before.push(address)
                } else {
                    before
                },
                _ => before,
            }
        }
    }

    /// The questions that come after those about the function at a place, on its bus.
    pub open spec fn after_place(self, place: Place) -> Seq<Query> {
        let device = place.device as int;
        (if place.function == 0 {
            seq![Query::MultipleFunctions { address: place.at() }] + (if (self.several)(
                place.at(),
            ) {
                self.from_function(place.bus, device, 1)
            } else {
                Seq::empty()
            })
        } else {
            self.from_function(place.bus, device, place.function + 1)
        }) + self.from_device(place.bus, device + 1)
    }

    /// The questions that come after those about the innermost function of a path.
    pub open spec fn after_path(self, path: Seq<Place>, several_hosts: bool) -> Seq<Query>
        decreases path.len(),
    {
        if path.len() == 0 {
            if several_hosts {
                seq![Query::Vendor { address: address_of(0, 0, 1) }]
            } else {
                Seq::empty()
            }
        } else {
            self.after_place(path.last()) + self.after_path(path.drop_last(), several_hosts)
        }
    }

    /// The questions that are still to be asked.
    pub open spec fn remaining(self, state: ScanState) -> Seq<Query> {
        let hosts = state.several_hosts;
        let top = state.path.last();
        let device = top.device as int;
        match state.waiting {
            Waiting::HostCount => self.all_queries(),
            Waiting::FirstHost => self.from_first_host(),
            Waiting::SecondHost => seq![Query::Vendor { address: address_of(0, 0, 1) }],
            Waiting::Device => self.from_device(top.bus, device) + self.after_path(
                state.path.drop_last(),
                hosts,
            ),
            Waiting::Function => self.from_function(top.bus, device, top.function as int)
                + self.from_device(top.bus, device + 1) + self.after_path(
                state.path.drop_last(),
                hosts,
            ),
            Waiting::Header => self.of_function(top.bus, device, top.function as int)
                + self.after_path(state.path, hosts),
            Waiting::SecondaryBus => seq![Query::SecondaryBus { address: top.at() }]
                + self.from_device((self.secondary)(top.at()), 0) + self.after_path(
                state.path,
                hosts,
            ),
            Waiting::MoreFunctions => self.after_path(state.path, hosts),
            Waiting::Finished => Seq::empty(),
        }
    }

    /// The state fits the machine: what was answered before is what the machine answers.
    pub open spec fn consistent(self, state: ScanState) -> bool {
        &&& state.wf()
        &&& !(state.waiting is HostCount) ==> state.several_hosts == (self.several)(
            address_of(0, 0, 0),
        )
        &&& state.waiting is FirstHost ==> state.several_hosts
        &&& state.waiting is SecondHost ==> state.several_hosts
        &&& state.waiting is Header ==> self.present(state.path.last().at())
        &&& state.waiting is SecondaryBus ==> self.present(state.path.last().at()) && (self.header)(
            state.path.last().at(),
        ) is PciPciBridge
    }
}

/// The questions behind a function, and those behind a device, are the ones that the
/// enumeration goes on with.
proof fn goes_on(machine: Machine, state: ScanState)
    requires
        forall|i: int| 0 <= i < state.path.len() ==> (#[trigger] state.path[i]).wf(),
        state.several_hosts == (machine.several)(address_of(0, 0, 0)),
    ensures
        machine.remaining(state.after_function()) == machine.after_path(
            state.path,
            state.several_hosts,
        ),
        machine.consistent(state.after_function()),
        state.after_function().found == state.found,
        state.path.len() > 0 ==> {
            &&& machine.remaining(state.next_device()) == machine.from_device(
                state.path.last().bus,
                state.path.last().device + 1,
            ) + machine.after_path(state.path.drop_last(), state.several_hosts)
            &&& machine.consistent(state.next_device())
            &&& state.next_device().found == state.found
        },
    decreases state.path.len(),
{
    if state.path.len() > 0 {
        let top = state.path.last();
        let below = state.path.drop_last();
        let device = top.device as int;
        let hosts = state.several_hosts;
        assert(top.wf());
        let popped = state.going(below, state.waiting);
        goes_on(machine, popped);
        let next = state.next_device();
        if top.device < MAX_DEVICES_PER_BUS - 1 {
            assert(next.path.drop_last() =~= below);
        } else {
            assert(machine.from_device(top.bus, device + 1) =~= Seq::<Query>::empty());
            assert(machine.remaining(next) =~= machine.from_device(top.bus, device + 1)
                + machine.after_path(below, hosts));
        }
        let after = state.after_function();
        if top.function == 0 {
        } else if top.function < MAX_FUNCTIONS_PER_DEVICE - 1 {
            assert(after.path.drop_last() =~= below);
        } else {
            assert(machine.from_function(top.bus, device, top.function + 1) =~= Seq::<
                Query,
            >::empty());
            assert(machine.after_place(top) =~= machine.from_device(top.bus, device + 1));
        }
    }
}

/// The answer whether a device is there.
proof fn device_answered(machine: Machine, state: ScanState)
    requires
        machine.consistent(state),
        state.waiting is Device,
    ensures
        ({
            let query = Query::Vendor { address: state.path.last().at() };
            let next = state.react(machine.reply(query));
            &&& machine.consistent(next)
            &&& next.found == state.found
            &&& machine.remaining(state) == seq![query] + machine.remaining(next)
        }),
{
    let top = state.path.last();
    let device = top.device as int;
    let query = Query::Vendor { address: top.at() };
    let next = state.react(machine.reply(query));
    let rest = machine.from_device(top.bus, device + 1);
    let outer = machine.after_path(state.path.drop_last(), state.several_hosts);
    goes_on(machine, state);
    assert(top.wf());
    assert(top.at() == address_of(top.bus, device, 0));
    assert(machine.from_device(top.bus, device) == machine.of_device(top.bus, device) + rest);
    if machine.present(top.at()) {
        assert(machine.of_device(top.bus, device) + rest =~= seq![query] + (machine.of_function(
            top.bus,
            device,
            0,
        ) + machine.after_place(top)));
        assert(machine.remaining(next) =~= machine.of_function(top.bus, device, 0)
            + machine.after_place(top) + outer);
    } else {
        assert(machine.of_device(top.bus, device) =~= seq![query]);
    }
    assert(machine.remaining(state) =~= seq![query] + machine.remaining(next));
}

/// The answer whether a function is there.
proof fn function_answered(machine: Machine, state: ScanState)
    requires
        machine.consistent(state),
        state.waiting is Function,
    ensures
        ({
            let query = Query::Vendor { address: state.path.last().at() };
            let next = state.react(machine.reply(query));
            &&& machine.consistent(next)
            &&& next.found == state.found
            &&& machine.remaining(state) == seq![query] + machine.remaining(next)
        }),
{
    let top = state.path.last();
    let device = top.device as int;
    let function = top.function as int;
    let query = Query::Vendor { address: top.at() };
    let next = state.react(machine.reply(query));
    goes_on(machine, state);
    assert(top.wf());
    if machine.present(top.at()) {
        assert(machine.from_function(top.bus, device, function) == seq![query]
            + machine.of_function(top.bus, device, function) + machine.from_function(
            top.bus,
            device,
            function + 1,
        ));
    } else {
        assert(machine.from_function(top.bus, device, function) == seq![query]);
    }
    assert(machine.remaining(state) =~= seq![query] + machine.remaining(next));
}

/// The answer what a function is.
proof fn header_answered(machine: Machine, state: ScanState)
    requires
        machine.regular(),
        machine.consistent(state),
        state.waiting is Header,
    ensures
        ({
            let address = state.path.last().at();
            let query = Query::Header { address };
            let next = state.react(machine.reply(query));
            &&& state.accepts(machine.reply(query))
            &&& machine.consistent(next)
            &&& next.found == (if (machine.header)(address) is Endpoint {
                state.found.push(address)
            } else {
                state.found
            })
            &&& machine.remaining(state) == seq![query] + machine.remaining(next)
        }),
{
    let top = state.path.last();
    let query = Query::Header { address: top.at() };
    let next = state.react(machine.reply(query));
    let counted = ScanState { found: state.found.push(top.at()), ..state };
    goes_on(machine, counted);
    assert(machine.remaining(state) =~= seq![query] + machine.remaining(next));
}

/// The answer whether a device has more functions.
proof fn more_functions_answered(machine: Machine, state: ScanState)
    requires
        machine.consistent(state),
        state.waiting is MoreFunctions,
    ensures
        ({
            let query = Query::MultipleFunctions { address: state.path.last().at() };
            let next = state.react(machine.reply(query));
            &&& machine.consistent(next)
            &&& next.found == state.found
            &&& machine.remaining(state) == seq![query] + machine.remaining(next)
        }),
{
    let top = state.path.last();
    let query = Query::MultipleFunctions { address: top.at() };
    let next = state.react(machine.reply(query));
    goes_on(machine, state);
    assert(top.wf());
    if (machine.several)(top.at()) {
        assert(next.path.drop_last() =~= state.path.drop_last());
    }
    assert(machine.remaining(state) =~= seq![query] + machine.remaining(next));
}

/// The answers about host controllers, and the answer which bus is behind a bridge.
proof fn host_or_bus_answered(machine: Machine, state: ScanState, query: Query)
    requires
        machine.regular(),
        machine.consistent(state),
        state.query() == Some(query),
        state.waiting is HostCount || state.waiting is FirstHost || state.waiting is SecondHost
            || state.waiting is SecondaryBus,
    ensures
        ({
            let next = state.react(machine.reply(query));
            &&& state.accepts(machine.reply(query))
            &&& machine.consistent(next)
            &&& next.found == state.found
            &&& machine.remaining(state) == seq![query] + machine.remaining(next)
        }),
{
    let next = state.react(machine.reply(query));
    let root = address_of(0, 0, 0);
    if state.waiting is SecondaryBus {
        assert(next.path.drop_last() =~= state.path);
    } else if next.waiting is Device {
        assert(next.path.drop_last() =~= Seq::<Place>::empty());
        if state.waiting is HostCount {
            assert(machine.remaining(next) =~= machine.from_first_host());
        }
    }
    assert(machine.remaining(state) =~= seq![query] + machine.remaining(next));
}

/// One answer: it is accepted, it takes the first of the remaining questions away, and it
/// adds an endpoint if it shows one.
proof fn answer_counts(machine: Machine, state: ScanState, query: Query)
    requires
        machine.regular(),
        machine.consistent(state),
        state.query() == Some(query),
    ensures
        state.accepts(machine.reply(query)),
        machine.consistent(state.react(machine.reply(query))),
        machine.remaining(state) == seq![query] + machine.remaining(
            state.react(machine.reply(query)),
        ),
        state.react(machine.reply(query)).found == state.found + machine.endpoints(seq![query]),
{
    assert(seq![query].drop_last() =~= Seq::<Query>::empty());
    assert(seq![query].last() == query);
    assert(machine.endpoints(seq![query].drop_last()) =~= Seq::<PciAddress>::empty());
    match state.waiting {
        Waiting::Device => device_answered(machine, state),
        Waiting::Function => function_answered(machine, state),
        Waiting::Header => header_answered(machine, state),
        Waiting::MoreFunctions => more_functions_answered(machine, state),
        _ => host_or_bus_answered(machine, state, query),
    }
    assert(state.react(machine.reply(query)).found =~= state.found + machine.endpoints(
        seq![query],
    ));
}

/// The endpoints of two portions of questions are those of the one and those of the other.
pub proof fn endpoints_concat(machine: Machine, first: Seq<Query>, second: Seq<Query>)
    ensures
        machine.endpoints(first + second) == machine.endpoints(first) + machine.endpoints(second),
    decreases second.len(),
{
    if second.len() == 0 {
        assert(first + second =~= first);
        assert(machine.endpoints(first) + machine.endpoints(second) =~= machine.endpoints(first));
    } else {
        endpoints_concat(machine, first, second.drop_last());
        assert((first + second).drop_last() =~= first + second.drop_last());
        assert(machine.endpoints(first + second) =~= machine.endpoints(first) + machine.endpoints(
            second,
        ));
    }
}

/// The state of an enumeration after a machine has answered `count` questions.
pub open spec fn after_answers(machine: Machine, count: nat) -> ScanState
    decreases count,
{
    if count == 0 {
        ScanState::initial()
    } else {
        let state = after_answers(machine, (count - 1) as nat);
        match state.query() {
            Some(query) => state.react(machine.reply(query)),
            None => state,
        }
    }
}

/// An enumeration asks the machine's questions one by one, in order, and what it has found
/// is what the answers so far have shown.
pub proof fn questions_in_order(machine: Machine, count: nat)
    requires
        machine.regular(),
        count <= machine.all_queries().len(),
    ensures
        machine.consistent(after_answers(machine, count)),
        machine.remaining(after_answers(machine, count)) == machine.all_queries().skip(
            count as int,
        ),
        after_answers(machine, count).found == machine.endpoints(
            machine.all_queries().take(count as int),
        ),
        count < machine.all_queries().len() ==> after_answers(machine, count).query() == Some(
            machine.all_queries()[count as int],
        ),
    decreases count,
{
    let all = machine.all_queries();
    let state = after_answers(machine, count);
    if count == 0 {
        assert(all.skip(0) =~= all);
        assert(all.take(0) =~= Seq::<Query>::empty());
    } else {
        let before = after_answers(machine, (count - 1) as nat);
        questions_in_order(machine, (count - 1) as nat);
        let query = all[count - 1];
        answer_counts(machine, before, query);
        let rest = machine.remaining(state);
        assert(rest =~= (seq![query] + rest).skip(1));
        assert(rest =~= all.skip(count as int));
        assert(all.take(count as int) =~= all.take(count - 1) + seq![query]);
        endpoints_concat(machine, all.take(count - 1), seq![query]);
    }
    if count < all.len() {
        assert(all.skip(count as int)[0] == all[count as int]);
        first_question(machine, state);
    }
}

/// The question that is to be answered is the first of the remaining ones.
proof fn first_question(machine: Machine, state: ScanState)
    requires
        machine.regular(),
        machine.consistent(state),
        machine.remaining(state).len() > 0,
    ensures
        state.query() == Some(machine.remaining(state)[0]),
{
    if let Some(query) = state.query() {
        answer_counts(machine, state, query);
    }
}

/// On a machine whose buses are a tree of endpoints and bridges, an enumeration never meets
/// an answer that it cannot take, it ends, and it finds each endpoint that the bus tree
/// leads to, in order.
pub proof fn enumeration_finds_the_endpoints(machine: Machine)
    requires
        machine.regular(),
    ensures
        forall|count: nat|
            count < machine.all_queries().len() ==> {
                &&& (#[trigger] after_answers(machine, count)).query() == Some(
                    machine.all_queries()[count as int],
                )
                &&& after_answers(machine, count).accepts(
                    machine.reply(machine.all_queries()[count as int]),
                )
            },
        after_answers(machine, machine.all_queries().len()).query() is None,
        after_answers(machine, machine.all_queries().len()).found == machine.endpoints(
            machine.all_queries(),
        ),
{
    let all = machine.all_queries();
    assert forall|count: nat| count < all.len() implies {
        &&& (#[trigger] after_answers(machine, count)).query() == Some(all[count as int])
        &&& after_answers(machine, count).accepts(machine.reply(all[count as int]))
    } by {
        questions_in_order(machine, count);
        answer_counts(machine, after_answers(machine, count), all[count as int]);
    }
    questions_in_order(machine, all.len());
    let end = after_answers(machine, all.len());
    assert(all.take(all.len() as int) =~= all);
    assert(machine.remaining(end) =~= Seq::<Query>::empty());
    if let Some(query) = end.query() {
        answer_counts(machine, end, query);
    }
}

/// An endpoint that is the first function of a device on the first bus is found.
pub proof fn endpoint_on_first_bus_is_found(machine: Machine, device: int)
    requires
        machine.regular(),
        0 <= device < MAX_DEVICES_PER_BUS,
        machine.present(address_of(0, 0, 0)) || !(machine.several)(address_of(0, 0, 0)),
        machine.present(address_of(0, device, 0)),
        (machine.header)(address_of(0, device, 0)) is Endpoint,
    ensures
        machine.endpoints(machine.all_queries()).contains(address_of(0, device, 0)),
{
    let address = address_of(0, device, 0);
    let query = Query::Header { address };
    let of_device = machine.of_device(0, device);
    assert(machine.of_function(0, device, 0)[0] == query);
    assert(of_device[1] == query);
    asked_of_device(machine, 0, 0, device, 1);
    let from = machine.from_device(0, 0);
    let k = choose|k: int| 0 <= k < from.len() && #[trigger] from[k] == query;
    let all = machine.all_queries();
    if (machine.several)(address_of(0, 0, 0)) {
        assert(all[2 + k] == query);
    } else {
        assert(all[1 + k] == query);
    }
    asked_endpoint_is_found(machine, all, address);
}

/// What is asked about a device is asked about its bus.
proof fn asked_of_device(machine: Machine, bus: u8, first: int, device: int, k: int)
    requires
        0 <= first <= device < MAX_DEVICES_PER_BUS,
        0 <= k < machine.of_device(bus, device).len(),
    ensures
        exists|j: int|
            0 <= j < machine.from_device(bus, first).len() && #[trigger] machine.from_device(
                bus,
                first,
            )[j] == machine.of_device(bus, device)[k],
    decreases device - first,
{
    let all = machine.from_device(bus, first);
    if first == device {
        assert(all[k] == machine.of_device(bus, device)[k]);
    } else {
        asked_of_device(machine, bus, first + 1, device, k);
        let rest = machine.from_device(bus, first + 1);
        let j = choose|j: int|
            0 <= j < rest.len() && #[trigger] rest[j] == machine.of_device(bus, device)[k];
        let at = machine.of_device(bus, first).len() + j;
        assert(all[at] == rest[j]);
    }
}

/// An endpoint whose header is asked for is found.
pub proof fn asked_endpoint_is_found(machine: Machine, queries: Seq<Query>, address: PciAddress)
    requires
        queries.contains(Query::Header { address }),
        (machine.header)(address) is Endpoint,
    ensures
        machine.endpoints(queries).contains(address),
    decreases queries.len(),
{
    let rest = queries.drop_last();
    let found = machine.endpoints(rest);
    let all = machine.endpoints(queries);
    if queries.last() == (Query::Header { address }) {
        assert(all.last() == address);
    } else {
        let i = queries.index_of(Query::Header { address });
        assert(rest[i] == queries[i]);
        asked_endpoint_is_found(machine, rest, address);
        let j = found.index_of(address);
        assert(all[j] == address);
    }
}

} // verus!
