//! The enumeration of the PCI functions of a machine.
//!
//! The enumeration is driven by what the configuration space holds. [`PciScan`] asks one
//! question after the other; whoever runs it answers them.

use crate::pci::config::PciAddress;
use vstd::prelude::*;

verus! {

/// The number of devices of a bus.
pub const MAX_DEVICES_PER_BUS: u8 = 32;

/// The number of functions of a device.
pub const MAX_FUNCTIONS_PER_DEVICE: u8 = 8;

/// The vendor of a function that is not there.
pub const INVALID: u16 = 0xffff;

/// The segment of every address.
pub const SEGMENT: u16 = 0x8000;

/// What the header of a function says that it is.
#[derive(Clone, Copy, Debug, PartialEq, Eq, Structural)]
pub enum HeaderKind {
    Endpoint,
    PciPciBridge,
    CardBusBridge,
    Unknown { value: u8 },
}

/// A question to the configuration space.
#[derive(Clone, Copy, Debug, PartialEq, Eq, Structural)]
pub enum Query {
    /// Who made the function?
    Vendor { address: PciAddress },
    /// Does its device have several functions?
    MultipleFunctions { address: PciAddress },
    /// What is the function?
    Header { address: PciAddress },
    /// Which bus is behind the bridge?
    SecondaryBus { address: PciAddress },
}

/// An answer of the configuration space.
#[derive(Clone, Copy, Debug, PartialEq, Eq, Structural)]
pub enum Reply {
    Vendor { vendor_id: u16 },
    MultipleFunctions { several: bool },
    Header { kind: HeaderKind },
    SecondaryBus { bus: u8 },
}

/// A function that is under examination.
#[derive(Clone, Copy, Debug, PartialEq, Eq, Structural)]
pub struct Place {
    pub bus: u8,
    pub device: u8,
    pub function: u8,
}

/// What the enumeration waits for.
#[derive(Clone, Copy, Debug, PartialEq, Eq, Structural)]
pub enum Waiting {
    /// Whether there are several host controllers.
    HostCount,
    /// Whether the first host controller is there.
    FirstHost,
    /// Whether there is a second host controller.
    SecondHost,
    /// Whether the device is there.
    Device,
    /// Whether the function is there.
    Function,
    /// What the function is.
    Header,
    /// The bus behind the bridge.
    SecondaryBus,
    /// Whether the device has more functions.
    MoreFunctions,
    /// Nothing more.
    Finished,
}

/// The address of the function at a place.
pub open spec fn address_of(bus: u8, device: int, function: int) -> PciAddress {
    PciAddress { segment: SEGMENT, bus, device: device as u8, function: function as u8 }
}

impl Place {
    /// The place is on a bus.
    pub open spec fn wf(self) -> bool {
        self.device < MAX_DEVICES_PER_BUS && self.function < MAX_FUNCTIONS_PER_DEVICE
    }

    /// The address of the function.
    pub open spec fn at(self) -> PciAddress {
        address_of(self.bus, self.device as int, self.function as int)
    }

    /// The address of the function.
    fn address(&self) -> (address: PciAddress)
        requires
            self.wf(),
        ensures
            address == self.at(),
    {
        PciAddress::new(SEGMENT, self.bus, self.device, self.function)
    }
}

/// How far an enumeration has come.
pub ghost struct ScanState {
    /// What it waits for.
    pub waiting: Waiting,
    /// The function under examination, and below it the bridges that lead to it.
    pub path: Seq<Place>,
    /// Whether there are several host controllers.
    pub several_hosts: bool,
    /// The endpoints found so far.
    pub found: Seq<PciAddress>,
}

impl ScanState {
    /// The state before the first answer.
    pub open spec fn initial() -> ScanState {
        ScanState {
            waiting: Waiting::HostCount,
            path: Seq::empty(),
            several_hosts: false,
            found: Seq::empty(),
        }
    }

    /// The enumeration is on a bus.
    pub open spec fn on_bus(self) -> bool {
        match self.waiting {
            Waiting::Device
            | Waiting::Function
            | Waiting::Header
            | Waiting::SecondaryBus
            | Waiting::MoreFunctions => true,
            _ => false,
        }
    }

    /// What holds between two answers.
    pub open spec fn wf(self) -> bool {
        &&& self.on_bus() <==> self.path.len() > 0
        &&& forall|i: int| 0 <= i < self.path.len() ==> (#[trigger] self.path[i]).wf()
        &&& self.waiting is Device ==> self.path.last().function == 0
        &&& self.waiting is MoreFunctions ==> self.path.last().function == 0
        &&& self.waiting is Function ==> self.path.last().function > 0
    }

    /// The question that is to be answered.
    pub open spec fn query(self) -> Option<Query> {
        match self.waiting {
            Waiting::HostCount => Some(
                Query::MultipleFunctions { address: address_of(0, 0, 0) },
            ),
            Waiting::FirstHost => Some(Query::Vendor { address: address_of(0, 0, 0) }),
            Waiting::SecondHost => Some(Query::Vendor { address: address_of(0, 0, 1) }),
            Waiting::Device | Waiting::Function => Some(
                Query::Vendor { address: self.path.last().at() },
            ),
            Waiting::Header => Some(Query::Header { address: self.path.last().at() }),
            Waiting::SecondaryBus => Some(Query::SecondaryBus { address: self.path.last().at() }),
            Waiting::MoreFunctions => Some(
                Query::MultipleFunctions { address: self.path.last().at() },
            ),
            Waiting::Finished => None,
        }
    }

    /// The reply answers the question, and the enumeration can go on after it: there is at
    /// most one host controller with a bus, and every function is an endpoint or a bridge
    /// between PCI buses.
    pub open spec fn accepts(self, reply: Reply) -> bool {
        match reply {
            Reply::Vendor { vendor_id } => match self.waiting {
                Waiting::FirstHost | Waiting::Device | Waiting::Function => true,
                Waiting::SecondHost => vendor_id == INVALID,
                _ => false,
            },
            Reply::MultipleFunctions { .. } => self.waiting is HostCount || self.waiting
                is MoreFunctions,
            Reply::Header { kind } => self.waiting is Header && (kind is Endpoint || kind
                is PciPciBridge),
            Reply::SecondaryBus { .. } => self.waiting is SecondaryBus,
        }
    }

    /// The same state with another path, waiting for something else.
    pub open spec fn going(self, path: Seq<Place>, waiting: Waiting) -> ScanState {
        ScanState { waiting, path, ..self }
    }

    /// A bus is entered at its first device.
    pub open spec fn enter_bus(self, bus: u8) -> ScanState {
        self.going(self.path.push(Place { bus, device: 0, function: 0 }), Waiting::Device)
    }

    /// The function under examination is done with: another function of its device comes
    /// next, if there may be one.
    pub open spec fn after_function(self) -> ScanState
        decreases self.path.len(), 1int,
    {
        if self.path.len() == 0 {
            self.going(
                self.path,
                if self.several_hosts {
                    Waiting::SecondHost
                } else {
                    Waiting::Finished
                },
            )
        } else {
            let top = self.path.last();
            if top.function == 0 {
                self.going(self.path, Waiting::MoreFunctions)
            } else if top.function < MAX_FUNCTIONS_PER_DEVICE - 1 {
                self.going(
                    self.path.drop_last().push(
                        Place { function: (top.function + 1) as u8, ..top },
                    ),
                    Waiting::Function,
                )
            } else {
                self.next_device()
            }
        }
    }

    /// The device under examination is done with: the next device of the bus comes next, or,
    /// behind the last one, what follows the bridge that led to the bus.
    pub open spec fn next_device(self) -> ScanState
        decreases self.path.len(), 0int,
    {
        if self.path.len() == 0 {
            self
        } else {
            let top = self.path.last();
            if top.device < MAX_DEVICES_PER_BUS - 1 {
                self.going(
                    self.path.drop_last().push(
                        Place { bus: top.bus, device: (top.device + 1) as u8, function: 0 },
                    ),
                    Waiting::Device,
                )
            } else {
                self.going(self.path.drop_last(), self.waiting).after_function()
            }
        }
    }

    /// The state after a reply.
    pub open spec fn react(self, reply: Reply) -> ScanState {
        match reply {
            Reply::Vendor { vendor_id } => {
                if self.waiting is FirstHost {
                    if vendor_id == INVALID {
                        self.going(self.path, Waiting::Finished)
                    } else {
                        self.enter_bus(0)
                    }
                } else if self.waiting is SecondHost {
                    self.going(self.path, Waiting::Finished)
                } else if vendor_id == INVALID {
                    self.next_device()
                } else {
                    self.going(self.path, Waiting::Header)
                }
            },
            Reply::MultipleFunctions { several } => {
                if self.waiting is HostCount {
                    let counted = ScanState { several_hosts: several, ..self };
                    if several {
                        counted.going(self.path, Waiting::FirstHost)
                    } else {
                        counted.enter_bus(0)
                    }
                } else if several {
                    self.going(
                        self.path.drop_last().push(Place { function: 1, ..self.path.last() }),
                        Waiting::Function,
                    )
                } else {
                    self.next_device()
                }
            },
            Reply::Header { kind } => {
                if kind is PciPciBridge {
                    self.going(self.path, Waiting::SecondaryBus)
                } else {
                    ScanState {
                        found: self.found.push(self.path.last().at()),
                        ..self
                    }.after_function()
                }
            },
            Reply::SecondaryBus { bus } => self.enter_bus(bus),
        }
    }
}

/// An enumeration of the PCI functions.
pub struct PciScan {
    waiting: Waiting,
    path: Vec<Place>,
    several_hosts: bool,
    found: Vec<PciAddress>,
}

impl View for PciScan {
    type V = ScanState;

    closed spec fn view(&self) -> ScanState {
        ScanState {
            waiting: self.waiting,
            path: self.path@,
            several_hosts: self.several_hosts,
            found: self.found@,
        }
    }
}

impl PciScan {
    /// An enumeration that has not begun.
    pub fn new() -> (scan: PciScan)
        ensures
            scan@ == ScanState::initial(),
            scan@.wf(),
    {
        let scan = PciScan {
            waiting: Waiting::HostCount,
            path: Vec::new(),
            several_hosts: false,
            found: Vec::new(),
        };
        assert(scan@.path =~= Seq::<Place>::empty());
        assert(scan@.found =~= Seq::<PciAddress>::empty());
        scan
    }

    /// The question that is to be answered, until the enumeration is finished.
    pub fn query(&self) -> (query: Option<Query>)
        requires
            self@.wf(),
        ensures
            query == self@.query(),
    {
        match self.waiting {
            Waiting::HostCount => Some(
                Query::MultipleFunctions { address: PciAddress::new(SEGMENT, 0, 0, 0) },
            ),
            Waiting::FirstHost => Some(
                Query::Vendor { address: PciAddress::new(SEGMENT, 0, 0, 0) },
            ),
            Waiting::SecondHost => Some(
                Query::Vendor { address: PciAddress::new(SEGMENT, 0, 0, 1) },
            ),
            Waiting::Device | Waiting::Function => Some(
                Query::Vendor { address: self.path[self.path.len() - 1].address() },
            ),
            Waiting::Header => Some(
                Query::Header { address: self.path[self.path.len() - 1].address() },
            ),
            Waiting::SecondaryBus => Some(
                Query::SecondaryBus { address: self.path[self.path.len() - 1].address() },
            ),
            Waiting::MoreFunctions => Some(
                Query::MultipleFunctions { address: self.path[self.path.len() - 1].address() },
            ),
            Waiting::Finished => None,
        }
    }

    /// Whether the enumeration can go on after a reply.
    pub fn accepts(&self, reply: &Reply) -> (accepted: bool)
        ensures
            accepted == self@.accepts(*reply),
    {
        match reply {
            Reply::Vendor { vendor_id } => match self.waiting {
                Waiting::FirstHost | Waiting::Device | Waiting::Function => true,
                Waiting::SecondHost => *vendor_id == INVALID,
                _ => false,
            },
            Reply::MultipleFunctions { .. } => matches!(
                self.waiting,
                Waiting::HostCount | Waiting::MoreFunctions
            ),
            Reply::Header { kind } => matches!(self.waiting, Waiting::Header) && matches!(
                kind,
                HeaderKind::Endpoint | HeaderKind::PciPciBridge
            ),
            Reply::SecondaryBus { .. } => matches!(self.waiting, Waiting::SecondaryBus),
        }
    }

    /// Enters a bus at its first device.
    fn scan_bus(&mut self, bus: u8)
        requires
            forall|i: int| 0 <= i < old(self)@.path.len() ==> (#[trigger] old(self)@.path[i]).wf(),
        ensures
            final(self)@ == old(self)@.enter_bus(bus),
            final(self)@.wf(),
    {
        self.path.push(Place { bus, device: 0, function: 0 });
        self.waiting = Waiting::Device;
    }

    /// Goes on behind the function under examination, or, with `device_done`, behind its
    /// device.
    fn advance(&mut self, device_done: bool)
        requires
            old(self)@.path.len() > 0,
            forall|i: int| 0 <= i < old(self)@.path.len() ==> (#[trigger] old(self)@.path[i]).wf(),
        ensures
            final(self)@ == (if device_done {
                old(self)@.next_device()
            } else {
                old(self)@.after_function()
            }),
            final(self)@.wf(),
    {
        let ghost goal = if device_done {
            self@.next_device()
        } else {
            self@.after_function()
        };
        let mut done: bool = device_done;
        loop
            invariant_except_break
                forall|i: int| 0 <= i < self@.path.len() ==> (#[trigger] self@.path[i]).wf(),
                done ==> self@.path.len() > 0,
                goal == (if done {
                    self@.next_device()
                } else {
                    self@.after_function()
                }),
            ensures
                self@ == goal,
                self@.wf(),
            decreases self@.path.len(),
        {
            if self.path.len() == 0 {
                self.waiting = if self.several_hosts {
                    Waiting::SecondHost
                } else {
                    Waiting::Finished
                };
                assert(self@ == goal);
                break;
            }
            let last: usize = self.path.len() - 1;
            let top = self.path[last];
            if !done && top.function == 0 {
                self.waiting = Waiting::MoreFunctions;
                break;
            }
            if !done && top.function < MAX_FUNCTIONS_PER_DEVICE - 1 {
                self.path[last] = Place {
                    bus: top.bus,
                    device: top.device,
                    function: top.function + 1,
                };
                self.waiting = Waiting::Function;
                assert(self@.path =~= goal.path);
                break;
            }
            if top.device < MAX_DEVICES_PER_BUS - 1 {
                self.path[last] = Place { bus: top.bus, device: top.device + 1, function: 0 };
                self.waiting = Waiting::Device;
                assert(self@.path =~= goal.path);
                break;
            }
            let ghost before = self@;
            self.path.pop();
            assert(self@.path =~= before.path.drop_last());
            assert(self@ == before.going(before.path.drop_last(), before.waiting));
            done = false;
        }
    }

    /// Takes the answer to the question.
    pub fn resume(&mut self, reply: Reply)
        requires
            old(self)@.wf(),
            old(self)@.accepts(reply),
        ensures
            final(self)@ == old(self)@.react(reply),
            final(self)@.wf(),
    {
        match reply {
            Reply::Vendor { vendor_id } => match self.waiting {
                Waiting::FirstHost => {
                    if vendor_id == INVALID {
                        self.waiting = Waiting::Finished;
                    } else {
                        self.scan_bus(0);
                    }
                },
                Waiting::SecondHost => {
                    self.waiting = Waiting::Finished;
                },
                _ => {
                    if vendor_id == INVALID {
                        self.advance(true);
                    } else {
                        self.waiting = Waiting::Header;
                    }
                },
            },
            Reply::MultipleFunctions { several } => {
                if let Waiting::HostCount = self.waiting {
                    self.several_hosts = several;
                    if several {
                        self.waiting = Waiting::FirstHost;
                    } else {
                        self.scan_bus(0);
                    }
                } else if several {
                    let ghost before = self@;
                    let last: usize = self.path.len() - 1;
                    let top = self.path[last];
                    self.path[last] = Place { bus: top.bus, device: top.device, function: 1 };
                    self.waiting = Waiting::Function;
                    assert(self@.path =~= before.react(reply).path);
                } else {
                    self.advance(true);
                }
            },
            Reply::Header { kind } => {
                if let HeaderKind::PciPciBridge = kind {
                    self.waiting = Waiting::SecondaryBus;
                } else {
                    let ghost before = self@;
                    let address = self.path[self.path.len() - 1].address();
                    self.found.push(address);
                    assert(self@ == (ScanState {
                        found: before.found.push(before.path.last().at()),
                        ..before
                    }));
                    self.advance(false);
                }
            },
            Reply::SecondaryBus { bus } => {
                self.scan_bus(bus);
            },
        }
    }

    /// The endpoints that have been found.
    pub fn into_found(self) -> (found: Vec<PciAddress>)
        ensures
            found@ == self@.found,
    {
        self.found
    }
}

/// A bus has 32 devices of 8 functions each, and the enumeration looks at all these places.
pub proof fn places_of_a_bus(place: Place)
    ensures
        place.wf() <==> place.device < 32 && place.function < 8,
        place.wf() ==> place.at().bus == place.bus && place.at().device == place.device
            && place.at().function == place.function,
{
}

/// How the enumeration goes on from a function that it has found to be there, or not: an
/// endpoint is noted; behind a bridge its bus comes next; and after the function the next one
/// of the device, the next device, or what follows the bridge.
pub proof fn enumeration_goes_on(state: ScanState, reply: Reply)
    requires
        state.wf(),
        state.accepts(reply),
        state.path.len() > 0,
    ensures
        ({
            let top = state.path.last();
            let after = state.react(reply);
            let here = address_of(top.bus, top.device as int, top.function as int);
            &&& after.found == (if reply == (Reply::Header { kind: HeaderKind::Endpoint }) {
                state.found.push(here)
            } else {
                state.found
            })
            &&& (reply matches Reply::Vendor { vendor_id } && vendor_id != 0xffff)
                ==> after.query() == Some(Query::Header { address: here })
            &&& reply == (Reply::Header { kind: HeaderKind::PciPciBridge }) ==> after.query()
                == Some(Query::SecondaryBus { address: here })
            &&& reply matches Reply::SecondaryBus { bus } ==> after.query() == Some(
                Query::Vendor { address: address_of(bus, 0, 0) },
            )
            &&& reply == (Reply::Header { kind: HeaderKind::Endpoint }) && top.function == 0
                ==> after.query() == Some(Query::MultipleFunctions { address: here })
            &&& reply == (Reply::Header { kind: HeaderKind::Endpoint }) && 0 < top.function < 7
                ==> after.query() == Some(
                Query::Vendor {
                    address: address_of(top.bus, top.device as int, top.function + 1),
                },
            )
            &&& reply == (Reply::MultipleFunctions { several: true }) ==> after.query() == Some(
                Query::Vendor { address: address_of(top.bus, top.device as int, 1) },
            )
            &&& (reply == (Reply::MultipleFunctions { several: false }) || (
            reply matches Reply::Vendor { vendor_id } && vendor_id == 0xffff)) && top.device < 31
                ==> after.query() == Some(
                Query::Vendor { address: address_of(top.bus, top.device + 1, 0) },
            )
        }),
{
    found_is_kept(state);
    found_is_kept(ScanState { found: state.found.push(state.path.last().at()), ..state });
}

/// Going on finds nothing by itself.
proof fn found_is_kept(state: ScanState)
    ensures
        state.after_function().found == state.found,
        state.next_device().found == state.found,
    decreases state.path.len(),
{
    if state.path.len() > 0 {
        found_is_kept(state.going(state.path.drop_last(), state.waiting));
    }
}

/// How the enumeration begins and ends with the host controllers: the first one is asked whether
/// it has several functions. If not, bus 0 is gone through. If so, it has to be there for that,
/// and a second host controller is looked for in the end; there must be none.
pub proof fn hosts_frame_the_enumeration(vendor_id: u16, state: ScanState)
    ensures
        ({
            let first = address_of(0, 0, 0);
            let start = ScanState::initial();
            let single = start.react(Reply::MultipleFunctions { several: false });
            let several = start.react(Reply::MultipleFunctions { several: true });
            let looked = several.react(Reply::Vendor { vendor_id });
            &&& start.query() == Some(Query::MultipleFunctions { address: first })
            &&& start.found.len() == 0
            &&& single.query() == Some(Query::Vendor { address: first })
            &&& single.path.len() == 1 && !single.several_hosts
            &&& several.query() == Some(Query::Vendor { address: first })
            &&& several.path.len() == 0 && several.several_hosts
            &&& vendor_id == 0xffff ==> looked.query() is None
            &&& vendor_id != 0xffff ==> looked.query() == Some(Query::Vendor { address: first })
                && looked.path.len() == 1
            &&& state.waiting is SecondHost ==> {
                &&& state.query() == Some(Query::Vendor { address: address_of(0, 0, 1) })
                &&& state.accepts(Reply::Vendor { vendor_id }) <==> vendor_id == 0xffff
                &&& state.react(Reply::Vendor { vendor_id }).query() is None
                &&& state.react(Reply::Vendor { vendor_id }).found == state.found
            }
        }),
{
}

/// How the enumeration goes on behind the last device of a bus: after the bus of a bridge it
/// goes on with the functions of the bridge's device, and after bus 0 it is at its end.
pub proof fn bus_comes_to_its_end(state: ScanState, reply: Reply)
    requires
        state.wf(),
        state.accepts(reply),
        state.path.len() > 0,
        state.path.last().device == 31,
        match reply {
            Reply::Vendor { vendor_id } => vendor_id == 0xffff,
            Reply::MultipleFunctions { several } => !several,
            Reply::Header { kind } => kind is Endpoint && state.path.last().function == 7,
            Reply::SecondaryBus { .. } => false,
        },
    ensures
        ({
            let after = state.react(reply);
            &&& state.path.len() == 1 ==> after.query() == (if state.several_hosts {
                Some(Query::Vendor { address: address_of(0, 0, 1) })
            } else {
                None
            })
            &&& state.path.len() > 1 ==> {
                let bridge = state.path[state.path.len() - 2];
                &&& bridge.function == 0 ==> after.query() == Some(
                    Query::MultipleFunctions { address: bridge.at() },
                )
                &&& 0 < bridge.function < 7 ==> after.query() == Some(
                    Query::Vendor {
                        address: address_of(
                            bridge.bus,
                            bridge.device as int,
                            bridge.function + 1,
                        ),
                    },
                )
                &&& bridge.function == 7 && bridge.device < 31 ==> after.query() == Some(
                    Query::Vendor { address: address_of(bridge.bus, bridge.device + 1, 0) },
                )
            }
        }),
{
    reveal_with_fuel(ScanState::after_function, 4);
    reveal_with_fuel(ScanState::next_device, 4);
    if state.path.len() > 1 {
        assert(state.path.drop_last().last() == state.path[state.path.len() - 2]);
    }
}

/// Every answer to the question is taken, except that of a second host controller that is there
/// and that of a function that is neither an endpoint nor a bridge between PCI buses.
pub proof fn answers_are_taken(state: ScanState, reply: Reply)
    ensures
        state.accepts(reply) <==> match reply {
            Reply::Vendor { vendor_id } => (state.query() matches Some(Query::Vendor { .. })) && (
            state.waiting is SecondHost ==> vendor_id == 0xffff),
            Reply::MultipleFunctions { .. } => state.query() matches Some(
                Query::MultipleFunctions { .. },
            ),
            Reply::Header { kind } => (state.query() matches Some(Query::Header { .. })) && (
            kind is Endpoint || kind is PciPciBridge),
            Reply::SecondaryBus { .. } => state.query() matches Some(Query::SecondaryBus { .. }),
        },
{
}

} // verus!
