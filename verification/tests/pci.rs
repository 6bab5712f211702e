use d3os_virtio::pci::bus::{DeviceClass, DeviceId, PciBus};
use d3os_virtio::pci::config::{ConfigurationSpace, DeviceFunction, PciAddress, PortAccess};
use d3os_virtio::pci::scan::{HeaderKind, PciScan, Query, Reply};

fn address(bus: u8, device: u8, function: u8) -> PciAddress {
    PciAddress::new(0x8000, bus, device, function)
}

#[test]
fn registers_are_selected() {
    let space = ConfigurationSpace::new();
    assert_eq!(
        space.read(PciAddress::new(0x8000, 0x12, 3, 4), 0x3e),
        PortAccess {
            address_port: 0xcf8,
            selector: 0x8012_1c3c,
            data_port: 0xcfc,
            value: None,
        }
    );
    assert_eq!(
        space.write(PciAddress::new(0, 255, 31, 7), 0xff, 0x55),
        PortAccess {
            address_port: 0xcf8,
            selector: 0x80ff_fffc,
            data_port: 0xcfc,
            value: Some(0x55),
        }
    );
    assert_eq!(space.read(address(0, 0, 0), 0x104).selector, 0x8000_0004);
}

#[test]
fn transport_reads_and_writes_words() {
    let space = ConfigurationSpace::new();
    let device_function = DeviceFunction { bus: 1, device: 2, function: 3 };
    assert_eq!(space.read_word(device_function, 0x10).selector, 0x8001_1310);
    let access = space.write_word(device_function, 0x14, 9);
    assert_eq!((access.selector, access.value), (0x8001_1314, Some(9)));
}

#[test]
fn address_parts_are_those_of_the_address_type() {
    let ours = address(7, 31, 5);
    let theirs = pci_types::PciAddress::new(ours.segment, ours.bus, ours.device, ours.function);
    assert_eq!(
        (theirs.segment(), theirs.bus(), theirs.device(), theirs.function()),
        (ours.segment, ours.bus, ours.device, ours.function)
    );
}

struct Machine {
    functions: Vec<(PciAddress, HeaderKind, bool, u8)>,
}

impl Machine {
    fn find(&self, address: PciAddress) -> Option<(HeaderKind, bool, u8)> {
        self.functions
            .iter()
            .find(|function| function.0 == address)
            .map(|function| (function.1, function.2, function.3))
    }

    fn reply(&self, query: Query) -> Reply {
        match query {
            Query::Vendor { address } => Reply::Vendor {
                vendor_id: if self.find(address).is_some() { 0x1af4 } else { 0xffff },
            },
            Query::MultipleFunctions { address } => Reply::MultipleFunctions {
                several: self.find(address).map_or(true, |function| function.1),
            },
            Query::Header { address } => {
                Reply::Header { kind: self.find(address).unwrap().0 }
            }
            Query::SecondaryBus { address } => {
                Reply::SecondaryBus { bus: self.find(address).unwrap().2 }
            }
        }
    }

    fn scan(&self) -> (PciBus, usize) {
        let mut scan: PciScan = PciBus::scan();
        let mut questions = 0;
        while let Some(query) = scan.query() {
            let reply = self.reply(query);
            assert!(scan.accepts(&reply));
            scan.resume(reply);
            questions += 1;
        }
        (PciBus::from_scan(scan), questions)
    }
}

#[test]
fn endpoints_behind_bridges_are_found_in_order() {
    let machine = Machine {
        functions: vec![
            (address(0, 0, 0), HeaderKind::Endpoint, false, 0),
            (address(0, 1, 0), HeaderKind::PciPciBridge, true, 3),
            (address(0, 1, 1), HeaderKind::Endpoint, false, 0),
            (address(0, 1, 3), HeaderKind::Endpoint, false, 0),
            (address(0, 31, 0), HeaderKind::Endpoint, true, 0),
            (address(0, 31, 1), HeaderKind::Endpoint, true, 0),
            (address(0, 31, 2), HeaderKind::Endpoint, true, 0),
            (address(0, 31, 3), HeaderKind::Endpoint, true, 0),
            (address(0, 31, 4), HeaderKind::Endpoint, true, 0),
            (address(0, 31, 5), HeaderKind::Endpoint, true, 0),
            (address(0, 31, 6), HeaderKind::Endpoint, true, 0),
            (address(0, 31, 7), HeaderKind::PciPciBridge, true, 9),
            (address(3, 4, 0), HeaderKind::Endpoint, false, 0),
            (address(3, 31, 0), HeaderKind::PciPciBridge, false, 5),
            (address(5, 31, 0), HeaderKind::Endpoint, false, 0),
            (address(9, 2, 0), HeaderKind::Endpoint, false, 0),
        ],
    };
    let (bus, _) = machine.scan();
    assert_eq!(
        bus.devices(),
        &vec![
            address(0, 0, 0),
            address(3, 4, 0),
            address(5, 31, 0),
            address(0, 1, 1),
            address(0, 31, 0),
            address(0, 31, 1),
            address(0, 31, 2),
            address(0, 31, 3),
            address(0, 31, 4),
            address(0, 31, 5),
            address(0, 31, 6),
            address(9, 2, 0),
        ]
    );
}

#[test]
fn machine_without_pci_is_asked_twice() {
    let (bus, questions) = Machine { functions: vec![] }.scan();
    assert_eq!(bus.devices().len(), 0);
    assert_eq!(questions, 2);
}

#[test]
fn single_host_controller_is_asked_for_every_device() {
    let machine = Machine {
        functions: vec![(address(0, 0, 0), HeaderKind::Endpoint, false, 0)],
    };
    let (bus, questions) = machine.scan();
    assert_eq!(bus.devices(), &vec![address(0, 0, 0)]);
    // The host controllers, 32 devices, and the header and the functions of the first.
    assert_eq!(questions, 1 + 32 + 2);
}

#[test]
fn unexpected_answers_are_not_accepted() {
    let mut scan = PciBus::scan();
    assert!(!scan.accepts(&Reply::Vendor { vendor_id: 1 }));
    scan.resume(Reply::MultipleFunctions { several: true });
    scan.resume(Reply::Vendor { vendor_id: 1 });
    scan.resume(Reply::Vendor { vendor_id: 1 });
    assert!(!scan.accepts(&Reply::Header { kind: HeaderKind::CardBusBridge }));
    assert!(!scan.accepts(&Reply::Header { kind: HeaderKind::Unknown { value: 9 } }));
    scan.resume(Reply::Header { kind: HeaderKind::Endpoint });
    scan.resume(Reply::MultipleFunctions { several: false });
    for _ in 1..32 {
        scan.resume(Reply::Vendor { vendor_id: 0xffff });
    }
    assert_eq!(scan.query(), Some(Query::Vendor { address: address(0, 0, 1) }));
    assert!(!scan.accepts(&Reply::Vendor { vendor_id: 1 }));
    scan.resume(Reply::Vendor { vendor_id: 0xffff });
    assert_eq!(scan.query(), None);
}

#[test]
fn devices_are_searched() {
    let machine = Machine {
        functions: vec![
            (address(0, 0, 0), HeaderKind::Endpoint, false, 0),
            (address(0, 1, 0), HeaderKind::Endpoint, false, 0),
            (address(0, 2, 0), HeaderKind::Endpoint, false, 0),
        ],
    };
    let (bus, _) = machine.scan();
    let ids = vec![
        DeviceId { vendor_id: 0x1af4, device_id: 0x1050 },
        DeviceId { vendor_id: 0x8086, device_id: 0x1050 },
        DeviceId { vendor_id: 0x1af4, device_id: 0x1044 },
    ];
    assert_eq!(bus.search_by_vendor(0x1af4, &ids), vec![address(0, 0, 0), address(0, 2, 0)]);
    assert_eq!(bus.search_by_vendor(1, &ids), vec![]);
    assert_eq!(bus.search_by_ids(0x1af4, 0x1044, &ids), vec![address(0, 2, 0)]);
    let classes = vec![
        DeviceClass { base_class: 3, sub_class: 0 },
        DeviceClass { base_class: 3, sub_class: 1 },
        DeviceClass { base_class: 3, sub_class: 0 },
    ];
    assert_eq!(bus.search_by_class(3, 0, &classes), vec![address(0, 0, 0), address(0, 2, 0)]);
    assert_eq!(bus.search_by_class(4, 0, &classes), vec![]);
    assert_eq!(bus.config_space().address_port, 0xcf8);
    assert_eq!(bus.config_space().data_port, 0xcfc);
}
