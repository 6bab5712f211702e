//! Access to the PCI configuration space through a pair of ports.

use vstd::prelude::*;

verus! {

/// The port that selects a register.
pub const ADDRESS_PORT: u16 = 0xcf8;

/// The port of the selected register.
pub const DATA_PORT: u16 = 0xcfc;

/// The address of a PCI function.
#[derive(Clone, Copy, Debug, PartialEq, Eq, Structural)]
pub struct PciAddress {
    pub segment: u16,
    pub bus: u8,
    pub device: u8,
    pub function: u8,
}

impl PciAddress {
    /// A bus has 32 devices, and a device has 8 functions.
    pub open spec fn wf(self) -> bool {
        self.device < 32 && self.function < 8
    }

    /// An address from its parts.
    pub fn new(segment: u16, bus: u8, device: u8, function: u8) -> (address: PciAddress)
        requires
            device < 32,
            function < 8,
        ensures
            address == (PciAddress { segment, bus, device, function }),
            address.wf(),
    {
        PciAddress { segment, bus, device, function }
    }
}

/// A device and its function, as a VirtIO transport names them.
#[derive(Clone, Copy, Debug, PartialEq, Eq, Structural)]
pub struct DeviceFunction {
    pub bus: u8,
    pub device: u8,
    pub function: u8,
}

/// An access to a configuration register: `selector` goes to the address port, and then the
/// data port is read, or `value` is written to it.
#[derive(Clone, Copy, Debug, PartialEq, Eq, Structural)]
pub struct PortAccess {
    pub address_port: u16,
    pub selector: u32,
    pub data_port: u16,
    pub value: Option<u32>,
}

/// What selects a register. The registers have four bytes, and 256 bytes of them can be
/// reached; the segment plays no part.
pub open spec fn selector(address: PciAddress, offset: u16) -> int {
    0x8000_0000 + address.bus * 0x1_0000 + address.device * 0x800 + address.function * 0x100
        + offset as int % 256 / 4 * 4
}

/// The PCI configuration space behind a pair of ports.
#[derive(Clone, Copy, Debug, PartialEq, Eq, Structural)]
pub struct ConfigurationSpace {
    /// The port that selects a register.
    pub address_port: u16,
    /// The port of the selected register.
    pub data_port: u16,
}

impl ConfigurationSpace {
    /// The configuration space behind [`ADDRESS_PORT`] and [`DATA_PORT`].
    pub fn new() -> (space: ConfigurationSpace)
        ensures
            space.address_port == ADDRESS_PORT,
            space.data_port == DATA_PORT,
    {
        ConfigurationSpace { address_port: ADDRESS_PORT, data_port: DATA_PORT }
    }

    /// The selector of a register.
    fn prepare_access(address: PciAddress, offset: u16) -> (raw: u32)
        requires
            address.wf(),
        ensures
            raw == selector(address, offset),
    {
        let bus: u32 = address.bus as u32;
        let device: u32 = address.device as u32;
        let function: u32 = address.function as u32;
        let register: u32 = (offset & 0xfc) as u32;
        let raw: u32 = 0x8000_0000u32 | bus << 16 | device << 11 | function << 8 | register;
        proof {
            assert(offset & 0xfc == offset % 256 / 4 * 4 && offset & 0xfc < 256) by (bit_vector);
            assert(0x8000_0000u32 | bus << 16 | device << 11 | function << 8 | register
                == 0x8000_0000 + bus * 0x1_0000 + device * 0x800 + function * 0x100 + register)
                by (bit_vector)
                requires
                    bus < 256,
                    device < 32,
                    function < 8,
                    register < 256,
            ;
        }
        raw
    }

    /// The access that reads a register.
    pub fn read(&self, address: PciAddress, offset: u16) -> (access: PortAccess)
        requires
            address.wf(),
        ensures
            access == (PortAccess {
                address_port: self.address_port,
                selector: selector(address, offset) as u32,
                data_port: self.data_port,
                value: None,
            }),
    {
        PortAccess {
            address_port: self.address_port,
            selector: Self::prepare_access(address, offset),
            data_port: self.data_port,
            value: None,
        }
    }

    /// The access that writes a register.
    pub fn write(&self, address: PciAddress, offset: u16, value: u32) -> (access: PortAccess)
        requires
            address.wf(),
        ensures
            access == (PortAccess {
                address_port: self.address_port,
                selector: selector(address, offset) as u32,
                data_port: self.data_port,
                value: Some(value),
            }),
    {
        PortAccess {
            address_port: self.address_port,
            selector: Self::prepare_access(address, offset),
            data_port: self.data_port,
            value: Some(value),
        }
    }

    /// The access that reads a register for a VirtIO transport.
    pub fn read_word(&self, device_function: DeviceFunction, register_offset: u8) -> (access:
        PortAccess)
        requires
            device_function.device < 32,
            device_function.function < 8,
        ensures
            access == (PortAccess {
                address_port: self.address_port,
                selector: selector(transport_address(device_function), register_offset as u16)
                    as u32,
                data_port: self.data_port,
                value: None,
            }),
    {
        let address = PciAddress::new(
            0,
            device_function.bus,
            device_function.device,
            device_function.function,
        );
        self.read(address, register_offset as u16)
    }

    /// The access that writes a register for a VirtIO transport.
    pub fn write_word(
        &self,
        device_function: DeviceFunction,
        register_offset: u8,
        data: u32,
    ) -> (access: PortAccess)
        requires
            device_function.device < 32,
            device_function.function < 8,
        ensures
            access == (PortAccess {
                address_port: self.address_port,
                selector: selector(transport_address(device_function), register_offset as u16)
                    as u32,
                data_port: self.data_port,
                value: Some(data),
            }),
    {
        let address = PciAddress::new(
            0,
            device_function.bus,
            device_function.device,
            device_function.function,
        );
        self.write(address, register_offset as u16, data)
    }
}

/// The address of what a VirtIO transport names, in segment 0.
pub open spec fn transport_address(device_function: DeviceFunction) -> PciAddress {
    PciAddress {
        segment: 0,
        bus: device_function.bus,
        device: device_function.device,
        function: device_function.function,
    }
}

/// Different registers have different selectors: the bus, the device, the function and the
/// register can be read back from one.
pub proof fn selectors_differ(a: PciAddress, x: u16, b: PciAddress, y: u16)
    requires
        a.wf(),
        b.wf(),
        selector(a, x) == selector(b, y),
    ensures
        a.bus == b.bus,
        a.device == b.device,
        a.function == b.function,
        x as int % 256 / 4 == y as int % 256 / 4,
{
}

/// A selector fits in the address port, and its highest bit enables the access.
pub proof fn selector_fits(address: PciAddress, offset: u16)
    requires
        address.wf(),
    ensures
        0x8000_0000 <= selector(address, offset) <= 0x80ff_fffc,
        selector(address, offset) % 4 == 0,
{
}

/// A selector tells the function and the register: from its lowest digits up, the register's
/// offset in whole words, the function, the device and the bus; its highest bit is set, and the
/// segment does not matter.
pub proof fn selector_tells_its_parts(address: PciAddress, offset: u16, segment: u16)
    requires
        address.wf(),
    ensures
        selector(address, offset) % 4 == 0,
        selector(address, offset) % 0x100 <= offset as int % 0x100 < selector(address, offset)
            % 0x100 + 4,
        selector(address, offset) / 0x100 % 8 == address.function,
        selector(address, offset) / 0x800 % 32 == address.device,
        selector(address, offset) / 0x1_0000 % 0x100 == address.bus,
        selector(address, offset) / 0x100_0000 == 0x80,
        selector((PciAddress { segment, ..address }), offset) == selector(address, offset),
{
}

/// An access reaches a register of a function: its selector has the function's numbers in their
/// places, and the offset of the register.
pub open spec fn reaches(
    access: PortAccess,
    bus: u8,
    device: u8,
    function: u8,
    offset: int,
) -> bool {
    let raw = access.selector as int;
    &&& raw / 0x100_0000 == 0x80
    &&& raw / 0x1_0000 % 0x100 == bus
    &&& raw / 0x800 % 32 == device
    &&& raw / 0x100 % 8 == function
    &&& raw % 4 == 0
    &&& raw % 0x100 <= offset % 0x100 < raw % 0x100 + 4
}

/// What is read or written is the register of the function at the address.
pub proof fn access_reaches_its_function(
    space: ConfigurationSpace,
    address: PciAddress,
    offset: u16,
    value: u32,
    reading: PortAccess,
    writing: PortAccess,
)
    requires
        address.wf(),
        call_ensures(ConfigurationSpace::read, (&space, address, offset), reading),
        call_ensures(ConfigurationSpace::write, (&space, address, offset, value), writing),
    ensures
        reaches(reading, address.bus, address.device, address.function, offset as int),
        reaches(writing, address.bus, address.device, address.function, offset as int),
        reading.value is None,
        writing.value == Some(value),
        reading.address_port == space.address_port && reading.data_port == space.data_port,
        writing.address_port == space.address_port && writing.data_port == space.data_port,
{
    selector_tells_its_parts(address, offset, 0);
    selector_fits(address, offset);
    assert(reading.selector as int == selector(address, offset));
    assert(writing.selector as int == selector(address, offset));
}

/// What a VirtIO transport reads or writes is the register of the function that it names.
pub proof fn transport_reaches_its_function(
    space: ConfigurationSpace,
    named: DeviceFunction,
    offset: u8,
    data: u32,
    reading: PortAccess,
    writing: PortAccess,
)
    requires
        named.device < 32,
        named.function < 8,
        call_ensures(ConfigurationSpace::read_word, (&space, named, offset), reading),
        call_ensures(ConfigurationSpace::write_word, (&space, named, offset, data), writing),
    ensures
        reaches(reading, named.bus, named.device, named.function, offset as int),
        reaches(writing, named.bus, named.device, named.function, offset as int),
        reading.value is None,
        writing.value == Some(data),
        reading.address_port == space.address_port && reading.data_port == space.data_port,
        writing.address_port == space.address_port && writing.data_port == space.data_port,
{
    let address = transport_address(named);
    selector_tells_its_parts(address, offset as u16, 0);
    selector_fits(address, offset as u16);
    assert(reading.selector as int == selector(address, offset as u16));
    assert(writing.selector as int == selector(address, offset as u16));
}

/// The ports of the configuration space.
pub proof fn ports_of_the_configuration_space(space: ConfigurationSpace)
    requires
        call_ensures(ConfigurationSpace::new, (), space),
    ensures
        space.address_port == 0xcf8,
        space.data_port == 0xcfc,
{
}

} // verus!
