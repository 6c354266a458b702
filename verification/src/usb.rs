//! The USB kill switch: which device events concern a registered auth stick.
//!
//! The udev event loop runs at the edge; it hands each added or removed USB
//! device to `UsbMonitor::classify`.

use vstd::prelude::*;
use crate::names::NameMap;
use crate::text::{chars_of, parse_unsigned, parse_unsigned_range, trim, trim_range};

verus! {

/// Why the USB monitor stopped.
#[derive(Debug)]
pub enum UsbError {
    Udev(String),
    Io(std::io::Error),
}

/// A USB device as a udev event describes it.
#[derive(Debug, Clone)]
pub struct UsbDevice {
    pub vendor_id: u16,
    pub product_id: u16,
    /// The serial number: what identifies an auth stick.
    pub serial: Option<String>,
    pub mount_point: Option<String>,
}

/// What a device event means to the daemon.
#[derive(Debug)]
pub enum UsbEvent {
    /// A registered auth stick was plugged in.
    AuthStickConnected(UsbDevice),
    /// A registered auth stick was pulled: the kill switch fires.
    AuthStickRemoved(UsbDevice),
    /// Any other device.
    Unknown(UsbDevice),
}

/// Whether `device` carries the serial of a stick that `known` registers.
pub open spec fn is_known_stick(known: Map<Seq<char>, u32>, device: UsbDevice) -> bool {
    match device.serial {
        Some(s) => known.contains_key(s@),
        None => false,
    }
}

/// The registered auth sticks: serial number to LUKS key slot.
pub struct UsbMonitor {
    known_sticks: NameMap<u32>,
}

impl UsbMonitor {
    /// The key slot of each registered serial.
    pub closed spec fn sticks(&self) -> Map<Seq<char>, u32> {
        self.known_sticks.map()
    }

    /// A monitor without registered sticks.
    pub fn new() -> (m: Self)
        ensures
            m.sticks() == Map::<Seq<char>, u32>::empty(),
    {
        UsbMonitor { known_sticks: NameMap::new() }
    }

    /// Registers the stick `serial` with its LUKS key slot.
    pub fn register_stick(&mut self, serial: String, slot: u32)
        ensures
            final(self).sticks() == old(self).sticks().insert(serial@, slot),
    {
        self.known_sticks.insert(serial, slot);
    }

    /// The key slot of the stick `serial`, if it is registered.
    pub fn slot_for(&self, serial: &str) -> (r: Option<u32>)
        ensures
            match r {
                Some(s) => self.sticks().contains_key(serial@) && s == self.sticks()[serial@],
                None => !self.sticks().contains_key(serial@),
            },
    {
        match self.known_sticks.get(serial) {
            Some(s) => Some(*s),
            None => None,
        }
    }

    /// What the event "`device` was added" (`added`) or "removed" means: a
    /// registered stick was connected or removed; any other device, or a
    /// device without a serial, is unknown.
    pub fn classify(&self, device: UsbDevice, added: bool) -> (r: UsbEvent)
        ensures
            is_known_stick(self.sticks(), device) && added ==> r == UsbEvent::AuthStickConnected(
                device,
            ),
            is_known_stick(self.sticks(), device) && !added ==> r == UsbEvent::AuthStickRemoved(
                device,
            ),
            !is_known_stick(self.sticks(), device) ==> r == UsbEvent::Unknown(device),
    {
        let known = match &device.serial {
            Some(s) => self.known_sticks.contains_key(s.as_str()),
            None => false,
        };
        if known && added {
            UsbEvent::AuthStickConnected(device)
        } else if known {
            UsbEvent::AuthStickRemoved(device)
        } else {
            UsbEvent::Unknown(device)
        }
    }
}

impl Default for UsbMonitor {
    fn default() -> (m: Self)
        ensures
            m.sticks() == Map::<Seq<char>, u32>::empty(),
    {
        Self::new()
    }
}

/// The value of a udev hex attribute such as `idVendor`: the trimmed text
/// read as a hexadecimal `u16`, and 0 when it is missing or is no such
/// number.
pub open spec fn hex_attr_value(attr: Option<Seq<char>>) -> u16 {
    match attr {
        Some(s) => match parse_unsigned(trim(s), 16, 0xffff) {
            Some(n) => n as u16,
            None => 0,
        },
        None => 0,
    }
}

/// Reads a udev hex attribute such as `idVendor`; 0 when it is missing or
/// unreadable.
pub fn parse_hex_attr(attr: Option<&str>) -> (r: u16)
    ensures
        r == hex_attr_value(
            match attr {
                Some(s) => Some(s@),
                None => None,
            },
        ),
{
    match attr {
        None => 0,
        Some(s) => {
            let v = chars_of(s);
            let (a, b) = trim_range(&v, 0, v.len());
            assert(v@.subrange(0, v.len() as int) =~= v@);
            match parse_unsigned_range(&v, a, b, 16, 0xffff) {
                Some(n) => n as u16,
                None => 0,
            }
        },
    }
}

} // verus!
