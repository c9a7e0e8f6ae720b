//! The dongles on the bus: how many there are, their names and their USB strings.
//!
//! The functions work on a scan of the bus. Dongles are numbered in the order in
//! which the scan finds them, from zero on; other devices do not count.

use vstd::prelude::*;
use vstd::string::*;

use crate::constants::{find_known_device, known_name};
use crate::error::{Fault, RtlSdrError, UsbError};

verus! {

/// The descriptor strings of a dongle, as far as they could be read.
#[derive(Debug, PartialEq, Eq)]
pub struct UsbStrings {
    pub manufacturer: Option<String>,
    pub product: Option<String>,
    pub serial: Option<String>,
}

/// A device on the bus.
#[derive(Debug, PartialEq, Eq)]
pub struct BusDevice {
    /// Vendor and product number, where the descriptor could be read.
    pub ids: Option<(u16, u16)>,
    /// What came of opening the device for its strings. Only for dongles does it
    /// matter.
    pub opened: Result<UsbStrings, UsbError>,
}

/// A scan of the bus, or why there is none.
#[derive(Debug, PartialEq, Eq)]
pub struct Bus {
    pub devices: Result<Vec<BusDevice>, UsbError>,
}

/// What is known of a dongle without using it.
#[derive(Clone, Debug, PartialEq, Eq, Hash)]
pub struct DeviceInfo {
    /// Number of the dongle.
    pub index: u32,
    /// Name of the model.
    pub name: String,
    /// USB strings; empty where they could not be read.
    pub manufacturer: String,
    pub product: String,
    pub serial: String,
}

/// Three strings of the model: manufacturer, product, serial number.
pub struct Texts {
    pub manufacturer: Seq<char>,
    pub product: Seq<char>,
    pub serial: Seq<char>,
}

/// Three strings as a value of the model.
pub open spec fn texts_of(t: (String, String, String)) -> Texts {
    Texts { manufacturer: t.0@, product: t.1@, serial: t.2@ }
}

/// The result of reading the strings as a value of the model.
pub open spec fn texts_result(r: Result<(String, String, String), RtlSdrError>) -> Result<
    Texts,
    Fault,
> {
    match r {
        Ok(t) => Ok(texts_of(t)),
        Err(e) => Err(e@),
    }
}

/// Whether a device on the bus is a dongle.
pub open spec fn is_dongle(d: BusDevice) -> bool {
    d.ids matches Some(ids) && known_name(ids.0, ids.1) is Some
}

/// The number of dongles among `devices`.
pub open spec fn dongles(devices: Seq<BusDevice>) -> nat
    decreases devices.len(),
{
    if devices.len() == 0 {
        0
    } else if is_dongle(devices.last()) {
        dongles(devices.drop_last()) + 1
    } else {
        dongles(devices.drop_last())
    }
}

/// Whether the device at the position `at` is the dongle number `index`: it is a
/// dongle, and that many come before it.
pub open spec fn is_number(devices: Seq<BusDevice>, at: int, index: int) -> bool {
    &&& 0 <= at < devices.len()
    &&& is_dongle(devices[at])
    &&& dongles(devices.take(at)) == index
}

/// The position of the dongle number `index`.
pub open spec fn position(devices: Seq<BusDevice>, index: int) -> int {
    choose|at: int| is_number(devices, at, index)
}

/// The devices that a scan found; none where it failed.
pub open spec fn found(bus: &Bus) -> Seq<BusDevice> {
    match bus.devices {
        Ok(devices) => devices@,
        Err(_) => seq![],
    }
}

proof fn dongles_grow(devices: Seq<BusDevice>, i: int, j: int)
    requires
        0 <= i <= j <= devices.len(),
    ensures
        dongles(devices.take(i)) <= dongles(devices.take(j)) <= j,
        i < j && is_dongle(devices[i]) ==> dongles(devices.take(i)) < dongles(devices.take(j)),
    decreases j,
{
    if i < j {
        dongles_grow(devices, i, j - 1);
        assert(devices.take(j).drop_last() =~= devices.take(j - 1));
        assert(devices.take(j).last() == devices[j - 1]);
    } else if j > 0 {
        dongles_grow(devices, j - 1, j - 1);
        assert(devices.take(j).drop_last() =~= devices.take(j - 1));
    }
}

/// No two devices have the same number, and a number that a device has is less
/// than the number of dongles.
pub proof fn numbers_are_unique(devices: Seq<BusDevice>, at: int, other: int, index: int)
    requires
        is_number(devices, at, index),
        is_number(devices, other, index),
    ensures
        at == other,
        0 <= index < dongles(devices),
{
    assert(devices.take(devices.len() as int) =~= devices);
    dongles_grow(devices, at, devices.len() as int);
    if at < other {
        dongles_grow(devices, at, other);
    }
    if other < at {
        dongles_grow(devices, other, at);
    }
}

/// Every number below the number of dongles is the number of a device.
pub proof fn numbers_have_no_gap(devices: Seq<BusDevice>, index: int)
    requires
        0 <= index < dongles(devices),
    ensures
        is_number(devices, position(devices, index), index),
    decreases devices.len(),
{
    let shorter = devices.drop_last();
    let n = devices.len() - 1;
    if index < dongles(shorter) {
        numbers_have_no_gap(shorter, index);
        let at = position(shorter, index);
        assert(shorter.take(at) =~= devices.take(at));
        assert(is_number(devices, at, index));
    } else {
        assert(devices.take(n) =~= shorter);
        assert(is_number(devices, n, index));
    }
}

/// The name of the dongle number `index`; empty where there is none.
pub open spec fn name_of(bus: &Bus, index: int) -> Seq<char> {
    if 0 <= index < dongles(found(bus)) {
        let ids = found(bus)[position(found(bus), index)].ids->0;
        known_name(ids.0, ids.1)->0
    } else {
        seq![]
    }
}

/// What was read of a string; nothing where it could not be read.
pub open spec fn text_of(s: Option<String>) -> Seq<char> {
    match s {
        Some(t) => t@,
        None => seq![],
    }
}

/// The strings of the dongle number `index`.
pub open spec fn strings_of(bus: &Bus, index: u32) -> Result<Texts, Fault> {
    match bus.devices {
        Err(e) => Err(Fault::Usb(e)),
        Ok(devices) => if index < dongles(devices@) {
            match devices@[position(devices@, index as int)].opened {
                Err(e) => Err(Fault::Usb(e)),
                Ok(s) => Ok(
                    Texts {
                        manufacturer: text_of(s.manufacturer),
                        product: text_of(s.product),
                        serial: text_of(s.serial),
                    },
                ),
            }
        } else {
            Err(Fault::DeviceNotFound { index })
        },
    }
}

/// The strings of the dongle number `index`; empty where they could not be read.
pub open spec fn strings_or_empty(bus: &Bus, index: u32) -> Texts {
    match strings_of(bus, index) {
        Ok(t) => t,
        Err(_) => Texts { manufacturer: seq![], product: seq![], serial: seq![] },
    }
}

/// Whether the dongle number `index` has the serial number `serial`.
pub open spec fn has_serial(bus: &Bus, index: u32, serial: Seq<char>) -> bool {
    strings_of(bus, index) matches Ok(t) && t.serial == serial
}

fn is_known(d: &BusDevice) -> (r: bool)
    ensures
        r == is_dongle(*d),
{
    match d.ids {
        Some((vid, pid)) => find_known_device(vid, pid).is_some(),
        None => false,
    }
}

/// Returns the number of dongles; zero where the bus could not be scanned.
pub fn get_device_count(bus: &Bus) -> (r: u32)
    requires
        found(bus).len() <= u32::MAX,
    ensures
        r == dongles(found(bus)),
{
    match &bus.devices {
        Ok(devices) => {
            let mut count: u32 = 0;
            let mut i: usize = 0;
            assert(devices@.take(0) =~= seq![]);
            while i < devices.len()
                invariant
                    i <= devices@.len() <= u32::MAX,
                    count == dongles(devices@.take(i as int)),
                decreases devices@.len() - i,
            {
                proof {
                    dongles_grow(devices@, i as int, i as int);
                    assert(devices@.take(i + 1).drop_last() =~= devices@.take(i as int));
                }
                if is_known(&devices[i]) {
                    count += 1;
                }
                i += 1;
            }
            assert(devices@.take(i as int) =~= devices@);
            count
        },
        Err(_) => 0,
    }
}

fn number_position(devices: &Vec<BusDevice>, index: u32) -> (r: Option<usize>)
    requires
        devices@.len() <= u32::MAX,
    ensures
        match r {
            Some(at) => {
                &&& index < dongles(devices@)
                &&& at == position(devices@, index as int)
                &&& is_number(devices@, at as int, index as int)
            },
            None => index >= dongles(devices@),
        },
{
    let mut count: u32 = 0;
    let mut i: usize = 0;
    assert(devices@.take(0) =~= seq![]);
    while i < devices.len()
        invariant
            i <= devices@.len() <= u32::MAX,
            count == dongles(devices@.take(i as int)),
            count <= index,
        decreases devices@.len() - i,
    {
        proof {
            dongles_grow(devices@, i as int, i as int);
            assert(devices@.take(i + 1).drop_last() =~= devices@.take(i as int));
        }
        if is_known(&devices[i]) {
            if count == index {
                proof {
                    assert(is_number(devices@, i as int, index as int));
                    numbers_are_unique(
                        devices@,
                        i as int,
                        position(devices@, index as int),
                        index as int,
                    );
                }
                return Some(i);
            }
            count += 1;
        }
        i += 1;
    }
    assert(devices@.take(i as int) =~= devices@);
    None
}

/// Returns the position on the bus of the dongle number `index`.
pub fn find_device_by_index(bus: &Bus, index: u32) -> (r: Result<usize, RtlSdrError>)
    requires
        found(bus).len() <= u32::MAX,
    ensures
        match r {
            Ok(at) => {
                &&& bus.devices is Ok
                &&& is_number(found(bus), at as int, index as int)
                &&& at == position(found(bus), index as int)
            },
            Err(e) => e@ == (match bus.devices {
                Err(cause) => Fault::Usb(cause),
                Ok(_) => Fault::DeviceNotFound { index },
            }) && index >= dongles(found(bus)),
        },
{
    match &bus.devices {
        Ok(devices) => match number_position(devices, index) {
            Some(at) => Ok(at),
            None => Err(RtlSdrError::DeviceNotFound { index }),
        },
        Err(e) => Err(RtlSdrError::Usb(*e)),
    }
}

/// Returns the name of the dongle number `index`; empty where there is none.
pub fn get_device_name(bus: &Bus, index: u32) -> (r: String)
    requires
        found(bus).len() <= u32::MAX,
    ensures
        r@ == name_of(bus, index as int),
{
    match &bus.devices {
        Ok(devices) => match number_position(devices, index) {
            Some(at) => match devices[at].ids {
                Some((vid, pid)) => match find_known_device(vid, pid) {
                    Some(known) => String::from_str(known.name),
                    None => String::new(),
                },
                None => String::new(),
            },
            None => String::new(),
        },
        Err(_) => String::new(),
    }
}

fn text_or_empty(s: &Option<String>) -> (r: String)
    ensures
        r@ == text_of(*s),
{
    match s {
        Some(t) => t.clone(),
        None => String::new(),
    }
}

/// Returns the USB strings of the dongle number `index`: manufacturer, product,
/// serial number. A string that could not be read is empty.
pub fn get_device_usb_strings(bus: &Bus, index: u32) -> (r: Result<
    (String, String, String),
    RtlSdrError,
>)
    requires
        found(bus).len() <= u32::MAX,
    ensures
        texts_result(r) == strings_of(bus, index),
{
    let at: usize = match find_device_by_index(bus, index) {
        Ok(at) => at,
        Err(e) => {
            return Err(e);
        },
    };
    match &bus.devices {
        Ok(devices) => {
            proof {
                numbers_are_unique(devices@, at as int, at as int, index as int);
            }
            match &devices[at].opened {
                Ok(s) => Ok(
                    (
                        text_or_empty(&s.manufacturer),
                        text_or_empty(&s.product),
                        text_or_empty(&s.serial),
                    ),
                ),
                Err(e) => Err(RtlSdrError::Usb(*e)),
            }
        },
        Err(e) => Err(RtlSdrError::Usb(*e)),
    }
}

/// Returns what is known of each dongle, in the order of their numbers.
pub fn list_devices(bus: &Bus) -> (r: Vec<DeviceInfo>)
    requires
        found(bus).len() <= u32::MAX,
    ensures
        r@.len() == dongles(found(bus)),
        forall|i: int|
            0 <= i < r@.len() ==> {
                let info = #[trigger] r@[i];
                &&& info.index == i
                &&& info.name@ == name_of(bus, i)
                &&& texts_of((info.manufacturer, info.product, info.serial)) == strings_or_empty(
                    bus,
                    i as u32,
                )
            },
{
    let count: u32 = get_device_count(bus);
    let mut list: Vec<DeviceInfo> = Vec::new();
    let mut index: u32 = 0;
    while index < count
        invariant
            found(bus).len() <= u32::MAX,
            index <= count,
            list@.len() == index,
            forall|i: int|
                0 <= i < list@.len() ==> {
                    let info = #[trigger] list@[i];
                    &&& info.index == i
                    &&& info.name@ == name_of(bus, i)
                    &&& texts_of((info.manufacturer, info.product, info.serial))
                        == strings_or_empty(bus, i as u32)
                },
        decreases count - index,
    {
        let name: String = get_device_name(bus, index);
        let (manufacturer, product, serial): (String, String, String) =
            match get_device_usb_strings(bus, index) {
            Ok(t) => t,
            Err(_) => (String::new(), String::new(), String::new()),
        };
        list.push(DeviceInfo { index, name, manufacturer, product, serial });
        index += 1;
    }
    list
}

/// What is said of a serial number that no dongle has.
pub open spec fn no_serial_message(serial: Seq<char>) -> Seq<char> {
    "no device with serial '"@ + serial + "'"@
}

/// Whether the strings that were read hold the serial number `serial`.
pub open spec fn serial_matches(
    r: Result<(String, String, String), RtlSdrError>,
    serial: Seq<char>,
) -> bool {
    r matches Ok(t) && t.2@ == serial
}

/// Whether `lookup` may have answered for `index` that the serial number is, or is
/// not, `serial`.
pub open spec fn answered<F: Fn(u32) -> Result<(String, String, String), RtlSdrError>>(
    lookup: F,
    index: u32,
    serial: Seq<char>,
    matching: bool,
) -> bool {
    exists|r: Result<(String, String, String), RtlSdrError>| #[trigger]
        call_ensures(lookup, (index,), r) && serial_matches(r, serial) == matching
}

/// Returns the first number below `count` for which `lookup` gives the serial
/// number `serial`. A number for which it fails is passed over.
pub fn lookup_serial<F: Fn(u32) -> Result<(String, String, String), RtlSdrError>>(
    serial: &str,
    count: u32,
    lookup: F,
) -> (r: Result<u32, RtlSdrError>)
    requires
        forall|i: u32| i < count ==> #[trigger] call_requires(lookup, (i,)),
    ensures
        match r {
            Ok(i) => {
                &&& i < count
                &&& answered(lookup, i, serial@, true)
                &&& forall|j: u32| j < i ==> #[trigger] answered(lookup, j, serial@, false)
            },
            Err(e) => {
                &&& e@ == Fault::InvalidParameter(no_serial_message(serial@))
                &&& forall|j: u32| j < count ==> #[trigger] answered(lookup, j, serial@, false)
            },
        },
{
    let wanted: String = String::from_str(serial);
    let mut i: u32 = 0;
    while i < count
        invariant
            i <= count,
            wanted@ == serial@,
            forall|k: u32| k < count ==> #[trigger] call_requires(lookup, (k,)),
            forall|j: u32| j < i ==> #[trigger] answered(lookup, j, serial@, false),
        decreases count - i,
    {
        let answer: Result<(String, String, String), RtlSdrError> = lookup(i);
        match &answer {
            Ok((_, _, dev_serial)) => {
                if *dev_serial == wanted {
                    assert(answered(lookup, i, serial@, true));
                    return Ok(i);
                }
            },
            Err(_) => {},
        }
        assert(answered(lookup, i, serial@, false));
        i += 1;
    }
    let mut msg: String = String::from_str("no device with serial '");
    msg.append(serial);
    msg.append("'");
    Err(RtlSdrError::InvalidParameter(msg))
}

/// Returns the number of the first dongle with the serial number `serial`.
pub fn get_index_by_serial(bus: &Bus, serial: &str) -> (r: Result<u32, RtlSdrError>)
    requires
        found(bus).len() <= u32::MAX,
    ensures
        match r {
            Ok(i) => {
                &&& i < dongles(found(bus))
                &&& has_serial(bus, i, serial@)
                &&& forall|j: u32| j < i ==> !#[trigger] has_serial(bus, j, serial@)
            },
            Err(e) => {
                &&& e@ == Fault::InvalidParameter(no_serial_message(serial@))
                &&& forall|j: u32|
                    j < dongles(found(bus)) ==> !#[trigger] has_serial(bus, j, serial@)
            },
        },
{
    let count: u32 = get_device_count(bus);
    let lookup = |index: u32| -> (t: Result<(String, String, String), RtlSdrError>)
        requires
            found(bus).len() <= u32::MAX,
        ensures
            texts_result(t) == strings_of(bus, index),
        { get_device_usb_strings(bus, index) };
    let r: Result<u32, RtlSdrError> = lookup_serial(serial, count, lookup);
    proof {
        assert forall|j: u32, matching: bool| #[trigger]
            answered(lookup, j, serial@, matching) implies has_serial(bus, j, serial@)
            == matching by {
            let t = choose|t: Result<(String, String, String), RtlSdrError>| #[trigger]
                call_ensures(lookup, (j,), t) && serial_matches(t, serial@) == matching;
            assert(texts_result(t) == strings_of(bus, j));
        }
        match r {
            Ok(i) => {
                assert forall|j: u32| j < i implies !#[trigger] has_serial(bus, j, serial@) by {
                    assert(answered(lookup, j, serial@, false));
                }
            },
            Err(_) => {
                assert forall|j: u32| j < dongles(found(bus)) implies !#[trigger] has_serial(
                    bus,
                    j,
                    serial@,
                ) by {
                    assert(answered(lookup, j, serial@, false));
                }
            },
        }
    }
    r
}

/// A serial number that the list shows for a dongle, and that could be read, leads
/// to a dongle: to this one or to one before it.
pub proof fn listed_serials_are_found(bus: &Bus, index: u32)
    requires
        strings_of(bus, index) is Ok,
    ensures
        index < dongles(found(bus)),
        has_serial(bus, index, strings_or_empty(bus, index).serial),
{
}

/// The name of a dongle is the one that belongs to the numbers of the device on the bus; and
/// a number that no dongle has leads to no name.
pub proof fn names_are_those_of_the_devices(bus: &Bus, at: int, index: int)
    ensures
        is_number(found(bus), at, index) ==> (found(bus)[at].ids matches Some(ids) && known_name(
            ids.0,
            ids.1,
        ) == Some(name_of(bus, index))),
        index >= dongles(found(bus)) ==> name_of(bus, index).len() == 0,
{
    if is_number(found(bus), at, index) {
        numbers_are_unique(found(bus), at, at, index);
        numbers_have_no_gap(found(bus), index);
        numbers_are_unique(found(bus), at, position(found(bus), index), index);
    }
}

/// The strings of a dongle are those that were read of the device on the bus, and what could
/// not be read is empty; a device that could not be opened says why, and a number that no
/// dongle has is named.
pub proof fn strings_are_those_of_the_device(bus: &Bus, at: int, index: u32)
    ensures
        is_number(found(bus), at, index as int) ==> match found(bus)[at].opened {
            Ok(s) => strings_of(bus, index) matches Ok(t) && (s.manufacturer matches Some(m)
                ==> t.manufacturer == m@) && (s.product matches Some(q) ==> t.product == q@) && (
            s.serial matches Some(n) ==> t.serial == n@) && (s.manufacturer is None
                ==> t.manufacturer.len() == 0) && (s.product is None ==> t.product.len() == 0) && (
            s.serial is None ==> t.serial.len() == 0),
            Err(e) => strings_of(bus, index) == Err::<Texts, Fault>(Fault::Usb(e)),
        },
        bus.devices is Ok && index >= dongles(found(bus)) ==> strings_of(bus, index) == Err::<
            Texts,
            Fault,
        >(Fault::DeviceNotFound { index }),
        bus.devices matches Err(e) ==> strings_of(bus, index) == Err::<Texts, Fault>(Fault::Usb(e)),
{
    if is_number(found(bus), at, index as int) {
        numbers_are_unique(found(bus), at, at, index as int);
        numbers_have_no_gap(found(bus), index as int);
        numbers_are_unique(found(bus), at, position(found(bus), index as int), index as int);
    }
}

} // verus!
