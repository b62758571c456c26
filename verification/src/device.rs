//! Choosing the capture device.
//!
//! A device is known to the chooser by its name and its IPv4 addresses. A
//! preferred interface name wins where present; otherwise the first device
//! that carries the configured address is taken.

use vstd::prelude::*;

use crate::packet::Ipv4;
use crate::text::str_eq;

verus! {

/// What the chooser reads of one capture device.
pub struct DeviceInfo {
    pub name: String,
    pub addrs: Vec<Ipv4>,
}

/// The view of one device.
pub struct DeviceInfoV {
    pub name: Seq<char>,
    pub addrs: Seq<Ipv4>,
}

impl View for DeviceInfo {
    type V = DeviceInfoV;

    open spec fn view(&self) -> DeviceInfoV {
        DeviceInfoV { name: self.name@, addrs: self.addrs@ }
    }
}

/// The views of a device list.
pub open spec fn device_views(ds: Seq<DeviceInfo>) -> Seq<DeviceInfoV> {
    Seq::new(ds.len(), |i: int| ds[i]@)
}

/// The name of the first device that carries the address.
pub open spec fn device_by_ip(devs: Seq<DeviceInfoV>, ip: Ipv4) -> Option<Seq<char>>
    decreases devs.len(),
{
    if devs.len() == 0 {
        None
    } else if devs[0].addrs.contains(ip) {
        Some(devs[0].name)
    } else {
        device_by_ip(devs.drop_first(), ip)
    }
}

proof fn lemma_device_by_ip_skip(devs: Seq<DeviceInfoV>, ip: Ipv4, i: int)
    requires
        0 <= i <= devs.len(),
        forall|j: int| 0 <= j < i ==> !(#[trigger] devs[j]).addrs.contains(ip),
    ensures
        device_by_ip(devs, ip) == device_by_ip(devs.skip(i), ip),
    decreases i,
{
    if i == 0 {
        assert(devs.skip(0) =~= devs);
    } else {
        assert(!devs[0].addrs.contains(ip));
        assert(forall|j: int|
            0 <= j < i - 1 ==> !(#[trigger] devs.drop_first()[j]).addrs.contains(ip));
        lemma_device_by_ip_skip(devs.drop_first(), ip, i - 1);
        assert(devs.drop_first().skip(i - 1) =~= devs.skip(i));
    }
}

/// Whether a device carries the address.
fn has_addr(d: &DeviceInfo, ip: Ipv4) -> (r: bool)
    ensures
        r == d@.addrs.contains(ip),
{
    let n = d.addrs.len();
    let mut i: usize = 0;
    while i < n
        invariant
            n == d.addrs@.len(),
            i <= n,
            forall|j: int| 0 <= j < i ==> d.addrs@[j] != ip,
        decreases n - i,
    {
        if d.addrs[i] == ip {
            return true;
        }
        i += 1;
    }
    false
}

/// Picks the first device that carries the address, exactly as
/// `device_by_ip` states.
pub fn select_pcap_device_name_by_ipv4<'a>(devices: &'a [DeviceInfo], ip: Ipv4) -> (r: Option<
    &'a str,
>)
    ensures
        r matches Some(n) ==> device_by_ip(device_views(devices@), ip) == Some(n@),
        r is None ==> device_by_ip(device_views(devices@), ip) is None,
{
    let ghost dv = device_views(devices@);
    let n = devices.len();
    let mut i: usize = 0;
    while i < n
        invariant
            n == devices@.len(),
            i <= n,
            dv == device_views(devices@),
            forall|j: int| 0 <= j < i ==> !(#[trigger] dv[j]).addrs.contains(ip),
        decreases n - i,
    {
        if has_addr(&devices[i], ip) {
            proof {
                lemma_device_by_ip_skip(dv, ip, i as int);
                assert(dv.skip(i as int)[0] == dv[i as int]);
            }
            return Some(devices[i].name.as_str());
        }
        i += 1;
    }
    proof {
        lemma_device_by_ip_skip(dv, ip, n as int);
        assert(dv.skip(n as int) =~= Seq::empty());
    }
    None
}

/// The chooser's result: the preferred name where some device bears it, else
/// the first device that carries the fallback address.
pub open spec fn chosen_device(devs: Seq<DeviceInfoV>, preferred: Seq<char>, ip: Ipv4) -> Option<
    Seq<char>,
> {
    if exists|i: int| 0 <= i < devs.len() && (#[trigger] devs[i]).name == preferred {
        Some(preferred)
    } else {
        device_by_ip(devs, ip)
    }
}

/// Picks the capture device, exactly as `chosen_device` states.
pub fn choose_pcap_device_name<'a>(
    devices: &'a [DeviceInfo],
    preferred_name: &'a str,
    ip_fallback: Ipv4,
) -> (r: Option<&'a str>)
    ensures
        r matches Some(n) ==> chosen_device(device_views(devices@), preferred_name@, ip_fallback)
            == Some(n@),
        r is None ==> chosen_device(device_views(devices@), preferred_name@, ip_fallback) is None,
{
    let ghost dv = device_views(devices@);
    let n = devices.len();
    let mut i: usize = 0;
    while i < n
        invariant
            n == devices@.len(),
            i <= n,
            dv == device_views(devices@),
            forall|j: int| 0 <= j < i ==> (#[trigger] dv[j]).name != preferred_name@,
        decreases n - i,
    {
        if str_eq(devices[i].name.as_str(), preferred_name) {
            proof {
                assert(dv[i as int].name == preferred_name@);
            }
            return Some(preferred_name);
        }
        i += 1;
    }
    select_pcap_device_name_by_ipv4(devices, ip_fallback)
}

} // verus!
