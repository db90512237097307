//! What the mainboard reports about its host: network interfaces, process and system.
pub mod wifi;

use crate::mainboardstate::error::MainboardError;
use crate::text::str_eq;
use vstd::prelude::*;

verus! {

/// A network interface and its addresses, as text.
pub struct NetworkIterface {
    pub name: String,
    pub ip: String,
    pub mac: String,
    pub mask: String,
    pub broadcast: String,
    pub destination: String,
}

/// The network interfaces of the host.
pub struct NetworkInfo {
    pub interfaces: Vec<NetworkIterface>,
}

/// The interface that carries the board's address.
pub open spec fn wlan_name() -> Seq<char> {
    "wlan0"@
}

/// The address of the board: that of its `wlan0` interface, the first one listed.
pub fn get_ip_addr(net_info: &NetworkInfo) -> (r: Result<String, MainboardError>)
    ensures
        match r {
            Ok(ip) => exists|i: int| 0 <= i < net_info.interfaces@.len()
                && (#[trigger] net_info.interfaces@[i]).name@ == wlan_name()
                && ip@ == net_info.interfaces@[i].ip@
                && forall|j: int| 0 <= j < i ==> (#[trigger] net_info.interfaces@[j]).name@ != wlan_name(),
            Err(e) => e.message@ == "failed to get wlan0"@
                && forall|i: int| 0 <= i < net_info.interfaces@.len() ==> (#[trigger] net_info.interfaces@[i]).name@ != wlan_name(),
        },
{
    let mut i: usize = 0;
    while i < net_info.interfaces.len()
        invariant
            i <= net_info.interfaces@.len(),
            forall|j: int| 0 <= j < i ==> (#[trigger] net_info.interfaces@[j]).name@ != wlan_name(),
        decreases net_info.interfaces@.len() - i,
    {
        if str_eq(net_info.interfaces[i].name.as_str(), "wlan0") {
            return Ok(net_info.interfaces[i].ip.clone());
        }
        i = i + 1;
    }
    proof {
        reveal_strlit("failed to get wlan0");
    }
    Err(MainboardError::from_error(String::from_str("failed to get wlan0")))
}

/// The process the mainboard runs as: its id and its `stat` line.
pub struct ProcessInfo {
    pub pid: u32,
    pub stat: String,
}

/// What `uname` says of the host.
pub struct UnameInfo {
    pub sysname: String,
    pub nodename: String,
    pub release: String,
    pub version: String,
    pub machine: String,
}

/// The host as the cloud sees it.
#[allow(non_snake_case)]
pub struct HostInformation {
    pub architecture: String,
    pub deviceType: String,
    pub os: String,
    pub kernelVersion: String,
    pub kernel: String,
}

/// The host information from what `uname` gave, or its failure as an error with its text.
pub fn get_host_information(uname: Result<UnameInfo, String>) -> (r: Result<HostInformation, MainboardError>)
    ensures
        match uname {
            Ok(un) => r matches Ok(h) && h.architecture == un.machine && h.deviceType == un.nodename
                && h.os == un.sysname && h.kernelVersion == un.version && h.kernel == un.release,
            Err(text) => r matches Err(e) && e.message@ == text@,
        },
{
    match uname {
        Ok(un) => Ok(HostInformation {
            architecture: un.machine,
            deviceType: un.nodename,
            os: un.sysname,
            kernelVersion: un.version,
            kernel: un.release,
        }),
        Err(text) => Err(MainboardError::from_error(text)),
    }
}

} // verus!

verus! {

/// The text with every ":0" taken out, scanning left to right.
pub open spec fn strip_zero_port(s: Seq<char>) -> Seq<char>
    decreases s.len(),
{
    if s.len() == 0 {
        s
    } else if s.len() >= 2 && s[0] == ':' && s[1] == '0' {
        strip_zero_port(s.subrange(2, s.len() as int))
    } else {
        seq![s[0]] + strip_zero_port(s.subrange(1, s.len() as int))
    }
}

/// Takes every ":0" out of an address written by the system.
pub fn strip_zero_ports(s: &str) -> (r: String)
    ensures
        r@ == strip_zero_port(s@),
{
    let n = s.unicode_len();
    let mut out = String::new();
    let mut i: usize = 0;
    proof {
        assert(s@.subrange(0, n as int) =~= s@);
    }
    while i < n
        invariant
            n == s@.len(),
            i <= n,
            out@ + strip_zero_port(s@.subrange(i as int, n as int)) == strip_zero_port(s@),
        decreases n - i,
    {
        let ghost rest = s@.subrange(i as int, n as int);
        let c = s.get_char(i);
        if c == ':' && i + 1 < n && s.get_char(i + 1) == '0' {
            proof {
                assert(rest[0] == ':' && rest[1] == '0');
                assert(rest.subrange(2, rest.len() as int) =~= s@.subrange(i + 2, n as int));
            }
            i = i + 2;
        } else {
            proof {
                assert(rest[0] == c);
                assert(rest.subrange(1, rest.len() as int) =~= s@.subrange(i + 1, n as int));
                assert(out@.push(c) + strip_zero_port(s@.subrange(i + 1, n as int)) =~= out@ + strip_zero_port(rest));
            }
            let piece = s.substring_char(i, i + 1);
            proof {
                assert(piece@ =~= seq![c]);
            }
            out.append(piece);
            i = i + 1;
        }
    }
    proof {
        assert(s@.subrange(n as int, n as int) =~= Seq::<char>::empty());
        assert(out@ + Seq::<char>::empty() =~= out@);
    }
    out
}

} // verus!

verus! {

/// The family of an interface address.
#[derive(Clone, Copy, Debug, PartialEq, Eq, Structural)]
pub enum AddressFamilyKind {
    Inet,
    Packet,
    Other,
}

/// One address of an interface as the system lists it, written as text: the interface,
/// its address with the address's family, and the netmask, broadcast and destination
/// that come with it.
pub struct InterfaceAddress {
    pub interface_name: String,
    pub address: Option<(AddressFamilyKind, String)>,
    pub netmask: Option<String>,
    pub broadcast: Option<String>,
    pub destination: Option<String>,
}

pub struct NetworkIterfaceView {
    pub name: Seq<char>,
    pub ip: Seq<char>,
    pub mac: Seq<char>,
    pub mask: Seq<char>,
    pub broadcast: Seq<char>,
    pub destination: Seq<char>,
}

impl View for NetworkIterface {
    type V = NetworkIterfaceView;

    open spec fn view(&self) -> NetworkIterfaceView {
        NetworkIterfaceView {
            name: self.name@,
            ip: self.ip@,
            mac: self.mac@,
            mask: self.mask@,
            broadcast: self.broadcast@,
            destination: self.destination@,
        }
    }
}

pub open spec fn opt_text(o: Option<String>, otherwise: Seq<char>) -> Seq<char> {
    match o {
        Some(s) => s@,
        None => otherwise,
    }
}

/// An interface once an address of it is read: an IPv4 address gives the ip (without
/// ":0"), and the mask, broadcast (without ":0") and destination that come with it; a
/// link-layer address gives the mac; anything else changes nothing.
pub open spec fn apply_address(i: NetworkIterfaceView, a: InterfaceAddress) -> NetworkIterfaceView {
    match a.address {
        Some((AddressFamilyKind::Inet, addr)) => NetworkIterfaceView {
            ip: strip_zero_port(addr@),
            mask: opt_text(a.netmask, i.mask),
            broadcast: match a.broadcast {
                Some(b) => strip_zero_port(b@),
                None => i.broadcast,
            },
            destination: opt_text(a.destination, i.destination),
            ..i
        },
        Some((AddressFamilyKind::Packet, addr)) => NetworkIterfaceView { mac: addr@, ..i },
        _ => i,
    }
}

/// An interface known only by its name.
pub open spec fn blank_interface(name: Seq<char>) -> NetworkIterfaceView {
    NetworkIterfaceView {
        name,
        ip: Seq::empty(),
        mac: Seq::empty(),
        mask: Seq::empty(),
        broadcast: Seq::empty(),
        destination: Seq::empty(),
    }
}

/// The index of the interface named `name` from index `k` on.
pub open spec fn interface_from(s: Seq<NetworkIterfaceView>, name: Seq<char>, k: int) -> Option<int>
    decreases s.len() - k,
{
    if k < 0 || k >= s.len() {
        None
    } else if s[k].name == name {
        Some(k)
    } else {
        interface_from(s, name, k + 1)
    }
}

/// The interfaces that the addresses describe, in the order their names first appear.
pub open spec fn merge_addresses(addrs: Seq<InterfaceAddress>) -> Seq<NetworkIterfaceView>
    decreases addrs.len(),
{
    if addrs.len() == 0 {
        Seq::empty()
    } else {
        let m = merge_addresses(addrs.drop_last());
        let a = addrs.last();
        match interface_from(m, a.interface_name@, 0) {
            Some(k) => m.update(k, apply_address(m[k], a)),
            None => m.push(apply_address(blank_interface(a.interface_name@), a)),
        }
    }
}

pub open spec fn interfaces_view(s: Seq<NetworkIterface>) -> Seq<NetworkIterfaceView> {
    s.map_values(|i: NetworkIterface| i@)
}

fn find_interface(s: &Vec<NetworkIterface>, name: &str) -> (r: Option<usize>)
    ensures
        match r {
            Some(k) => k < s@.len() && interface_from(interfaces_view(s@), name@, 0) == Some(k as int),
            None => interface_from(interfaces_view(s@), name@, 0) is None,
        },
{
    let ghost v = interfaces_view(s@);
    let mut k: usize = 0;
    while k < s.len()
        invariant
            k <= s@.len(),
            v == interfaces_view(s@),
            interface_from(v, name@, 0) == interface_from(v, name@, k as int),
        decreases s@.len() - k,
    {
        if str_eq(s[k].name.as_str(), name) {
            return Some(k);
        }
        k = k + 1;
    }
    None
}

fn read_address(i: &NetworkIterface, a: &InterfaceAddress) -> (r: NetworkIterface)
    ensures
        r@ == apply_address(i@, *a),
{
    let mut ip = i.ip.clone();
    let mut mac = i.mac.clone();
    let mut mask = i.mask.clone();
    let mut broadcast = i.broadcast.clone();
    let mut destination = i.destination.clone();
    match &a.address {
        Some((AddressFamilyKind::Inet, addr)) => {
            ip = strip_zero_ports(addr.as_str());
            match &a.netmask {
                Some(m) => { mask = m.clone(); },
                None => {},
            }
            match &a.broadcast {
                Some(b) => { broadcast = strip_zero_ports(b.as_str()); },
                None => {},
            }
            match &a.destination {
                Some(d) => { destination = d.clone(); },
                None => {},
            }
        },
        Some((AddressFamilyKind::Packet, addr)) => {
            mac = addr.clone();
        },
        _ => {},
    }
    NetworkIterface { name: i.name.clone(), ip, mac, mask, broadcast, destination }
}

/// The network interfaces that the system's addresses describe, each named once, in the
/// order their names first appear. No address at all is an error.
pub fn get_net_info(addrs: &Vec<InterfaceAddress>) -> (r: Result<NetworkInfo, MainboardError>)
    ensures
        match r {
            Ok(info) => addrs@.len() > 0 && interfaces_view(info.interfaces@) == merge_addresses(addrs@),
            Err(e) => addrs@.len() == 0 && e.message@ == "failed to get network interface"@,
        },
{
    let mut interfaces: Vec<NetworkIterface> = Vec::new();
    let mut i: usize = 0;
    proof {
        assert(addrs@.subrange(0, 0) =~= Seq::<InterfaceAddress>::empty());
        assert(interfaces_view(interfaces@) =~= Seq::<NetworkIterfaceView>::empty());
    }
    while i < addrs.len()
        invariant
            i <= addrs@.len(),
            interfaces_view(interfaces@) == merge_addresses(addrs@.subrange(0, i as int)),
            i > 0 ==> interfaces@.len() > 0,
        decreases addrs@.len() - i,
    {
        let a = &addrs[i];
        let ghost before = interfaces_view(interfaces@);
        proof {
            assert(addrs@.subrange(0, i + 1).drop_last() =~= addrs@.subrange(0, i as int));
            assert(addrs@.subrange(0, i + 1).last() == *a);
        }
        match find_interface(&interfaces, a.interface_name.as_str()) {
            Some(k) => {
                let updated = read_address(&interfaces[k], a);
                interfaces.set(k, updated);
                proof {
                    assert(interfaces_view(interfaces@) =~= before.update(k as int, apply_address(before[k as int], *a)));
                }
            },
            None => {
                let blank = NetworkIterface {
                    name: a.interface_name.clone(),
                    ip: String::new(),
                    mac: String::new(),
                    mask: String::new(),
                    broadcast: String::new(),
                    destination: String::new(),
                };
                assert(blank@ == blank_interface(a.interface_name@));
                let fresh = read_address(&blank, a);
                interfaces.push(fresh);
                proof {
                    assert(interfaces_view(interfaces@) =~= before.push(apply_address(blank_interface(a.interface_name@), *a)));
                }
            },
        }
        i = i + 1;
    }
    proof {
        assert(addrs@.subrange(0, addrs@.len() as int) =~= addrs@);
    }
    if interfaces.len() == 0 {
        proof {
            reveal_strlit("failed to get network interface");
        }
        return Err(MainboardError::new().message(String::from_str("failed to get network interface")));
    }
    Ok(NetworkInfo { interfaces })
}

} // verus!
