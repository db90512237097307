use growbe_mainboard::plateform::wifi::{get_curret_ssid_strength, ssid_strength_readable};
use growbe_mainboard::text::{nth_field_of, nth_line_of, parse_i32, remove_char};
use growbe_mainboard::plateform::{
    get_host_information, get_ip_addr, get_net_info, strip_zero_ports, AddressFamilyKind, InterfaceAddress,
    NetworkInfo, NetworkIterface, UnameInfo,
};

fn iface(name: &str, ip: &str) -> NetworkIterface {
    NetworkIterface {
        name: name.to_string(),
        ip: ip.to_string(),
        mac: String::new(),
        mask: String::new(),
        broadcast: String::new(),
        destination: String::new(),
    }
}

#[test]
fn board_address_is_that_of_wlan0() {
    let info = NetworkInfo { interfaces: vec![iface("lo", "127.0.0.1"), iface("wlan0", "192.168.1.20")] };
    assert_eq!(get_ip_addr(&info).unwrap(), "192.168.1.20");
    let info = NetworkInfo { interfaces: vec![iface("eth0", "10.0.0.2")] };
    assert_eq!(get_ip_addr(&info).err().unwrap().message, "failed to get wlan0");
}

#[test]
fn zero_ports_are_taken_out() {
    assert_eq!(strip_zero_ports("192.168.1.20:0"), "192.168.1.20");
    assert_eq!(strip_zero_ports("a:0b:0"), "ab");
    assert_eq!(strip_zero_ports("::01"), ":1");
}

fn addr(name: &str, family: AddressFamilyKind, a: &str) -> InterfaceAddress {
    InterfaceAddress {
        interface_name: name.to_string(),
        address: Some((family, a.to_string())),
        netmask: None,
        broadcast: None,
        destination: None,
    }
}

#[test]
fn interfaces_gather_their_addresses() {
    let mut inet = addr("wlan0", AddressFamilyKind::Inet, "192.168.1.20:0");
    inet.netmask = Some("255.255.255.0".to_string());
    inet.broadcast = Some("192.168.1.255:0".to_string());
    let addrs = vec![
        addr("lo", AddressFamilyKind::Inet, "127.0.0.1:0"),
        addr("wlan0", AddressFamilyKind::Packet, "aa:bb:cc:dd:ee:ff"),
        inet,
        addr("wlan0", AddressFamilyKind::Other, "fe80::1"),
    ];
    let info = get_net_info(&addrs).unwrap();
    assert_eq!(info.interfaces.len(), 2);
    assert_eq!(info.interfaces[0].name, "lo");
    assert_eq!(info.interfaces[0].ip, "127.0.0.1");
    let w = &info.interfaces[1];
    assert_eq!(w.mac, "aa:bb:cc:dd:ee:ff");
    assert_eq!(w.ip, "192.168.1.20");
    assert_eq!(w.mask, "255.255.255.0");
    assert_eq!(w.broadcast, "192.168.1.255");
    assert_eq!(get_ip_addr(&info).unwrap(), "192.168.1.20");
    assert_eq!(get_net_info(&vec![]).err().unwrap().message, "failed to get network interface");
}

#[test]
fn host_information_from_uname() {
    let un = UnameInfo {
        sysname: "Linux".to_string(),
        nodename: "growbe".to_string(),
        release: "6.1.0".to_string(),
        version: "#1 SMP".to_string(),
        machine: "armv7l".to_string(),
    };
    let host = get_host_information(Ok(un)).unwrap();
    assert_eq!(host.architecture, "armv7l");
    assert_eq!(host.deviceType, "growbe");
    assert_eq!(host.os, "Linux");
    assert_eq!(host.kernelVersion, "#1 SMP");
    assert_eq!(host.kernel, "6.1.0");
    assert_eq!(get_host_information(Err("no uname".to_string())).err().unwrap().message, "no uname");
}

const WIRELESS: &str = "Inter-| sta-|   Quality        |   Discarded packets               | Missed | WE\n face | tus | link level noise |  nwid  crypt   frag  retry   misc | beacon | 22\n wlan0: 0000   70.  -40.  -256        0      0      0      0      0        0\n";

#[test]
fn wireless_strength_is_the_signal_level_of_the_first_interface() {
    assert!(ssid_strength_readable(WIRELESS));
    assert_eq!(get_curret_ssid_strength(Some(WIRELESS)), -40);
    let headers_only = "Inter-| sta-|\n face | tus |\n";
    assert!(ssid_strength_readable(headers_only));
    assert_eq!(get_curret_ssid_strength(Some(headers_only)), -1);
    assert_eq!(get_curret_ssid_strength(None), 0);
    assert!(!ssid_strength_readable("a\nb\n wlan0: 0000 70.\n"));
    assert!(!ssid_strength_readable("a\nb\n wlan0: 0000 70. n/a\n"));
}

#[test]
fn lines_fields_and_numbers_read_as_std_reads_them() {
    assert_eq!(nth_line_of("a\r\nb\n\nc", 0).unwrap(), "a");
    assert_eq!(nth_line_of("a\r\nb\n\nc", 2).unwrap(), "");
    assert_eq!(nth_line_of("a\r\nb\n\nc", 3).unwrap(), "c");
    assert!(nth_line_of("a\nb\n", 2).is_none());
    assert!(nth_line_of("", 0).is_none());
    assert_eq!(nth_field_of("  x \t y\u{3000}z ", 2).unwrap(), "z");
    assert!(nth_field_of("  x  y ", 2).is_none());
    assert_eq!(remove_char("-4.0.", '.'), "-40");
    assert_eq!(parse_i32("-2147483648"), Some(i32::MIN));
    assert_eq!(parse_i32("+2147483647"), Some(i32::MAX));
    assert_eq!(parse_i32("2147483648"), None);
    assert_eq!(parse_i32("-"), None);
    assert_eq!(parse_i32(""), None);
    assert_eq!(parse_i32("12a"), None);
    assert_eq!(parse_i32("007"), Some(7));
    for text in ["0", "-0", "+15", "99999999999", "1 2", "-12"] {
        assert_eq!(parse_i32(text), text.parse::<i32>().ok());
    }
}
