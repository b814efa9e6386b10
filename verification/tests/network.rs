use dji_live_bridge::error::ErrorKind;
use dji_live_bridge::network::{
    default_route_interface, interfaces_from, ipv4_to_string, is_excluded_interface,
    is_usable_lan_address, network_view, parse_ifconfig, parse_ipv4, require_listed,
    select_interface, windows_discovery, AdapterInfo, NetworkInterface,
};

const IFCONFIG: &str = "lo0: flags=8049<UP,LOOPBACK,RUNNING,MULTICAST> mtu 16384\n\
\tinet 127.0.0.1 netmask 0xff000000\n\
en1: flags=8863<UP,BROADCAST,SMART,RUNNING,SIMPLEX,MULTICAST> mtu 1500\n\
\tether 3c:22:fb:00:00:01\n\
\tinet 10.0.0.7 netmask 0xffffff00 broadcast 10.0.0.255\n\
en0: flags=8863<UP,BROADCAST,SMART,RUNNING,SIMPLEX,MULTICAST> mtu 1500\n\
\tinet6 fe80::1%en0 prefixlen 64 scopeid 0x4\n\
\tinet 169.254.3.3 netmask 0xffff0000\n\
\tinet 192.168.1.20 netmask 0xffffff00 broadcast 192.168.1.255\n\
utun3: flags=8051<UP,POINTOPOINT,RUNNING,MULTICAST> mtu 1380\n\
\tinet 100.64.0.1 --> 100.64.0.1 netmask 0xffffffff\n";

fn interface(name: &str, ip: &str, recommended: bool) -> NetworkInterface {
    NetworkInterface {
        name: name.to_string(),
        ipv4: ip.to_string(),
        is_default_route: recommended,
        recommended,
    }
}

#[test]
fn lan_addresses_exclude_loopback_link_local_and_multicast() {
    assert!(is_usable_lan_address((192, 168, 1, 20)));
    assert!(is_usable_lan_address((10, 0, 0, 7)));
    assert!(!is_usable_lan_address((127, 0, 0, 1)));
    assert!(!is_usable_lan_address((169, 254, 3, 3)));
    assert!(!is_usable_lan_address((0, 0, 0, 0)));
    assert!(!is_usable_lan_address((224, 0, 0, 251)));
    assert!(!is_usable_lan_address((239, 255, 255, 250)));
    assert!(is_usable_lan_address((240, 0, 0, 1)));
}

#[test]
fn ipv4_round_trips_through_text() {
    assert_eq!(parse_ipv4("192.168.1.20"), Some((192, 168, 1, 20)));
    assert_eq!(ipv4_to_string((10, 0, 0, 7)), "10.0.0.7");
    assert_eq!(parse_ipv4("256.1.1.1"), None);
    assert_eq!(parse_ipv4("1.2.3"), None);
    assert_eq!(parse_ipv4("1.2.3.4.5"), None);
    assert_eq!(parse_ipv4("01.2.3.4"), None);
    assert_eq!(parse_ipv4(""), None);
}

#[test]
fn tunnels_and_airdrop_are_never_offered() {
    for name in ["lo0", "utun0", "awdl0", "llw0", "gif0", "stf0"] {
        assert!(is_excluded_interface(name), "{name}");
    }
    assert!(!is_excluded_interface("en0"));
    assert!(!is_excluded_interface("lo1"));
}

#[test]
fn ifconfig_gives_one_usable_address_per_interface_in_name_order() {
    let entries = parse_ifconfig(IFCONFIG);
    assert_eq!(
        entries,
        vec![("en0".to_string(), (192, 168, 1, 20)), ("en1".to_string(), (10, 0, 0, 7))]
    );
}

#[test]
fn default_route_interface_comes_from_route_get() {
    let route = "   route to: default\ndestination: default\n       mask: default\n    gateway: 192.168.1.1\n  interface: en0\n      flags: <UP,GATEWAY,DONE,STATIC,PRCLONING>\n";
    assert_eq!(default_route_interface(route).as_deref(), Some("en0"));
    assert_eq!(default_route_interface("route: writing to routing socket: not in table\n"), None);
}

#[test]
fn the_default_route_interface_is_listed_first_and_recommended() {
    let entries = parse_ifconfig(IFCONFIG);
    let interfaces = interfaces_from(&entries, Some("en1"));
    let names: Vec<_> = interfaces.iter().map(|i| i.name.as_str()).collect();
    assert_eq!(names, vec!["en1", "en0"]);
    assert!(interfaces[0].recommended && interfaces[0].is_default_route);
    assert!(!interfaces[1].recommended);
    assert_eq!(interfaces[1].ipv4, "192.168.1.20");

    let interfaces = interfaces_from(&entries, None);
    let names: Vec<_> = interfaces.iter().map(|i| i.name.as_str()).collect();
    assert_eq!(names, vec!["en0", "en1"]);
    assert!(interfaces.iter().all(|i| !i.recommended));
}

#[test]
fn selection_prefers_the_named_then_the_recommended_then_the_first() {
    let interfaces = vec![interface("en0", "10.0.0.2", false), interface("en5", "10.0.0.3", true)];
    assert_eq!(select_interface(&interfaces, Some("en0")).unwrap().name, "en0");
    assert_eq!(select_interface(&interfaces, Some("en9")).unwrap().name, "en5");
    assert_eq!(select_interface(&interfaces, None).unwrap().name, "en5");
    let plain = vec![interface("en0", "10.0.0.2", false), interface("en1", "10.0.0.4", false)];
    assert_eq!(select_interface(&plain, None).unwrap().name, "en0");
    assert!(select_interface(&Vec::new(), None).is_none());
}

#[test]
fn a_vanished_interface_is_refused() {
    let interfaces = vec![interface("en0", "10.0.0.2", true)];
    assert!(require_listed(&interfaces, "en0").is_ok());
    let error = require_listed(&interfaces, "en7").unwrap_err();
    assert_eq!(error.kind(), ErrorKind::Validation);
    assert_eq!(error.detail(), "Selected interface is no longer active");
}

#[test]
fn network_view_builds_the_rtmp_url_and_warns_on_a_changed_address() {
    let interfaces = vec![interface("en0", "192.168.1.20", true)];
    let view = network_view(&interfaces, None, &Some("192.168.1.9".to_string()), true);
    assert_eq!(view.selected_name.as_deref(), Some("en0"));
    assert_eq!(view.rtmp_url.as_deref(), Some("rtmp://192.168.1.20:1935/drone"));
    assert!(view.ip_change_warning);
    let view = network_view(&interfaces, None, &Some("192.168.1.20".to_string()), true);
    assert!(!view.ip_change_warning);
    let view = network_view(&interfaces, None, &Some("192.168.1.9".to_string()), false);
    assert!(!view.ip_change_warning);
    let view = network_view(&Vec::new(), None, &None, true);
    assert!(view.rtmp_url.is_none() && !view.ip_change_warning);
}

#[test]
fn windows_discovery_takes_the_gateway_adapter_with_the_lowest_metric() {
    let adapters = vec![
        AdapterInfo {
            name: Some("Wi-Fi".to_string()),
            up: true,
            addresses: vec![(169, 254, 1, 1), (192, 168, 0, 5)],
            has_gateway: true,
            metric: 50,
        },
        AdapterInfo {
            name: Some("Ethernet".to_string()),
            up: true,
            addresses: vec![(10, 1, 1, 4)],
            has_gateway: true,
            metric: 10,
        },
        AdapterInfo {
            name: Some("Down".to_string()),
            up: false,
            addresses: vec![(10, 9, 9, 9)],
            has_gateway: true,
            metric: 1,
        },
        AdapterInfo {
            name: Some("Loopback".to_string()),
            up: true,
            addresses: vec![(127, 0, 0, 1)],
            has_gateway: false,
            metric: 0,
        },
    ];
    let (entries, default_name) = windows_discovery(&adapters);
    assert_eq!(
        entries,
        vec![("Ethernet".to_string(), (10, 1, 1, 4)), ("Wi-Fi".to_string(), (192, 168, 0, 5))]
    );
    assert_eq!(default_name.as_deref(), Some("Ethernet"));
}
