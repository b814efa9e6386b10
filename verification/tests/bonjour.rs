use dji_live_bridge::bonjour::{advertise_plan, process_spec, PROCESS_NAME};

#[test]
fn builds_proxy_registration_for_live_local() {
    let spec = process_spec((172, 20, 10, 2));
    let args: Vec<_> = spec.args.iter().map(|value| value.to_string()).collect();
    assert_eq!(spec.name, PROCESS_NAME);
    assert_eq!(spec.executable, "/usr/bin/dns-sd");
    assert_eq!(
        args,
        ["-P", "DJI Live Bridge", "_rtmp._tcp", "local.", "1935", "live.local.", "172.20.10.2", "path=/drone"]
    );
}

#[test]
fn advertising_needs_an_ipv4_address() {
    assert!(advertise_plan("192.168.1.20").is_ok());
    assert_eq!(
        advertise_plan("192.168.01.20").unwrap_err().message(),
        "Validation error: Bonjour advertisement requires an IPv4 address: 192.168.01.20"
    );
}
