use yamaha_rcp::{
    bindings, description_request, discovery_query, discovery_target, merge_candidates,
    parse_description, response_body, select_devices, BindingStrategy, Candidate,
    DeviceDescription, IpAddress, NetInterface, Probe, Resolution, YamahaDevice,
};

fn v4(a: u8, b: u8, c: u8, d: u8) -> IpAddress {
    IpAddress::V4(u32::from_be_bytes([a, b, c, d]))
}

fn candidate(ip: IpAddress, location: &str) -> Candidate {
    Candidate { source: ip, location: location.to_string() }
}

fn resolved(ip: IpAddress, name: &str, manufacturer: &str) -> Resolution {
    Resolution {
        source: ip,
        description: Some(DeviceDescription {
            friendly_name: name.to_string(),
            manufacturer: manufacturer.to_string(),
        }),
    }
}

fn failed(ip: IpAddress) -> Resolution {
    Resolution { source: ip, description: None }
}

fn pairs(devices: &[YamahaDevice]) -> Vec<(IpAddress, String)> {
    devices.iter().map(|d| (d.ip, d.name.clone())).collect()
}

fn reply(location: &str) -> String {
    format!("HTTP/1.1 200 OK\r\nCACHE-CONTROL: max-age=1800\r\nLOCATION: {}\r\nST: upnp:rootdevice\r\n\r\n", location)
}

#[test]
fn query_is_byte_exact() {
    assert_eq!(
        discovery_query(),
        "M-SEARCH * HTTP/1.1\r\nHOST: 239.255.255.250:1900\r\nMAN: \"ssdp:discover\"\r\nMX: 2\r\nST: ssdp:all\r\n\r\n"
    );
    assert_eq!(discovery_target(), (v4(239, 255, 255, 250), 1900));
}

#[test]
fn probe_keeps_first_datagram_per_source() {
    let mut probe = Probe::new();
    assert!(probe.observe(v4(10, 0, 0, 5), &reply("http://10.0.0.5:49154/first.xml")));
    assert!(!probe.observe(v4(10, 0, 0, 5), &reply("http://10.0.0.5:49154/second.xml")));
    assert!(probe.observe(v4(10, 0, 0, 6), &reply("http://10.0.0.6:80/d.xml")));
    let c = probe.into_candidates();
    assert_eq!(c.len(), 2);
    assert_eq!(c[0].source, v4(10, 0, 0, 5));
    assert_eq!(c[0].location, "http://10.0.0.5:49154/first.xml");
    assert_eq!(c[1].source, v4(10, 0, 0, 6));
}

#[test]
fn probe_discards_datagram_without_location() {
    let mut probe = Probe::new();
    assert!(!probe.observe(v4(10, 0, 0, 5), "HTTP/1.1 200 OK\r\nST: ssdp:all\r\n\r\n"));
    assert!(!probe.observe(v4(10, 0, 0, 7), "\u{fffd}\u{fffd} garbage"));
    // A malformed datagram does not block a later good one from the same source.
    assert!(probe.observe(v4(10, 0, 0, 5), &reply("http://10.0.0.5/d.xml")));
    assert_eq!(probe.into_candidates().len(), 1);
}

#[test]
fn merge_keeps_one_entry_per_address() {
    let a = vec![candidate(v4(10, 0, 0, 5), "http://10.0.0.5/a.xml"), candidate(v4(10, 0, 0, 6), "http://10.0.0.6/d.xml")];
    let b = vec![candidate(v4(10, 0, 0, 5), "http://10.0.0.5/a.xml"), candidate(v4(192, 168, 1, 9), "http://192.168.1.9/d.xml")];
    let merged = merge_candidates(&vec![a, b]);
    let sources: Vec<IpAddress> = merged.iter().map(|c| c.source).collect();
    assert_eq!(sources, vec![v4(10, 0, 0, 5), v4(10, 0, 0, 6), v4(192, 168, 1, 9)]);
    assert_eq!(merged.iter().filter(|c| c.source == v4(10, 0, 0, 5)).count(), 1);
}

#[test]
fn merge_of_no_probes_is_empty() {
    assert!(merge_candidates(&vec![]).is_empty());
    assert!(merge_candidates(&vec![vec![], vec![]]).is_empty());
}

#[test]
fn other_vendor_never_selected() {
    let rs = vec![
        resolved(v4(10, 0, 0, 5), "Receiver-A", "Yamaha Corporation"),
        resolved(v4(10, 0, 0, 6), "Well Formed Name", "Other Corp"),
        resolved(v4(10, 0, 0, 7), "Prefix", "Yamaha Corporation Ltd"),
        resolved(v4(10, 0, 0, 8), "Lower", "yamaha corporation"),
    ];
    let out = select_devices(&rs);
    assert_eq!(pairs(&out), vec![(v4(10, 0, 0, 5), "Receiver-A".to_string())]);
}

#[test]
fn failed_resolution_does_not_block_others() {
    let rs = vec![
        failed(v4(10, 0, 0, 9)),
        resolved(v4(10, 0, 0, 5), "Receiver-A", "Yamaha Corporation"),
        failed(v4(10, 0, 0, 10)),
        resolved(v4(10, 0, 0, 6), "Receiver-B", "Yamaha Corporation"),
    ];
    let out = select_devices(&rs);
    assert_eq!(
        pairs(&out),
        vec![(v4(10, 0, 0, 5), "Receiver-A".to_string()), (v4(10, 0, 0, 6), "Receiver-B".to_string())]
    );
    assert!(select_devices(&vec![failed(v4(10, 0, 0, 9))]).is_empty());
}

#[test]
fn selected_devices_have_distinct_addresses() {
    let rs = vec![
        resolved(v4(10, 0, 0, 5), "Receiver-A", "Yamaha Corporation"),
        resolved(v4(10, 0, 0, 5), "Receiver-A", "Yamaha Corporation"),
    ];
    assert_eq!(select_devices(&rs).len(), 1);
}

#[test]
fn rerun_in_other_order_selects_same_set() {
    let first = vec![
        resolved(v4(10, 0, 0, 5), "Receiver-A", "Yamaha Corporation"),
        failed(v4(10, 0, 0, 9)),
        resolved(v4(10, 0, 0, 6), "Receiver-B", "Yamaha Corporation"),
        resolved(v4(10, 0, 0, 7), "Other", "Other Corp"),
    ];
    let second = vec![
        resolved(v4(10, 0, 0, 7), "Other", "Other Corp"),
        resolved(v4(10, 0, 0, 6), "Receiver-B", "Yamaha Corporation"),
        failed(v4(10, 0, 0, 9)),
        resolved(v4(10, 0, 0, 5), "Receiver-A", "Yamaha Corporation"),
    ];
    let mut a = pairs(&select_devices(&first));
    let mut b = pairs(&select_devices(&second));
    a.sort_by_key(|p| format!("{:?}", p));
    b.sort_by_key(|p| format!("{:?}", p));
    assert_eq!(a, b);
    assert_eq!(a.len(), 2);
}

#[test]
fn wildcard_strategy_binds_once() {
    let ifaces = vec![NetInterface { name: "eth0".to_string(), addr: v4(10, 0, 0, 2), loopback: false }];
    assert_eq!(bindings(BindingStrategy::SingleWildcardBinding, &ifaces), vec![v4(0, 0, 0, 0)]);
}

#[test]
fn per_interface_strategy_skips_unsuitable_interfaces() {
    let ifaces = vec![
        NetInterface { name: "lo".to_string(), addr: v4(127, 0, 0, 1), loopback: true },
        NetInterface { name: "eth0".to_string(), addr: v4(10, 0, 0, 2), loopback: false },
        NetInterface { name: "eth0".to_string(), addr: IpAddress::V6(1 << 120), loopback: false },
        NetInterface { name: "vEthernet (WSL)".to_string(), addr: v4(172, 20, 0, 1), loopback: false },
        NetInterface { name: "wlan0".to_string(), addr: v4(192, 168, 1, 20), loopback: false },
    ];
    assert_eq!(
        bindings(BindingStrategy::PerInterfaceBinding, &ifaces),
        vec![v4(10, 0, 0, 2), v4(192, 168, 1, 20)]
    );
    assert!(bindings(BindingStrategy::PerInterfaceBinding, &vec![]).is_empty());
}

#[test]
fn description_request_is_minimal_get() {
    let q = description_request("http://10.0.0.5:49154/desc.xml").unwrap();
    assert_eq!(q.host_port, "10.0.0.5:49154");
    assert_eq!(q.request, "GET /desc.xml HTTP/1.1\r\nHost: 10.0.0.5:49154\r\nConnection: close\r\n\r\n");
    let bare = description_request("http://10.0.0.5").unwrap();
    assert_eq!(bare.request, "GET / HTTP/1.1\r\nHost: 10.0.0.5\r\nConnection: close\r\n\r\n");
    assert!(description_request("not a url").is_none());
}

#[test]
fn description_is_read_from_body() {
    let response = "HTTP/1.1 200 OK\r\nContent-Type: text/xml\r\n\r\n<root><device><friendlyName>Receiver-A</friendlyName><manufacturer>Yamaha Corporation</manufacturer></device></root>";
    let d = parse_description(response).unwrap();
    assert_eq!(d.friendly_name, "Receiver-A");
    assert_eq!(d.manufacturer, "Yamaha Corporation");
    assert_eq!(response_body("no blank line"), "no blank line");
    assert_eq!(response_body("H: v\r\n\r\nbody"), "body");
}

#[test]
fn description_without_manufacturer_is_none() {
    let response = "HTTP/1.1 200 OK\r\n\r\n<friendlyName>Receiver-A</friendlyName>";
    assert!(parse_description(response).is_none());
    assert!(parse_description("").is_none());
}

#[test]
fn end_to_end_single_responder() {
    let bound = bindings(BindingStrategy::PerInterfaceBinding, &vec![NetInterface {
        name: "eth0".to_string(),
        addr: v4(127, 0, 0, 1),
        loopback: false,
    }]);
    assert_eq!(bound.len(), 1);
    let mut probe = Probe::new();
    probe.observe(v4(127, 0, 0, 1), "HTTP/1.1 200 OK\r\nLOCATION: http://127.0.0.1:9999/d.xml\r\n\r\n");
    let merged = merge_candidates(&vec![probe.into_candidates()]);
    assert_eq!(merged.len(), 1);
    let q = description_request(&merged[0].location).unwrap();
    assert_eq!(q.host_port, "127.0.0.1:9999");
    assert!(q.request.starts_with("GET /d.xml HTTP/1.1\r\n"));
    let served = "HTTP/1.1 200 OK\r\nContent-Type: text/xml\r\n\r\n<friendlyName>Receiver-A</friendlyName><manufacturer>Yamaha Corporation</manufacturer>";
    let rs = vec![Resolution { source: merged[0].source, description: parse_description(served) }];
    let out = select_devices(&rs);
    assert_eq!(pairs(&out), vec![(v4(127, 0, 0, 1), "Receiver-A".to_string())]);
}
