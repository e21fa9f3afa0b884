use lan_play::iface::{
    apply_interface_info, capture_filter, check_data_link, corrected_err_code, data_link_from_code,
    loop_ended_well, partition_results, select_interface_info, select_interfaces, DataLink,
    GetAddressError, IfAddr, InterfaceDescription, InterfaceError, InterfaceInfo, LibraryVersion,
};
use lan_play::packet::{Error, Ipv4Cidr};

#[test]
fn data_links() {
    assert_eq!(data_link_from_code(1), DataLink::Ethernet);
    assert_eq!(data_link_from_code(12), DataLink::RawIp);
    assert_eq!(data_link_from_code(105), DataLink::Other);
    assert_eq!(check_data_link(DataLink::Ethernet), Ok(()));
    assert_eq!(check_data_link(DataLink::RawIp), Err(InterfaceError::WrongDataLink(DataLink::RawIp)));
}

#[test]
fn capture_results() {
    assert!(loop_ended_well(0));
    assert!(loop_ended_well(-2));
    assert!(!loop_ended_well(-1));
    assert_eq!(corrected_err_code(-13), 13);
    assert_eq!(corrected_err_code(13), 13);
}

#[test]
fn default_interface_info() {
    let i = InterfaceInfo::default();
    assert_eq!(i.ethernet_address, [0xff; 6]);
    assert_eq!(i.name, "");
    assert!(i.description.is_none());
}

fn addrs() -> Vec<IfAddr> {
    vec![
        IfAddr { interface_name: "lo".to_string(), link_addr: Some([0; 6]) },
        IfAddr { interface_name: "eth0".to_string(), link_addr: None },
        IfAddr { interface_name: "eth0".to_string(), link_addr: Some([2, 0, 0, 0, 0, 1]) },
        IfAddr { interface_name: "eth0".to_string(), link_addr: Some([2, 0, 0, 0, 0, 2]) },
    ]
}

#[test]
fn interface_info_is_the_first_link_entry() {
    let info = select_interface_info(&addrs(), &"eth0".to_string()).unwrap();
    assert_eq!(info.ethernet_address, [2, 0, 0, 0, 0, 1]);
    assert_eq!(info.name, "eth0");
    assert!(matches!(select_interface_info(&addrs(), &"wlan0".to_string()), Err(GetAddressError::NotFound)));
}

#[test]
fn interface_info_updates_description() {
    let mut desc = InterfaceDescription { name: "eth0".to_string(), description: "old".to_string() };
    let info = InterfaceInfo { ethernet_address: [1; 6], name: "eth0".to_string(), description: Some("new".to_string()) };
    assert_eq!(apply_interface_info(&mut desc, Ok(info)), Ok([1; 6]));
    assert_eq!(desc.description, "new");
    let info = InterfaceInfo { ethernet_address: [1; 6], name: "eth0".to_string(), description: None };
    assert_eq!(apply_interface_info(&mut desc, Ok(info)), Ok([1; 6]));
    assert_eq!(desc.description, "new");
    assert_eq!(
        apply_interface_info(&mut desc, Err(GetAddressError::FailedToCallSystem)),
        Err(InterfaceError::GetAddr(GetAddressError::FailedToCallSystem))
    );
}

#[test]
fn partition_keeps_order() {
    let v: Vec<Result<u8, char>> = vec![Ok(1), Err('a'), Ok(2), Err('b'), Ok(3)];
    let (ok, err) = partition_results(v);
    assert_eq!(ok, vec![1, 2, 3]);
    assert_eq!(err, vec!['a', 'b']);
}

#[test]
fn interface_selection() {
    let names = vec!["lo".to_string(), "eth0".to_string(), "eth1".to_string()];
    assert_eq!(select_interfaces(&names, &None), Ok(vec![0, 1, 2]));
    assert_eq!(select_interfaces(&names, &Some("eth1".to_string())), Ok(vec![2]));
    assert_eq!(select_interfaces(&names, &Some("wlan0".to_string())), Err(Error::NoInterface));
    assert_eq!(select_interfaces(&vec![], &None), Err(Error::NoInterface));
}

#[test]
fn capture_filter_names_the_network() {
    let cidr = Ipv4Cidr::new([10, 13, 37, 2], 16);
    assert_eq!(capture_filter(&cidr), "net 10.13.0.0/16");
    let cidr = Ipv4Cidr::new([192, 168, 1, 200], 24);
    assert_eq!(capture_filter(&cidr), "net 192.168.1.0/24");
}

#[test]
fn library_versions() {
    assert_eq!(LibraryVersion::PCap("1.9.1".to_string()).describe(), "pcap 1.9.1");
    assert_eq!(LibraryVersion::WPCap("4.1".to_string()).describe(), "wpcap 4.1");
    assert_eq!(LibraryVersion::PFRing("7".to_string()).describe(), "pfring 7");
}
