use nispor::{
    bridge_iface_tidy_up, convert_back_port_index_to_name, gen_slave_list_of_master, get_bridge_info,
    get_bridge_port_info, parse_af_spec_bridge_info, parse_bridge_vlan_info, BridgeInfo,
    BridgeAttr, BridgePortAttr, BridgePortInfo, BridgePortMulticastRouterType, BridgePortStpState,
    BridgeStpState, BridgeVlanEntry, BridgeVlanProtocol, Iface, MasterType, RawVlanInfo,
};

fn plain(name: &str, index: u32) -> Iface {
    Iface {
        name: name.to_string(),
        index,
        master: None,
        master_type: None,
        bridge: None,
        bridge_port: None,
    }
}

fn bridge(name: &str, index: u32) -> Iface {
    let mut i = plain(name, index);
    i.bridge = Some(BridgeInfo::default());
    i
}

fn port(name: &str, index: u32, master: &str, backup: &str) -> Iface {
    let mut i = plain(name, index);
    i.master = Some(master.to_string());
    i.master_type = Some(MasterType::Bridge);
    let mut p = BridgePortInfo::default();
    p.backup_port = backup.to_string();
    i.bridge_port = Some(p);
    i
}

fn find<'a>(s: &'a [Iface], name: &str) -> &'a Iface {
    s.iter().find(|i| i.name == name).unwrap()
}

fn slaves(s: &[Iface], name: &str) -> Vec<String> {
    find(s, name).bridge.as_ref().unwrap().slaves.clone()
}

fn backup(s: &[Iface], name: &str) -> String {
    find(s, name).bridge_port.as_ref().unwrap().backup_port.clone()
}

#[test]
fn stp_state_decodes_named_values() {
    assert_eq!(BridgeStpState::from(0u32), BridgeStpState::Disabled);
    assert_eq!(BridgeStpState::from(1u32), BridgeStpState::KernelStp);
    assert_eq!(BridgeStpState::from(2u32), BridgeStpState::UserStp);
}

#[test]
fn stp_state_above_maximum_is_unknown() {
    assert_eq!(BridgeStpState::from(3u32), BridgeStpState::Unknown);
    assert_eq!(BridgeStpState::from(u32::MAX), BridgeStpState::Unknown);
}

#[test]
fn port_stp_state_decodes() {
    assert_eq!(BridgePortStpState::from(0u8), BridgePortStpState::Disabled);
    assert_eq!(BridgePortStpState::from(1u8), BridgePortStpState::Listening);
    assert_eq!(BridgePortStpState::from(2u8), BridgePortStpState::Learning);
    assert_eq!(BridgePortStpState::from(3u8), BridgePortStpState::Forwarding);
    assert_eq!(BridgePortStpState::from(4u8), BridgePortStpState::Blocking);
    assert_eq!(BridgePortStpState::from(5u8), BridgePortStpState::Unknown);
    assert_eq!(BridgePortStpState::from(255u8), BridgePortStpState::Unknown);
}

#[test]
fn multicast_router_decodes() {
    assert_eq!(BridgePortMulticastRouterType::from(0u8), BridgePortMulticastRouterType::Disabled);
    assert_eq!(BridgePortMulticastRouterType::from(1u8), BridgePortMulticastRouterType::TempQuery);
    assert_eq!(BridgePortMulticastRouterType::from(2u8), BridgePortMulticastRouterType::Perm);
    assert_eq!(BridgePortMulticastRouterType::from(3u8), BridgePortMulticastRouterType::Temp);
    assert_eq!(BridgePortMulticastRouterType::from(4u8), BridgePortMulticastRouterType::Unknown);
}

#[test]
fn vlan_protocol_decodes_ethertypes() {
    assert_eq!(BridgeVlanProtocol::from(0x8100u16), BridgeVlanProtocol::Ieee8021Q);
    assert_eq!(BridgeVlanProtocol::from(0x88A8u16), BridgeVlanProtocol::Ieee8021AD);
    assert_eq!(BridgeVlanProtocol::from(0u16), BridgeVlanProtocol::Unknown);
    assert_eq!(BridgeVlanProtocol::from(0x8101u16), BridgeVlanProtocol::Unknown);
}

#[test]
fn defaults_are_unknown() {
    assert_eq!(BridgeStpState::default(), BridgeStpState::Unknown);
    assert_eq!(BridgeVlanProtocol::default(), BridgeVlanProtocol::Unknown);
    assert_eq!(BridgePortStpState::default(), BridgePortStpState::Unknown);
    assert_eq!(BridgePortMulticastRouterType::default(), BridgePortMulticastRouterType::Unknown);
    let p = BridgePortInfo::default();
    assert_eq!(p.stp_state, BridgePortStpState::Unknown);
    assert_eq!(p.multicast_router, BridgePortMulticastRouterType::Unknown);
    assert!(p.backup_port.is_empty());
    assert!(p.vlans.is_none());
}

#[test]
fn slave_lists_are_derived_sorted() {
    let mut s = vec![
        bridge("br0", 1),
        bridge("br1", 2),
        port("B", 3, "br0", ""),
        port("C", 4, "br1", ""),
        port("A", 5, "br0", ""),
    ];
    bridge_iface_tidy_up(&mut s);
    assert_eq!(slaves(&s, "br0"), vec!["A".to_string(), "B".to_string()]);
    assert_eq!(slaves(&s, "br1"), vec!["C".to_string()]);
}

#[test]
fn bond_ports_are_not_bridge_slaves() {
    let mut s = vec![bridge("br0", 1), port("A", 2, "br0", "")];
    let mut b = port("B", 3, "br0", "");
    b.master_type = Some(MasterType::Bond);
    s.push(b);
    gen_slave_list_of_master(&mut s);
    assert_eq!(slaves(&s, "br0"), vec!["A".to_string()]);
}

#[test]
fn bridge_without_ports_keeps_its_list() {
    let mut br = bridge("br0", 1);
    br.bridge.as_mut().unwrap().slaves = vec!["old".to_string()];
    let mut s = vec![br, bridge("br1", 2)];
    gen_slave_list_of_master(&mut s);
    assert_eq!(slaves(&s, "br0"), vec!["old".to_string()]);
    assert!(slaves(&s, "br1").is_empty());
}

#[test]
fn backup_port_index_is_resolved() {
    let mut s = vec![bridge("br0", 1), port("p1", 2, "br0", "5"), plain("eth5", 5)];
    bridge_iface_tidy_up(&mut s);
    assert_eq!(backup(&s, "p1"), "eth5");
}

#[test]
fn backup_port_unknown_index_is_kept() {
    let mut s = vec![bridge("br0", 1), port("p1", 2, "br0", "5"), plain("eth6", 6)];
    bridge_iface_tidy_up(&mut s);
    assert_eq!(backup(&s, "p1"), "5");
}

#[test]
fn empty_backup_port_stays_empty() {
    let mut s = vec![bridge("br0", 1), port("p1", 2, "br0", ""), plain("eth0", 0)];
    convert_back_port_index_to_name(&mut s);
    assert_eq!(backup(&s, "p1"), "");
}

#[test]
fn backup_port_of_non_bridge_port_is_not_resolved() {
    let mut p = port("p1", 2, "bond0", "5");
    p.master_type = Some(MasterType::Bond);
    let mut s = vec![p, plain("eth5", 5)];
    convert_back_port_index_to_name(&mut s);
    assert_eq!(backup(&s, "p1"), "5");
}

#[test]
fn tidy_up_twice_equals_once() {
    let mut s = vec![
        bridge("br0", 1),
        port("B", 3, "br0", "4"),
        port("A", 4, "br0", "9"),
        plain("eth9", 9),
    ];
    bridge_iface_tidy_up(&mut s);
    let once = s.clone();
    bridge_iface_tidy_up(&mut s);
    assert_eq!(s, once);
    assert_eq!(backup(&s, "B"), "A");
    assert_eq!(backup(&s, "A"), "eth9");
}

#[test]
fn port_attributes_are_decoded() {
    let attrs = vec![
        BridgePortAttr::State(3),
        BridgePortAttr::Priority(32),
        BridgePortAttr::Cost(100),
        BridgePortAttr::Mode(1),
        BridgePortAttr::Learning(0),
        BridgePortAttr::RootId("8000.00:11:22:33:44:55".to_string()),
        BridgePortAttr::MulticastRouter(2),
        BridgePortAttr::HoldTimer(7),
        BridgePortAttr::BackupPort(12),
        BridgePortAttr::Other(99),
        BridgePortAttr::Cost(200),
    ];
    let p = get_bridge_port_info(&attrs).unwrap();
    assert_eq!(p.stp_state, BridgePortStpState::Forwarding);
    assert_eq!(p.stp_priority, 32);
    assert_eq!(p.stp_path_cost, 200);
    assert!(p.hairpin_mode);
    assert!(!p.learning);
    assert_eq!(p.designated_root, "8000.00:11:22:33:44:55");
    assert_eq!(p.multicast_router, BridgePortMulticastRouterType::Perm);
    assert_eq!(p.hold_timer, 7);
    assert_eq!(p.backup_port, "12");
    assert!(p.vlans.is_none());
}

#[test]
fn port_state_out_of_range_is_unknown() {
    let p = get_bridge_port_info(&vec![BridgePortAttr::State(9)]).unwrap();
    assert_eq!(p.stp_state, BridgePortStpState::Unknown);
    let q = get_bridge_port_info(&vec![]).unwrap();
    assert_eq!(q, BridgePortInfo::default());
}

#[test]
fn vlan_single_entry_round_trips() {
    let v = parse_af_spec_bridge_info(&vec![RawVlanInfo { flags: 0x2 | 0x4, vid: 100 }]).unwrap();
    assert_eq!(
        v,
        vec![BridgeVlanEntry {
            vid: Some(100),
            vid_range: None,
            is_pvid: true,
            is_egress_untagged: true,
        }]
    );
}

#[test]
fn vlan_range_has_no_single_id() {
    let v = parse_af_spec_bridge_info(&vec![
        RawVlanInfo { flags: 0x8, vid: 10 },
        RawVlanInfo { flags: 0x10 | 0x4, vid: 20 },
        RawVlanInfo { flags: 0, vid: 30 },
    ])
    .unwrap();
    assert_eq!(v.len(), 2);
    assert_eq!(v[0].vid, None);
    assert_eq!(v[0].vid_range, Some((10, 20)));
    assert!(!v[0].is_pvid);
    assert!(v[0].is_egress_untagged);
    assert_eq!(v[1].vid, Some(30));
    assert_eq!(v[1].vid_range, None);
}

#[test]
fn no_vlan_entries_is_absent() {
    assert_eq!(parse_af_spec_bridge_info(&vec![]), None);
}

#[test]
fn vlan_info_is_merged_into_port() {
    let mut p = port("p1", 2, "br0", "");
    parse_bridge_vlan_info(&mut p, &vec![RawVlanInfo { flags: 0, vid: 7 }]);
    let vlans = p.bridge_port.as_ref().unwrap().vlans.clone().unwrap();
    assert_eq!(vlans[0].vid, Some(7));
    let mut q = plain("eth0", 1);
    parse_bridge_vlan_info(&mut q, &vec![RawVlanInfo { flags: 0, vid: 7 }]);
    assert!(q.bridge_port.is_none());
}

#[test]
fn bridge_attributes_are_decoded() {
    let attrs = vec![
        BridgeAttr::StpState(1),
        BridgeAttr::HelloTime(200),
        BridgeAttr::Priority(32768),
        BridgeAttr::VlanFiltering(1),
        BridgeAttr::VlanProtocol(0x88A8),
        BridgeAttr::VlanDefaultPvid(1),
        BridgeAttr::McastRouter(1),
        BridgeAttr::McastSnooping(1),
        BridgeAttr::McastQueryIntvl(12500),
        BridgeAttr::BridgeId("8000.00:11:22:33:44:55".to_string()),
        BridgeAttr::NfCallIptables(0),
        BridgeAttr::Other(1000),
        BridgeAttr::HelloTime(300),
    ];
    let b = get_bridge_info(&attrs).unwrap();
    assert_eq!(b.stp.state, BridgeStpState::KernelStp);
    assert_eq!(b.stp.hello_time, 300);
    assert_eq!(b.stp.priority, 32768);
    assert!(b.vlan_filtering.enabled);
    assert_eq!(b.vlan_filtering.vlan_protocol, BridgeVlanProtocol::Ieee8021AD);
    assert_eq!(b.vlan_filtering.default_pvid, Some(1));
    assert_eq!(b.multicast_igmp.router, BridgePortMulticastRouterType::TempQuery);
    assert!(b.multicast_igmp.snooping);
    assert_eq!(b.multicast_igmp.query_interval, 12500);
    assert_eq!(b.bridge_id, "8000.00:11:22:33:44:55");
    assert!(!b.nf_call_iptables);
    assert!(b.slaves.is_empty());
}

#[test]
fn bridge_unknown_values_decode_to_unknown() {
    let b = get_bridge_info(&vec![BridgeAttr::StpState(7), BridgeAttr::VlanProtocol(0x0800)]).unwrap();
    assert_eq!(b.stp.state, BridgeStpState::Unknown);
    assert_eq!(b.vlan_filtering.vlan_protocol, BridgeVlanProtocol::Unknown);
    assert_eq!(get_bridge_info(&vec![]).unwrap(), BridgeInfo::default());
}
