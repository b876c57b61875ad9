use vstd::prelude::*;

verus! {

/// Ethertype of IEEE 802.1Q VLAN tagging.
pub const ETH_P_8021Q: u16 = 0x8100;

/// Ethertype of IEEE 802.1ad (QinQ) VLAN tagging.
pub const ETH_P_8021AD: u16 = 0x88A8;

/// Spanning-tree mode of a bridge.
#[derive(Debug, PartialEq, Eq, Clone, Copy, Structural)]
pub enum BridgeStpState {
    Disabled,
    KernelStp,
    UserStp,
    Unknown,
}

/// Largest wire value with a named `BridgeStpState` variant.
pub const LAST_STP_STATE: u32 = 2;

/// The variant that wire value `d` denotes.
pub open spec fn stp_state_of(d: u32) -> BridgeStpState {
    if d == 0 {
        BridgeStpState::Disabled
    } else if d == 1 {
        BridgeStpState::KernelStp
    } else if d == 2 {
        BridgeStpState::UserStp
    } else {
        BridgeStpState::Unknown
    }
}

impl BridgeStpState {
    /// Wire value of a named variant; `None` for `Unknown`.
    pub open spec fn wire(self) -> Option<u32> {
        match self {
            BridgeStpState::Disabled => Some(0),
            BridgeStpState::KernelStp => Some(1),
            BridgeStpState::UserStp => Some(2),
            BridgeStpState::Unknown => None,
        }
    }
}

impl Default for BridgeStpState {
    fn default() -> (r: Self)
        ensures
            r == BridgeStpState::Unknown,
    {
        BridgeStpState::Unknown
    }
}

impl From<u32> for BridgeStpState {
    fn from(d: u32) -> (r: Self)
        ensures
            r == stp_state_of(d),
            d <= LAST_STP_STATE ==> r.wire() == Some(d),
            d > LAST_STP_STATE ==> r == BridgeStpState::Unknown,
    {
        match d {
            0 => BridgeStpState::Disabled,
            1 => BridgeStpState::KernelStp,
            2 => BridgeStpState::UserStp,
            _ => BridgeStpState::Unknown,
        }
    }
}

impl vstd::std_specs::convert::FromSpecImpl<u32> for BridgeStpState {
    open spec fn obeys_from_spec() -> bool {
        true
    }

    open spec fn from_spec(d: u32) -> BridgeStpState {
        stp_state_of(d)
    }
}

/// VLAN tagging protocol of a VLAN-filtering bridge.
#[derive(Debug, PartialEq, Eq, Clone, Copy, Structural)]
pub enum BridgeVlanProtocol {
    Ieee8021Q,
    Ieee8021AD,
    Unknown,
}

/// The protocol that ethertype `d` denotes.
pub open spec fn vlan_protocol_of(d: u16) -> BridgeVlanProtocol {
    if d == ETH_P_8021Q {
        BridgeVlanProtocol::Ieee8021Q
    } else if d == ETH_P_8021AD {
        BridgeVlanProtocol::Ieee8021AD
    } else {
        BridgeVlanProtocol::Unknown
    }
}

impl Default for BridgeVlanProtocol {
    fn default() -> (r: Self)
        ensures
            r == BridgeVlanProtocol::Unknown,
    {
        BridgeVlanProtocol::Unknown
    }
}

impl From<u16> for BridgeVlanProtocol {
    fn from(d: u16) -> (r: Self)
        ensures
            r == vlan_protocol_of(d),
    {
        if d == ETH_P_8021Q {
            BridgeVlanProtocol::Ieee8021Q
        } else if d == ETH_P_8021AD {
            BridgeVlanProtocol::Ieee8021AD
        } else {
            BridgeVlanProtocol::Unknown
        }
    }
}

impl vstd::std_specs::convert::FromSpecImpl<u16> for BridgeVlanProtocol {
    open spec fn obeys_from_spec() -> bool {
        true
    }

    open spec fn from_spec(d: u16) -> BridgeVlanProtocol {
        vlan_protocol_of(d)
    }
}

/// Spanning-tree state of a bridge port.
#[derive(Debug, PartialEq, Eq, Clone, Copy, Structural)]
pub enum BridgePortStpState {
    Disabled,
    Listening,
    Learning,
    Forwarding,
    Blocking,
    Unknown,
}

/// Largest wire value with a named `BridgePortStpState` variant.
pub const LAST_PORT_STP_STATE: u8 = 4;

/// The variant that wire value `d` denotes.
pub open spec fn port_stp_state_of(d: u8) -> BridgePortStpState {
    if d == 0 {
        BridgePortStpState::Disabled
    } else if d == 1 {
        BridgePortStpState::Listening
    } else if d == 2 {
        BridgePortStpState::Learning
    } else if d == 3 {
        BridgePortStpState::Forwarding
    } else if d == 4 {
        BridgePortStpState::Blocking
    } else {
        BridgePortStpState::Unknown
    }
}

impl BridgePortStpState {
    /// Wire value of a named variant; `None` for `Unknown`.
    pub open spec fn wire(self) -> Option<u8> {
        match self {
            BridgePortStpState::Disabled => Some(0),
            BridgePortStpState::Listening => Some(1),
            BridgePortStpState::Learning => Some(2),
            BridgePortStpState::Forwarding => Some(3),
            BridgePortStpState::Blocking => Some(4),
            BridgePortStpState::Unknown => None,
        }
    }
}

impl Default for BridgePortStpState {
    fn default() -> (r: Self)
        ensures
            r == BridgePortStpState::Unknown,
    {
        BridgePortStpState::Unknown
    }
}

impl From<u8> for BridgePortStpState {
    fn from(d: u8) -> (r: Self)
        ensures
            r == port_stp_state_of(d),
            d <= LAST_PORT_STP_STATE ==> r.wire() == Some(d),
            d > LAST_PORT_STP_STATE ==> r == BridgePortStpState::Unknown,
    {
        match d {
            0 => BridgePortStpState::Disabled,
            1 => BridgePortStpState::Listening,
            2 => BridgePortStpState::Learning,
            3 => BridgePortStpState::Forwarding,
            4 => BridgePortStpState::Blocking,
            _ => BridgePortStpState::Unknown,
        }
    }
}

impl vstd::std_specs::convert::FromSpecImpl<u8> for BridgePortStpState {
    open spec fn obeys_from_spec() -> bool {
        true
    }

    open spec fn from_spec(d: u8) -> BridgePortStpState {
        port_stp_state_of(d)
    }
}

/// Multicast-router mode of a bridge or bridge port.
#[derive(Debug, PartialEq, Eq, Clone, Copy, Structural)]
pub enum BridgePortMulticastRouterType {
    Disabled,
    TempQuery,
    Perm,
    Temp,
    Unknown,
}

/// Largest wire value with a named `BridgePortMulticastRouterType` variant.
pub const LAST_PORT_MDB_RTR_TYPE: u8 = 3;

/// The variant that wire value `d` denotes.
pub open spec fn mcast_router_of(d: u8) -> BridgePortMulticastRouterType {
    if d == 0 {
        BridgePortMulticastRouterType::Disabled
    } else if d == 1 {
        BridgePortMulticastRouterType::TempQuery
    } else if d == 2 {
        BridgePortMulticastRouterType::Perm
    } else if d == 3 {
        BridgePortMulticastRouterType::Temp
    } else {
        BridgePortMulticastRouterType::Unknown
    }
}

impl BridgePortMulticastRouterType {
    /// Wire value of a named variant; `None` for `Unknown`.
    pub open spec fn wire(self) -> Option<u8> {
        match self {
            BridgePortMulticastRouterType::Disabled => Some(0),
            BridgePortMulticastRouterType::TempQuery => Some(1),
            BridgePortMulticastRouterType::Perm => Some(2),
            BridgePortMulticastRouterType::Temp => Some(3),
            BridgePortMulticastRouterType::Unknown => None,
        }
    }
}

impl Default for BridgePortMulticastRouterType {
    fn default() -> (r: Self)
        ensures
            r == BridgePortMulticastRouterType::Unknown,
    {
        BridgePortMulticastRouterType::Unknown
    }
}

impl From<u8> for BridgePortMulticastRouterType {
    fn from(d: u8) -> (r: Self)
        ensures
            r == mcast_router_of(d),
            d <= LAST_PORT_MDB_RTR_TYPE ==> r.wire() == Some(d),
            d > LAST_PORT_MDB_RTR_TYPE ==> r == BridgePortMulticastRouterType::Unknown,
    {
        match d {
            0 => BridgePortMulticastRouterType::Disabled,
            1 => BridgePortMulticastRouterType::TempQuery,
            2 => BridgePortMulticastRouterType::Perm,
            3 => BridgePortMulticastRouterType::Temp,
            _ => BridgePortMulticastRouterType::Unknown,
        }
    }
}

impl vstd::std_specs::convert::FromSpecImpl<u8> for BridgePortMulticastRouterType {
    open spec fn obeys_from_spec() -> bool {
        true
    }

    open spec fn from_spec(d: u8) -> BridgePortMulticastRouterType {
        mcast_router_of(d)
    }
}

/// Spanning-tree parameters of a bridge.
#[derive(Debug, PartialEq, Clone, Default)]
pub struct BridgeStpInfo {
    pub state: BridgeStpState,
    pub hello_time: u32,
    pub forward_delay: u32,
    pub max_age: u32,
    pub priority: u16,
}

/// VLAN-filtering parameters of a bridge.
#[derive(Debug, PartialEq, Clone, Default)]
pub struct BridgeVlanFilteringInfo {
    pub enabled: bool,
    pub vlan_protocol: BridgeVlanProtocol,
    pub default_pvid: Option<u16>,
    pub vlan_stats_enabled: bool,
    pub vlan_stats_per_host: bool,
}

/// IGMP/MLD snooping parameters of a bridge.
#[derive(Debug, PartialEq, Clone, Default)]
pub struct BridgeMulticastIgmpInfo {
    pub router: BridgePortMulticastRouterType,
    pub snooping: bool,
    pub query_use_ifaddr: bool,
    pub querier: bool,
    pub stats_enabled: bool,
    pub hash_elasticity: u32,
    pub hash_max: u32,
    pub last_member_count: u32,
    pub startup_query_count: u32,
    pub last_member_interval: u64,
    pub membership_interval: u64,
    pub querier_interval: u64,
    pub query_interval: u64,
    pub query_response_interval: u64,
    pub startup_query_interval: u64,
    pub igmp_version: u8,
    pub mld_version: u8,
}

/// Bridge-wide state, owned by the interface record of the bridge device.
///
/// `slaves` is not decoded: the reconciler derives it from the ports' master
/// pointers.
#[derive(Debug, PartialEq, Clone)]
pub struct BridgeInfo {
    pub slaves: Vec<String>,
    pub stp: BridgeStpInfo,
    pub ageing_time: u32,
    pub bridge_id: String,
    pub group_fwd_mask: u16,
    pub root_id: String,
    pub root_port: u16,
    pub root_path_cost: u32,
    pub topology_change: bool,
    pub topology_change_detected: bool,
    pub hello_timer: u64,
    pub tcn_timer: u64,
    pub topology_change_timer: u64,
    pub multicast_igmp: BridgeMulticastIgmpInfo,
    pub gc_timer: u64,
    pub group_addr: String,
    pub nf_call_iptables: bool,
    pub nf_call_ip6tables: bool,
    pub nf_call_arptables: bool,
    pub vlan_filtering: BridgeVlanFilteringInfo,
    pub multi_bool_opt: u64,
}

impl BridgeInfo {
    /// Every field holds its value for "not reported": zero, false, empty,
    /// absent, or `Unknown`.
    pub open spec fn is_default(self) -> bool {
        &&& self.slaves@.len() == 0
        &&& self.stp == (BridgeStpInfo {
            state: BridgeStpState::Unknown,
            hello_time: 0,
            forward_delay: 0,
            max_age: 0,
            priority: 0,
        })
        &&& self.ageing_time == 0
        &&& self.bridge_id@.len() == 0
        &&& self.group_fwd_mask == 0
        &&& self.root_id@.len() == 0
        &&& self.root_port == 0
        &&& self.root_path_cost == 0
        &&& !self.topology_change
        &&& !self.topology_change_detected
        &&& self.hello_timer == 0
        &&& self.tcn_timer == 0
        &&& self.topology_change_timer == 0
        &&& self.multicast_igmp == (BridgeMulticastIgmpInfo {
            router: BridgePortMulticastRouterType::Unknown,
            snooping: false,
            query_use_ifaddr: false,
            querier: false,
            stats_enabled: false,
            hash_elasticity: 0,
            hash_max: 0,
            last_member_count: 0,
            startup_query_count: 0,
            last_member_interval: 0,
            membership_interval: 0,
            querier_interval: 0,
            query_interval: 0,
            query_response_interval: 0,
            startup_query_interval: 0,
            igmp_version: 0,
            mld_version: 0,
        })
        &&& self.gc_timer == 0
        &&& self.group_addr@.len() == 0
        &&& !self.nf_call_iptables
        &&& !self.nf_call_ip6tables
        &&& !self.nf_call_arptables
        &&& self.vlan_filtering == (BridgeVlanFilteringInfo {
            enabled: false,
            vlan_protocol: BridgeVlanProtocol::Unknown,
            default_pvid: None,
            vlan_stats_enabled: false,
            vlan_stats_per_host: false,
        })
        &&& self.multi_bool_opt == 0
    }
}

impl Default for BridgeInfo {
    fn default() -> (r: Self)
        ensures
            r.is_default(),
    {
        BridgeInfo {
            slaves: Vec::new(),
            stp: BridgeStpInfo {
                state: BridgeStpState::Unknown,
                hello_time: 0,
                forward_delay: 0,
                max_age: 0,
                priority: 0,
            },
            ageing_time: 0,
            bridge_id: String::new(),
            group_fwd_mask: 0,
            root_id: String::new(),
            root_port: 0,
            root_path_cost: 0,
            topology_change: false,
            topology_change_detected: false,
            hello_timer: 0,
            tcn_timer: 0,
            topology_change_timer: 0,
            multicast_igmp: BridgeMulticastIgmpInfo {
                router: BridgePortMulticastRouterType::Unknown,
                snooping: false,
                query_use_ifaddr: false,
                querier: false,
                stats_enabled: false,
                hash_elasticity: 0,
                hash_max: 0,
                last_member_count: 0,
                startup_query_count: 0,
                last_member_interval: 0,
                membership_interval: 0,
                querier_interval: 0,
                query_interval: 0,
                query_response_interval: 0,
                startup_query_interval: 0,
                igmp_version: 0,
                mld_version: 0,
            },
            gc_timer: 0,
            group_addr: String::new(),
            nf_call_iptables: false,
            nf_call_ip6tables: false,
            nf_call_arptables: false,
            vlan_filtering: BridgeVlanFilteringInfo {
                enabled: false,
                vlan_protocol: BridgeVlanProtocol::Unknown,
                default_pvid: None,
                vlan_stats_enabled: false,
                vlan_stats_per_host: false,
            },
            multi_bool_opt: 0,
        }
    }
}

/// One VLAN membership of a port: a single id or an inclusive id range.
#[derive(Debug, PartialEq, Eq, Clone, Copy, Default)]
pub struct BridgeVlanEntry {
    pub vid: Option<u16>,
    pub vid_range: Option<(u16, u16)>,
    /// The port's PVID, untagged on ingress.
    pub is_pvid: bool,
    pub is_egress_untagged: bool,
}

/// Per-port state, owned by the interface record of a bridged device.
///
/// `backup_port` holds the backup port's interface index in decimal until the
/// reconciler replaces it by that interface's name; it is empty when the port
/// has no backup port.
#[derive(Debug, PartialEq, Clone)]
pub struct BridgePortInfo {
    pub stp_state: BridgePortStpState,
    pub stp_priority: u16,
    pub stp_path_cost: u32,
    pub hairpin_mode: bool,
    pub bpdu_guard: bool,
    pub root_block: bool,
    pub multicast_fast_leave: bool,
    pub learning: bool,
    pub unicast_flood: bool,
    pub proxyarp: bool,
    pub proxyarp_wifi: bool,
    pub designated_root: String,
    pub designated_bridge: String,
    pub designated_port: u16,
    pub designated_cost: u16,
    pub port_id: String,
    pub port_no: String,
    pub change_ack: bool,
    pub config_pending: bool,
    pub message_age_timer: u64,
    pub forward_delay_timer: u64,
    pub hold_timer: u64,
    pub multicast_router: BridgePortMulticastRouterType,
    pub multicast_flood: bool,
    pub multicast_to_unicast: bool,
    pub vlan_tunnel: bool,
    pub broadcast_flood: bool,
    pub group_fwd_mask: u16,
    pub neigh_suppress: bool,
    pub isolated: bool,
    pub backup_port: String,
    pub vlans: Option<Vec<BridgeVlanEntry>>,
}

impl BridgePortInfo {
    /// Every field holds its value for "not reported": zero, false, empty,
    /// absent, or `Unknown`.
    pub open spec fn is_default(self) -> bool {
        &&& self.stp_state == BridgePortStpState::Unknown
        &&& self.stp_priority == 0
        &&& self.stp_path_cost == 0
        &&& !self.hairpin_mode
        &&& !self.bpdu_guard
        &&& !self.root_block
        &&& !self.multicast_fast_leave
        &&& !self.learning
        &&& !self.unicast_flood
        &&& !self.proxyarp
        &&& !self.proxyarp_wifi
        &&& self.designated_root@.len() == 0
        &&& self.designated_bridge@.len() == 0
        &&& self.designated_port == 0
        &&& self.designated_cost == 0
        &&& self.port_id@.len() == 0
        &&& self.port_no@.len() == 0
        &&& !self.change_ack
        &&& !self.config_pending
        &&& self.message_age_timer == 0
        &&& self.forward_delay_timer == 0
        &&& self.hold_timer == 0
        &&& self.multicast_router == BridgePortMulticastRouterType::Unknown
        &&& !self.multicast_flood
        &&& !self.multicast_to_unicast
        &&& !self.vlan_tunnel
        &&& !self.broadcast_flood
        &&& self.group_fwd_mask == 0
        &&& !self.neigh_suppress
        &&& !self.isolated
        &&& self.backup_port@.len() == 0
        &&& self.vlans.is_none()
    }
}

impl Default for BridgePortInfo {
    fn default() -> (r: Self)
        ensures
            r.is_default(),
    {
        BridgePortInfo {
            stp_state: BridgePortStpState::Unknown,
            stp_priority: 0,
            stp_path_cost: 0,
            hairpin_mode: false,
            bpdu_guard: false,
            root_block: false,
            multicast_fast_leave: false,
            learning: false,
            unicast_flood: false,
            proxyarp: false,
            proxyarp_wifi: false,
            designated_root: String::new(),
            designated_bridge: String::new(),
            designated_port: 0,
            designated_cost: 0,
            port_id: String::new(),
            port_no: String::new(),
            change_ack: false,
            config_pending: false,
            message_age_timer: 0,
            forward_delay_timer: 0,
            hold_timer: 0,
            multicast_router: BridgePortMulticastRouterType::Unknown,
            multicast_flood: false,
            multicast_to_unicast: false,
            vlan_tunnel: false,
            broadcast_flood: false,
            group_fwd_mask: 0,
            neigh_suppress: false,
            isolated: false,
            backup_port: String::new(),
            vlans: None,
        }
    }
}

} // verus!
