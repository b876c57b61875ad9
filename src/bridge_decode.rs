use crate::bridge::{
    mcast_router_of, stp_state_of, vlan_protocol_of, BridgeInfo, BridgeMulticastIgmpInfo,
    BridgePortMulticastRouterType, BridgeStpInfo, BridgeStpState, BridgeVlanFilteringInfo,
    BridgeVlanProtocol,
};
use crate::port_decode::flag;
use vstd::prelude::*;

verus! {

/// One attribute of a bridge's own info container, with its value as the
/// kernel reports it. Flags are bytes, true when non-zero; identifiers and
/// the group address come already rendered as text.
#[derive(Debug, PartialEq, Clone)]
pub enum BridgeAttr {
    ForwardDelay(u32),
    HelloTime(u32),
    MaxAge(u32),
    AgeingTime(u32),
    StpState(u32),
    Priority(u16),
    VlanFiltering(u8),
    VlanProtocol(u16),
    GroupFwdMask(u16),
    RootId(String),
    BridgeId(String),
    RootPort(u16),
    RootPathCost(u32),
    TopologyChange(u8),
    TopologyChangeDetected(u8),
    HelloTimer(u64),
    TcnTimer(u64),
    TopologyChangeTimer(u64),
    GcTimer(u64),
    GroupAddr(String),
    McastRouter(u8),
    McastSnooping(u8),
    McastQueryUseIfaddr(u8),
    McastQuerier(u8),
    McastHashElasticity(u32),
    McastHashMax(u32),
    McastLastMemberCnt(u32),
    McastStartupQueryCnt(u32),
    McastLastMemberIntvl(u64),
    McastMembershipIntvl(u64),
    McastQuerierIntvl(u64),
    McastQueryIntvl(u64),
    McastQueryResponseIntvl(u64),
    McastStartupQueryIntvl(u64),
    McastStatsEnabled(u8),
    McastIgmpVersion(u8),
    McastMldVersion(u8),
    NfCallIptables(u8),
    NfCallIp6tables(u8),
    NfCallArptables(u8),
    VlanDefaultPvid(u16),
    VlanStatsEnabled(u8),
    VlanStatsPerHost(u8),
    MultiBoolOpt(u64),
    /// An attribute of a kind this library does not read.
    Other(u16),
}

/// `info` with attribute `a` applied.
#[verifier::opaque]
pub open spec fn apply_bridge_attr(info: BridgeInfo, a: BridgeAttr) -> BridgeInfo {
    match a {
        BridgeAttr::ForwardDelay(v) => BridgeInfo {
            stp: BridgeStpInfo { forward_delay: v, ..info.stp },
            ..info
        },
        BridgeAttr::HelloTime(v) => BridgeInfo {
            stp: BridgeStpInfo { hello_time: v, ..info.stp },
            ..info
        },
        BridgeAttr::MaxAge(v) => BridgeInfo {
            stp: BridgeStpInfo { max_age: v, ..info.stp },
            ..info
        },
        BridgeAttr::AgeingTime(v) => BridgeInfo { ageing_time: v, ..info },
        BridgeAttr::StpState(v) => BridgeInfo {
            stp: BridgeStpInfo { state: stp_state_of(v), ..info.stp },
            ..info
        },
        BridgeAttr::Priority(v) => BridgeInfo {
            stp: BridgeStpInfo { priority: v, ..info.stp },
            ..info
        },
        BridgeAttr::VlanFiltering(v) => BridgeInfo {
            vlan_filtering: BridgeVlanFilteringInfo { enabled: v != 0, ..info.vlan_filtering },
            ..info
        },
        BridgeAttr::VlanProtocol(v) => BridgeInfo {
            vlan_filtering: BridgeVlanFilteringInfo { vlan_protocol: vlan_protocol_of(v), ..info.vlan_filtering },
            ..info
        },
        BridgeAttr::GroupFwdMask(v) => BridgeInfo { group_fwd_mask: v, ..info },
        BridgeAttr::RootId(v) => BridgeInfo { root_id: v, ..info },
        BridgeAttr::BridgeId(v) => BridgeInfo { bridge_id: v, ..info },
        BridgeAttr::RootPort(v) => BridgeInfo { root_port: v, ..info },
        BridgeAttr::RootPathCost(v) => BridgeInfo { root_path_cost: v, ..info },
        BridgeAttr::TopologyChange(v) => BridgeInfo { topology_change: v != 0, ..info },
        BridgeAttr::TopologyChangeDetected(v) => BridgeInfo { topology_change_detected: v != 0, ..info },
        BridgeAttr::HelloTimer(v) => BridgeInfo { hello_timer: v, ..info },
        BridgeAttr::TcnTimer(v) => BridgeInfo { tcn_timer: v, ..info },
        BridgeAttr::TopologyChangeTimer(v) => BridgeInfo { topology_change_timer: v, ..info },
        BridgeAttr::GcTimer(v) => BridgeInfo { gc_timer: v, ..info },
        BridgeAttr::GroupAddr(v) => BridgeInfo { group_addr: v, ..info },
        BridgeAttr::McastRouter(v) => BridgeInfo {
            multicast_igmp: BridgeMulticastIgmpInfo { router: mcast_router_of(v), ..info.multicast_igmp },
            ..info
        },
        BridgeAttr::McastSnooping(v) => BridgeInfo {
            multicast_igmp: BridgeMulticastIgmpInfo { snooping: v != 0, ..info.multicast_igmp },
            ..info
        },
        BridgeAttr::McastQueryUseIfaddr(v) => BridgeInfo {
            multicast_igmp: BridgeMulticastIgmpInfo { query_use_ifaddr: v != 0, ..info.multicast_igmp },
            ..info
        },
        BridgeAttr::McastQuerier(v) => BridgeInfo {
            multicast_igmp: BridgeMulticastIgmpInfo { querier: v != 0, ..info.multicast_igmp },
            ..info
        },
        BridgeAttr::McastHashElasticity(v) => BridgeInfo {
            multicast_igmp: BridgeMulticastIgmpInfo { hash_elasticity: v, ..info.multicast_igmp },
            ..info
        },
        BridgeAttr::McastHashMax(v) => BridgeInfo {
            multicast_igmp: BridgeMulticastIgmpInfo { hash_max: v, ..info.multicast_igmp },
            ..info
        },
        BridgeAttr::McastLastMemberCnt(v) => BridgeInfo {
            multicast_igmp: BridgeMulticastIgmpInfo { last_member_count: v, ..info.multicast_igmp },
            ..info
        },
        BridgeAttr::McastStartupQueryCnt(v) => BridgeInfo {
            multicast_igmp: BridgeMulticastIgmpInfo { startup_query_count: v, ..info.multicast_igmp },
            ..info
        },
        BridgeAttr::McastLastMemberIntvl(v) => BridgeInfo {
            multicast_igmp: BridgeMulticastIgmpInfo { last_member_interval: v, ..info.multicast_igmp },
            ..info
        },
        BridgeAttr::McastMembershipIntvl(v) => BridgeInfo {
            multicast_igmp: BridgeMulticastIgmpInfo { membership_interval: v, ..info.multicast_igmp },
            ..info
        },
        BridgeAttr::McastQuerierIntvl(v) => BridgeInfo {
            multicast_igmp: BridgeMulticastIgmpInfo { querier_interval: v, ..info.multicast_igmp },
            ..info
        },
        BridgeAttr::McastQueryIntvl(v) => BridgeInfo {
            multicast_igmp: BridgeMulticastIgmpInfo { query_interval: v, ..info.multicast_igmp },
            ..info
        },
        BridgeAttr::McastQueryResponseIntvl(v) => BridgeInfo {
            multicast_igmp: BridgeMulticastIgmpInfo { query_response_interval: v, ..info.multicast_igmp },
            ..info
        },
        BridgeAttr::McastStartupQueryIntvl(v) => BridgeInfo {
            multicast_igmp: BridgeMulticastIgmpInfo { startup_query_interval: v, ..info.multicast_igmp },
            ..info
        },
        BridgeAttr::McastStatsEnabled(v) => BridgeInfo {
            multicast_igmp: BridgeMulticastIgmpInfo { stats_enabled: v != 0, ..info.multicast_igmp },
            ..info
        },
        BridgeAttr::McastIgmpVersion(v) => BridgeInfo {
            multicast_igmp: BridgeMulticastIgmpInfo { igmp_version: v, ..info.multicast_igmp },
            ..info
        },
        BridgeAttr::McastMldVersion(v) => BridgeInfo {
            multicast_igmp: BridgeMulticastIgmpInfo { mld_version: v, ..info.multicast_igmp },
            ..info
        },
        BridgeAttr::NfCallIptables(v) => BridgeInfo { nf_call_iptables: v != 0, ..info },
        BridgeAttr::NfCallIp6tables(v) => BridgeInfo { nf_call_ip6tables: v != 0, ..info },
        BridgeAttr::NfCallArptables(v) => BridgeInfo { nf_call_arptables: v != 0, ..info },
        BridgeAttr::VlanDefaultPvid(v) => BridgeInfo {
            vlan_filtering: BridgeVlanFilteringInfo { default_pvid: Some(v), ..info.vlan_filtering },
            ..info
        },
        BridgeAttr::VlanStatsEnabled(v) => BridgeInfo {
            vlan_filtering: BridgeVlanFilteringInfo { vlan_stats_enabled: v != 0, ..info.vlan_filtering },
            ..info
        },
        BridgeAttr::VlanStatsPerHost(v) => BridgeInfo {
            vlan_filtering: BridgeVlanFilteringInfo { vlan_stats_per_host: v != 0, ..info.vlan_filtering },
            ..info
        },
        BridgeAttr::MultiBoolOpt(v) => BridgeInfo { multi_bool_opt: v, ..info },
        BridgeAttr::Other(_) => info,
    }
}

/// `info` with the attributes applied in order: a later attribute of a kind
/// overrides an earlier one.
pub open spec fn apply_bridge_attrs(info: BridgeInfo, attrs: Seq<BridgeAttr>) -> BridgeInfo
    decreases attrs.len(),
{
    if attrs.len() == 0 {
        info
    } else {
        apply_bridge_attr(apply_bridge_attrs(info, attrs.drop_last()), attrs.last())
    }
}

#[verifier::rlimit(40)]
fn apply_stp_attr(info: &mut BridgeInfo, a: &BridgeAttr)
    requires
        a is ForwardDelay || a is HelloTime || a is MaxAge || a is AgeingTime || a is StpState || a is Priority || a is VlanFiltering || a is VlanProtocol,
    ensures
        *final(info) == apply_bridge_attr(*old(info), *a),
{
    reveal(apply_bridge_attr);
    match a {
        BridgeAttr::ForwardDelay(v) => info.stp.forward_delay = *v,
        BridgeAttr::HelloTime(v) => info.stp.hello_time = *v,
        BridgeAttr::MaxAge(v) => info.stp.max_age = *v,
        BridgeAttr::AgeingTime(v) => info.ageing_time = *v,
        BridgeAttr::StpState(v) => info.stp.state = BridgeStpState::from(*v),
        BridgeAttr::Priority(v) => info.stp.priority = *v,
        BridgeAttr::VlanFiltering(v) => info.vlan_filtering.enabled = flag(*v),
        BridgeAttr::VlanProtocol(v) => info.vlan_filtering.vlan_protocol = BridgeVlanProtocol::from(*v),
        _ => {},
    }
}

#[verifier::rlimit(40)]
fn apply_topology_attr(info: &mut BridgeInfo, a: &BridgeAttr)
    requires
        a is GroupFwdMask || a is RootId || a is BridgeId || a is RootPort || a is RootPathCost || a is TopologyChange || a is TopologyChangeDetected || a is HelloTimer,
    ensures
        *final(info) == apply_bridge_attr(*old(info), *a),
{
    reveal(apply_bridge_attr);
    match a {
        BridgeAttr::GroupFwdMask(v) => info.group_fwd_mask = *v,
        BridgeAttr::RootId(v) => info.root_id = v.clone(),
        BridgeAttr::BridgeId(v) => info.bridge_id = v.clone(),
        BridgeAttr::RootPort(v) => info.root_port = *v,
        BridgeAttr::RootPathCost(v) => info.root_path_cost = *v,
        BridgeAttr::TopologyChange(v) => info.topology_change = flag(*v),
        BridgeAttr::TopologyChangeDetected(v) => info.topology_change_detected = flag(*v),
        BridgeAttr::HelloTimer(v) => info.hello_timer = *v,
        _ => {},
    }
}

#[verifier::rlimit(40)]
fn apply_timers_attr(info: &mut BridgeInfo, a: &BridgeAttr)
    requires
        a is TcnTimer || a is TopologyChangeTimer || a is GcTimer || a is GroupAddr || a is McastRouter || a is McastSnooping || a is McastQueryUseIfaddr || a is McastQuerier,
    ensures
        *final(info) == apply_bridge_attr(*old(info), *a),
{
    reveal(apply_bridge_attr);
    match a {
        BridgeAttr::TcnTimer(v) => info.tcn_timer = *v,
        BridgeAttr::TopologyChangeTimer(v) => info.topology_change_timer = *v,
        BridgeAttr::GcTimer(v) => info.gc_timer = *v,
        BridgeAttr::GroupAddr(v) => info.group_addr = v.clone(),
        BridgeAttr::McastRouter(v) => info.multicast_igmp.router = BridgePortMulticastRouterType::from(*v),
        BridgeAttr::McastSnooping(v) => info.multicast_igmp.snooping = flag(*v),
        BridgeAttr::McastQueryUseIfaddr(v) => info.multicast_igmp.query_use_ifaddr = flag(*v),
        BridgeAttr::McastQuerier(v) => info.multicast_igmp.querier = flag(*v),
        _ => {},
    }
}

#[verifier::rlimit(40)]
fn apply_igmp_attr(info: &mut BridgeInfo, a: &BridgeAttr)
    requires
        a is McastHashElasticity || a is McastHashMax || a is McastLastMemberCnt || a is McastStartupQueryCnt || a is McastLastMemberIntvl || a is McastMembershipIntvl || a is McastQuerierIntvl || a is McastQueryIntvl,
    ensures
        *final(info) == apply_bridge_attr(*old(info), *a),
{
    reveal(apply_bridge_attr);
    match a {
        BridgeAttr::McastHashElasticity(v) => info.multicast_igmp.hash_elasticity = *v,
        BridgeAttr::McastHashMax(v) => info.multicast_igmp.hash_max = *v,
        BridgeAttr::McastLastMemberCnt(v) => info.multicast_igmp.last_member_count = *v,
        BridgeAttr::McastStartupQueryCnt(v) => info.multicast_igmp.startup_query_count = *v,
        BridgeAttr::McastLastMemberIntvl(v) => info.multicast_igmp.last_member_interval = *v,
        BridgeAttr::McastMembershipIntvl(v) => info.multicast_igmp.membership_interval = *v,
        BridgeAttr::McastQuerierIntvl(v) => info.multicast_igmp.querier_interval = *v,
        BridgeAttr::McastQueryIntvl(v) => info.multicast_igmp.query_interval = *v,
        _ => {},
    }
}

#[verifier::rlimit(40)]
fn apply_intervals_attr(info: &mut BridgeInfo, a: &BridgeAttr)
    requires
        a is McastQueryResponseIntvl || a is McastStartupQueryIntvl || a is McastStatsEnabled || a is McastIgmpVersion || a is McastMldVersion || a is NfCallIptables || a is NfCallIp6tables || a is NfCallArptables,
    ensures
        *final(info) == apply_bridge_attr(*old(info), *a),
{
    reveal(apply_bridge_attr);
    match a {
        BridgeAttr::McastQueryResponseIntvl(v) => info.multicast_igmp.query_response_interval = *v,
        BridgeAttr::McastStartupQueryIntvl(v) => info.multicast_igmp.startup_query_interval = *v,
        BridgeAttr::McastStatsEnabled(v) => info.multicast_igmp.stats_enabled = flag(*v),
        BridgeAttr::McastIgmpVersion(v) => info.multicast_igmp.igmp_version = *v,
        BridgeAttr::McastMldVersion(v) => info.multicast_igmp.mld_version = *v,
        BridgeAttr::NfCallIptables(v) => info.nf_call_iptables = flag(*v),
        BridgeAttr::NfCallIp6tables(v) => info.nf_call_ip6tables = flag(*v),
        BridgeAttr::NfCallArptables(v) => info.nf_call_arptables = flag(*v),
        _ => {},
    }
}

#[verifier::rlimit(40)]
fn apply_filtering_attr(info: &mut BridgeInfo, a: &BridgeAttr)
    requires
        a is VlanDefaultPvid || a is VlanStatsEnabled || a is VlanStatsPerHost || a is MultiBoolOpt,
    ensures
        *final(info) == apply_bridge_attr(*old(info), *a),
{
    reveal(apply_bridge_attr);
    match a {
        BridgeAttr::VlanDefaultPvid(v) => info.vlan_filtering.default_pvid = Some(*v),
        BridgeAttr::VlanStatsEnabled(v) => info.vlan_filtering.vlan_stats_enabled = flag(*v),
        BridgeAttr::VlanStatsPerHost(v) => info.vlan_filtering.vlan_stats_per_host = flag(*v),
        BridgeAttr::MultiBoolOpt(v) => info.multi_bool_opt = *v,
        _ => {},
    }
}

/// Applies one attribute to `info`.
fn apply_one_bridge_attr(info: &mut BridgeInfo, a: &BridgeAttr)
    ensures
        *final(info) == apply_bridge_attr(*old(info), *a),
{
    match a {
        BridgeAttr::ForwardDelay(_) | BridgeAttr::HelloTime(_) | BridgeAttr::MaxAge(_) | BridgeAttr::AgeingTime(_) | BridgeAttr::StpState(_) | BridgeAttr::Priority(_) | BridgeAttr::VlanFiltering(_) | BridgeAttr::VlanProtocol(_) => apply_stp_attr(info, a),
        BridgeAttr::GroupFwdMask(_) | BridgeAttr::RootId(_) | BridgeAttr::BridgeId(_) | BridgeAttr::RootPort(_) | BridgeAttr::RootPathCost(_) | BridgeAttr::TopologyChange(_) | BridgeAttr::TopologyChangeDetected(_) | BridgeAttr::HelloTimer(_) => apply_topology_attr(info, a),
        BridgeAttr::TcnTimer(_) | BridgeAttr::TopologyChangeTimer(_) | BridgeAttr::GcTimer(_) | BridgeAttr::GroupAddr(_) | BridgeAttr::McastRouter(_) | BridgeAttr::McastSnooping(_) | BridgeAttr::McastQueryUseIfaddr(_) | BridgeAttr::McastQuerier(_) => apply_timers_attr(info, a),
        BridgeAttr::McastHashElasticity(_) | BridgeAttr::McastHashMax(_) | BridgeAttr::McastLastMemberCnt(_) | BridgeAttr::McastStartupQueryCnt(_) | BridgeAttr::McastLastMemberIntvl(_) | BridgeAttr::McastMembershipIntvl(_) | BridgeAttr::McastQuerierIntvl(_) | BridgeAttr::McastQueryIntvl(_) => apply_igmp_attr(info, a),
        BridgeAttr::McastQueryResponseIntvl(_) | BridgeAttr::McastStartupQueryIntvl(_) | BridgeAttr::McastStatsEnabled(_) | BridgeAttr::McastIgmpVersion(_) | BridgeAttr::McastMldVersion(_) | BridgeAttr::NfCallIptables(_) | BridgeAttr::NfCallIp6tables(_) | BridgeAttr::NfCallArptables(_) => apply_intervals_attr(info, a),
        BridgeAttr::VlanDefaultPvid(_) | BridgeAttr::VlanStatsEnabled(_) | BridgeAttr::VlanStatsPerHost(_) | BridgeAttr::MultiBoolOpt(_) => apply_filtering_attr(info, a),
        BridgeAttr::Other(_) => {
            reveal(apply_bridge_attr);
        },
    }
}

/// Applies the attributes in order to `info`.
pub fn apply_all_bridge_attrs(info: &mut BridgeInfo, attrs: &Vec<BridgeAttr>)
    ensures
        *final(info) == apply_bridge_attrs(*old(info), attrs@),
{
    let ghost base = *info;
    let mut k: usize = 0;
    while k < attrs.len()
        invariant
            k <= attrs@.len(),
            *info == apply_bridge_attrs(base, attrs@.subrange(0, k as int)),
        decreases attrs@.len() - k,
    {
        assert(attrs@.subrange(0, k + 1).drop_last() =~= attrs@.subrange(0, k as int));
        apply_one_bridge_attr(info, &attrs[k]);
        k += 1;
    }
    assert(attrs@.subrange(0, attrs@.len() as int) =~= attrs@);
}

/// Decodes a bridge's own info container into a bridge record; fields that no
/// attribute reports keep their "not reported" value, and the slave list is
/// left empty for the reconciler to fill.
pub fn get_bridge_info(attrs: &Vec<BridgeAttr>) -> (r: Option<BridgeInfo>)
    ensures
        r.is_some(),
        exists|base: BridgeInfo| base.is_default() && r.unwrap() == apply_bridge_attrs(base, attrs@),
{
    let mut info = BridgeInfo::default();
    let ghost base = info;
    apply_all_bridge_attrs(&mut info, attrs);
    assert(base.is_default() && info == apply_bridge_attrs(base, attrs@));
    Some(info)
}

} // verus!
