use crate::bridge::{
    mcast_router_of, port_stp_state_of, BridgePortInfo, BridgePortMulticastRouterType,
    BridgePortStpState,
};
use crate::tidy::{decimal, index_text};
use vstd::prelude::*;

verus! {

/// One attribute of a bridge port's info container, with its value as the
/// kernel reports it. Flags are bytes, true when non-zero; bridge and port
/// identifiers come already rendered as text.
#[derive(Debug, PartialEq, Clone)]
pub enum BridgePortAttr {
    State(u8),
    Priority(u16),
    Cost(u32),
    Mode(u8),
    Guard(u8),
    Protect(u8),
    FastLeave(u8),
    Learning(u8),
    UnicastFlood(u8),
    Proxyarp(u8),
    ProxyarpWifi(u8),
    RootId(String),
    BridgeId(String),
    DesignatedPort(u16),
    DesignatedCost(u16),
    Id(String),
    No(String),
    TopologyChangeAck(u8),
    ConfigPending(u8),
    MessageAgeTimer(u64),
    ForwardDelayTimer(u64),
    HoldTimer(u64),
    MulticastRouter(u8),
    McastFlood(u8),
    McastToUcast(u8),
    VlanTunnel(u8),
    BcastFlood(u8),
    GroupFwdMask(u16),
    NeighSuppress(u8),
    Isolated(u8),
    /// Interface index of the backup port.
    BackupPort(u32),
    /// An attribute of a kind this library does not read.
    Other(u16),
}

/// `info` with attribute `a` applied; the backup port is handled by
/// `last_backup`.
#[verifier::opaque]
pub open spec fn apply_port_attr(info: BridgePortInfo, a: BridgePortAttr) -> BridgePortInfo {
    match a {
        BridgePortAttr::State(v) => BridgePortInfo { stp_state: port_stp_state_of(v), ..info },
        BridgePortAttr::Priority(v) => BridgePortInfo { stp_priority: v, ..info },
        BridgePortAttr::Cost(v) => BridgePortInfo { stp_path_cost: v, ..info },
        BridgePortAttr::Mode(v) => BridgePortInfo { hairpin_mode: v != 0, ..info },
        BridgePortAttr::Guard(v) => BridgePortInfo { bpdu_guard: v != 0, ..info },
        BridgePortAttr::Protect(v) => BridgePortInfo { root_block: v != 0, ..info },
        BridgePortAttr::FastLeave(v) => BridgePortInfo { multicast_fast_leave: v != 0, ..info },
        BridgePortAttr::Learning(v) => BridgePortInfo { learning: v != 0, ..info },
        BridgePortAttr::UnicastFlood(v) => BridgePortInfo { unicast_flood: v != 0, ..info },
        BridgePortAttr::Proxyarp(v) => BridgePortInfo { proxyarp: v != 0, ..info },
        BridgePortAttr::ProxyarpWifi(v) => BridgePortInfo { proxyarp_wifi: v != 0, ..info },
        BridgePortAttr::RootId(v) => BridgePortInfo { designated_root: v, ..info },
        BridgePortAttr::BridgeId(v) => BridgePortInfo { designated_bridge: v, ..info },
        BridgePortAttr::DesignatedPort(v) => BridgePortInfo { designated_port: v, ..info },
        BridgePortAttr::DesignatedCost(v) => BridgePortInfo { designated_cost: v, ..info },
        BridgePortAttr::Id(v) => BridgePortInfo { port_id: v, ..info },
        BridgePortAttr::No(v) => BridgePortInfo { port_no: v, ..info },
        BridgePortAttr::TopologyChangeAck(v) => BridgePortInfo { change_ack: v != 0, ..info },
        BridgePortAttr::ConfigPending(v) => BridgePortInfo { config_pending: v != 0, ..info },
        BridgePortAttr::MessageAgeTimer(v) => BridgePortInfo { message_age_timer: v, ..info },
        BridgePortAttr::ForwardDelayTimer(v) => BridgePortInfo { forward_delay_timer: v, ..info },
        BridgePortAttr::HoldTimer(v) => BridgePortInfo { hold_timer: v, ..info },
        BridgePortAttr::MulticastRouter(v) => BridgePortInfo {
            multicast_router: mcast_router_of(v),
            ..info
        },
        BridgePortAttr::McastFlood(v) => BridgePortInfo { multicast_flood: v != 0, ..info },
        BridgePortAttr::McastToUcast(v) => BridgePortInfo { multicast_to_unicast: v != 0, ..info },
        BridgePortAttr::VlanTunnel(v) => BridgePortInfo { vlan_tunnel: v != 0, ..info },
        BridgePortAttr::BcastFlood(v) => BridgePortInfo { broadcast_flood: v != 0, ..info },
        BridgePortAttr::GroupFwdMask(v) => BridgePortInfo { group_fwd_mask: v, ..info },
        BridgePortAttr::NeighSuppress(v) => BridgePortInfo { neigh_suppress: v != 0, ..info },
        BridgePortAttr::Isolated(v) => BridgePortInfo { isolated: v != 0, ..info },
        BridgePortAttr::BackupPort(_) => info,
        BridgePortAttr::Other(_) => info,
    }
}

/// `info` with the attributes applied in order: a later attribute of a kind
/// overrides an earlier one.
pub open spec fn apply_port_attrs(info: BridgePortInfo, attrs: Seq<BridgePortAttr>) -> BridgePortInfo
    decreases attrs.len(),
{
    if attrs.len() == 0 {
        info
    } else {
        apply_port_attr(apply_port_attrs(info, attrs.drop_last()), attrs.last())
    }
}

/// Index of the backup port that `attrs` report: that of the last
/// backup-port attribute.
pub open spec fn last_backup(attrs: Seq<BridgePortAttr>) -> Option<u32>
    decreases attrs.len(),
{
    if attrs.len() == 0 {
        None
    } else {
        match attrs.last() {
            BridgePortAttr::BackupPort(v) => Some(v),
            _ => last_backup(attrs.drop_last()),
        }
    }
}

/// `r` is `base` with `attrs` applied.
pub open spec fn port_decoded(base: BridgePortInfo, attrs: Seq<BridgePortAttr>, r: BridgePortInfo) -> bool {
    &&& r == (BridgePortInfo { backup_port: r.backup_port, ..apply_port_attrs(base, attrs) })
    &&& r.backup_port@ == match last_backup(attrs) {
        Some(v) => decimal(v as nat),
        None => base.backup_port@,
    }
}

pub(crate) fn flag(v: u8) -> (r: bool)
    ensures
        r == (v != 0),
{
    v != 0
}

#[verifier::rlimit(40)]
fn apply_stp_attr(info: &mut BridgePortInfo, a: &BridgePortAttr)
    requires
        a is State || a is Priority || a is Cost || a is Mode || a is Guard || a is Protect || a is FastLeave || a is Learning,
    ensures
        *final(info) == apply_port_attr(*old(info), *a),
{
    reveal(apply_port_attr);
    match a {
        BridgePortAttr::State(v) => info.stp_state = BridgePortStpState::from(*v),
        BridgePortAttr::Priority(v) => info.stp_priority = *v,
        BridgePortAttr::Cost(v) => info.stp_path_cost = *v,
        BridgePortAttr::Mode(v) => info.hairpin_mode = flag(*v),
        BridgePortAttr::Guard(v) => info.bpdu_guard = flag(*v),
        BridgePortAttr::Protect(v) => info.root_block = flag(*v),
        BridgePortAttr::FastLeave(v) => info.multicast_fast_leave = flag(*v),
        BridgePortAttr::Learning(v) => info.learning = flag(*v),
        _ => {},
    }
}

#[verifier::rlimit(40)]
fn apply_flags_attr(info: &mut BridgePortInfo, a: &BridgePortAttr)
    requires
        a is UnicastFlood || a is Proxyarp || a is ProxyarpWifi || a is RootId || a is BridgeId || a is DesignatedPort || a is DesignatedCost || a is Id,
    ensures
        *final(info) == apply_port_attr(*old(info), *a),
{
    reveal(apply_port_attr);
    match a {
        BridgePortAttr::UnicastFlood(v) => info.unicast_flood = flag(*v),
        BridgePortAttr::Proxyarp(v) => info.proxyarp = flag(*v),
        BridgePortAttr::ProxyarpWifi(v) => info.proxyarp_wifi = flag(*v),
        BridgePortAttr::RootId(v) => info.designated_root = v.clone(),
        BridgePortAttr::BridgeId(v) => info.designated_bridge = v.clone(),
        BridgePortAttr::DesignatedPort(v) => info.designated_port = *v,
        BridgePortAttr::DesignatedCost(v) => info.designated_cost = *v,
        BridgePortAttr::Id(v) => info.port_id = v.clone(),
        _ => {},
    }
}

#[verifier::rlimit(40)]
fn apply_ids_attr(info: &mut BridgePortInfo, a: &BridgePortAttr)
    requires
        a is No || a is TopologyChangeAck || a is ConfigPending || a is MessageAgeTimer || a is ForwardDelayTimer || a is HoldTimer || a is MulticastRouter || a is McastFlood,
    ensures
        *final(info) == apply_port_attr(*old(info), *a),
{
    reveal(apply_port_attr);
    match a {
        BridgePortAttr::No(v) => info.port_no = v.clone(),
        BridgePortAttr::TopologyChangeAck(v) => info.change_ack = flag(*v),
        BridgePortAttr::ConfigPending(v) => info.config_pending = flag(*v),
        BridgePortAttr::MessageAgeTimer(v) => info.message_age_timer = *v,
        BridgePortAttr::ForwardDelayTimer(v) => info.forward_delay_timer = *v,
        BridgePortAttr::HoldTimer(v) => info.hold_timer = *v,
        BridgePortAttr::MulticastRouter(v) => {
            info.multicast_router = BridgePortMulticastRouterType::from(*v)
        },
        BridgePortAttr::McastFlood(v) => info.multicast_flood = flag(*v),
        _ => {},
    }
}

#[verifier::rlimit(40)]
fn apply_timers_attr(info: &mut BridgePortInfo, a: &BridgePortAttr)
    requires
        a is McastToUcast || a is VlanTunnel || a is BcastFlood || a is GroupFwdMask || a is NeighSuppress || a is Isolated,
    ensures
        *final(info) == apply_port_attr(*old(info), *a),
{
    reveal(apply_port_attr);
    match a {
        BridgePortAttr::McastToUcast(v) => info.multicast_to_unicast = flag(*v),
        BridgePortAttr::VlanTunnel(v) => info.vlan_tunnel = flag(*v),
        BridgePortAttr::BcastFlood(v) => info.broadcast_flood = flag(*v),
        BridgePortAttr::GroupFwdMask(v) => info.group_fwd_mask = *v,
        BridgePortAttr::NeighSuppress(v) => info.neigh_suppress = flag(*v),
        BridgePortAttr::Isolated(v) => info.isolated = flag(*v),
        _ => {},
    }
}

/// Applies one attribute other than the backup port to `info`.
fn apply_bridge_port_attr(info: &mut BridgePortInfo, a: &BridgePortAttr)
    ensures
        *final(info) == apply_port_attr(*old(info), *a),
{
    match a {
        BridgePortAttr::State(_) | BridgePortAttr::Priority(_) | BridgePortAttr::Cost(_) | BridgePortAttr::Mode(_) | BridgePortAttr::Guard(_) | BridgePortAttr::Protect(_) | BridgePortAttr::FastLeave(_) | BridgePortAttr::Learning(_) => apply_stp_attr(info, a),
        BridgePortAttr::UnicastFlood(_) | BridgePortAttr::Proxyarp(_) | BridgePortAttr::ProxyarpWifi(_) | BridgePortAttr::RootId(_) | BridgePortAttr::BridgeId(_) | BridgePortAttr::DesignatedPort(_) | BridgePortAttr::DesignatedCost(_) | BridgePortAttr::Id(_) => apply_flags_attr(info, a),
        BridgePortAttr::No(_) | BridgePortAttr::TopologyChangeAck(_) | BridgePortAttr::ConfigPending(_) | BridgePortAttr::MessageAgeTimer(_) | BridgePortAttr::ForwardDelayTimer(_) | BridgePortAttr::HoldTimer(_) | BridgePortAttr::MulticastRouter(_) | BridgePortAttr::McastFlood(_) => apply_ids_attr(info, a),
        BridgePortAttr::McastToUcast(_) | BridgePortAttr::VlanTunnel(_) | BridgePortAttr::BcastFlood(_) | BridgePortAttr::GroupFwdMask(_) | BridgePortAttr::NeighSuppress(_) | BridgePortAttr::Isolated(_) => apply_timers_attr(info, a),
        BridgePortAttr::BackupPort(_) | BridgePortAttr::Other(_) => {
            reveal(apply_port_attr);
        },
    }
}

/// Index of the last backup-port attribute.
fn find_last_backup(attrs: &Vec<BridgePortAttr>) -> (r: Option<u32>)
    ensures
        r == last_backup(attrs@),
{
    let mut r: Option<u32> = None;
    let mut k: usize = 0;
    while k < attrs.len()
        invariant
            k <= attrs@.len(),
            r == last_backup(attrs@.subrange(0, k as int)),
        decreases attrs@.len() - k,
    {
        assert(attrs@.subrange(0, k + 1).drop_last() =~= attrs@.subrange(0, k as int));
        if let BridgePortAttr::BackupPort(v) = &attrs[k] {
            r = Some(*v);
        }
        k += 1;
    }
    assert(attrs@.subrange(0, attrs@.len() as int) =~= attrs@);
    r
}

/// Applies the attributes in order to `info`.
#[verifier::rlimit(60)]
pub fn apply_bridge_port_attrs(info: &mut BridgePortInfo, attrs: &Vec<BridgePortAttr>)
    ensures
        port_decoded(*old(info), attrs@, *final(info)),
{
    let ghost base = *info;
    let mut k: usize = 0;
    while k < attrs.len()
        invariant
            k <= attrs@.len(),
            *info == apply_port_attrs(base, attrs@.subrange(0, k as int)),
        decreases attrs@.len() - k,
    {
        assert(attrs@.subrange(0, k + 1).drop_last() =~= attrs@.subrange(0, k as int));
        apply_bridge_port_attr(info, &attrs[k]);
        k += 1;
    }
    assert(attrs@.subrange(0, attrs@.len() as int) =~= attrs@);
    proof {
        lemma_apply_keeps_backup(base, attrs@);
    }
    let ghost mid = *info;
    assert(mid == (BridgePortInfo { backup_port: mid.backup_port, ..apply_port_attrs(base, attrs@) }));
    if let Some(v) = find_last_backup(attrs) {
        info.backup_port = index_text(v);
        assert(*info == (BridgePortInfo { backup_port: info.backup_port, ..mid }));
    }
}

proof fn lemma_apply_keeps_backup(base: BridgePortInfo, attrs: Seq<BridgePortAttr>)
    ensures
        apply_port_attrs(base, attrs).backup_port == base.backup_port,
    decreases attrs.len(),
{
    if attrs.len() > 0 {
        lemma_apply_keeps_backup(base, attrs.drop_last());
        lemma_attr_keeps_backup(apply_port_attrs(base, attrs.drop_last()), attrs.last());
    }
}

proof fn lemma_attr_keeps_backup(info: BridgePortInfo, a: BridgePortAttr)
    ensures
        apply_port_attr(info, a).backup_port == info.backup_port,
{
    reveal(apply_port_attr);
}

/// Decodes a bridge port's info container into a port record; fields that no
/// attribute reports keep their "not reported" value.
pub fn get_bridge_port_info(attrs: &Vec<BridgePortAttr>) -> (r: Option<BridgePortInfo>)
    ensures
        r.is_some(),
        exists|base: BridgePortInfo| base.is_default() && port_decoded(base, attrs@, r.unwrap()),
{
    let mut info = BridgePortInfo::default();
    let ghost base = info;
    apply_bridge_port_attrs(&mut info, attrs);
    assert(base.is_default() && port_decoded(base, attrs@, info));
    Some(info)
}

} // verus!
