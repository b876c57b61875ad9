use crate::bridge::{BridgePortInfo, BridgeVlanEntry};
use crate::iface::Iface;
use vstd::prelude::*;

verus! {

/// The entry is the port's PVID, untagged on ingress.
pub const BRIDGE_VLAN_INFO_PVID: u16 = 0x2;

/// Frames of the VLAN leave the port untagged.
pub const BRIDGE_VLAN_INFO_UNTAGGED: u16 = 0x4;

/// The entry opens a range of VLAN ids.
pub const BRIDGE_VLAN_INFO_RANGE_BEGIN: u16 = 0x8;

/// The entry closes a range of VLAN ids.
pub const BRIDGE_VLAN_INFO_RANGE_END: u16 = 0x10;

/// One VLAN entry of a port's bridge attribute set, as the kernel reports it.
#[derive(Debug, PartialEq, Eq, Clone, Copy, Structural)]
pub struct RawVlanInfo {
    pub flags: u16,
    pub vid: u16,
}

/// The flag `bit` is set in `flags`.
pub open spec fn has_flag(flags: u16, bit: u16) -> bool {
    flags & bit != 0
}

/// The membership that `raw` states; `start` is the opening id of the range
/// that `raw` closes, if it closes one.
pub open spec fn vlan_entry_of(raw: RawVlanInfo, start: Option<u16>) -> BridgeVlanEntry {
    BridgeVlanEntry {
        vid: if start.is_some() { None } else { Some(raw.vid) },
        vid_range: match start {
            Some(s) => Some((s, raw.vid)),
            None => None,
        },
        is_pvid: has_flag(raw.flags, BRIDGE_VLAN_INFO_PVID),
        is_egress_untagged: has_flag(raw.flags, BRIDGE_VLAN_INFO_UNTAGGED),
    }
}

/// The memberships that `raws` state, where `pending` is the opening id of a
/// range not yet closed. An entry that opens a range states nothing itself;
/// the entry that closes it states the range, with its own flags. A closing
/// entry with no open range, and every other entry, state a single id.
pub open spec fn vlan_entries(raws: Seq<RawVlanInfo>, pending: Option<u16>) -> Seq<BridgeVlanEntry>
    decreases raws.len(),
{
    if raws.len() == 0 {
        Seq::empty()
    } else {
        let raw = raws[0];
        if has_flag(raw.flags, BRIDGE_VLAN_INFO_RANGE_BEGIN) {
            vlan_entries(raws.drop_first(), Some(raw.vid))
        } else if has_flag(raw.flags, BRIDGE_VLAN_INFO_RANGE_END) && pending.is_some() {
            seq![vlan_entry_of(raw, pending)] + vlan_entries(raws.drop_first(), None)
        } else {
            seq![vlan_entry_of(raw, None)] + vlan_entries(raws.drop_first(), None)
        }
    }
}

/// Decodes a port's VLAN entries into its memberships; `None` when the port
/// reports no entry.
pub fn parse_af_spec_bridge_info(raws: &Vec<RawVlanInfo>) -> (r: Option<Vec<BridgeVlanEntry>>)
    ensures
        r.is_some() == (raws@.len() > 0),
        r.is_some() ==> r.unwrap()@ == vlan_entries(raws@, None),
{
    if raws.len() == 0 {
        return None;
    }
    let mut out: Vec<BridgeVlanEntry> = Vec::new();
    let mut pending: Option<u16> = None;
    let mut k: usize = 0;
    assert(raws@.subrange(0, raws@.len() as int) =~= raws@);
    while k < raws.len()
        invariant
            k <= raws@.len(),
            out@ + vlan_entries(raws@.subrange(k as int, raws@.len() as int), pending)
                == vlan_entries(raws@, None),
        decreases raws@.len() - k,
    {
        let ghost rest = raws@.subrange(k as int, raws@.len() as int);
        assert(rest.drop_first() =~= raws@.subrange(k + 1, raws@.len() as int));
        let raw = raws[k];
        if raw.flags & BRIDGE_VLAN_INFO_RANGE_BEGIN != 0 {
            pending = Some(raw.vid);
        } else {
            let start = if raw.flags & BRIDGE_VLAN_INFO_RANGE_END != 0 {
                pending
            } else {
                None
            };
            let entry = BridgeVlanEntry {
                vid: if start.is_some() { None } else { Some(raw.vid) },
                vid_range: match start {
                    Some(s) => Some((s, raw.vid)),
                    None => None,
                },
                is_pvid: raw.flags & BRIDGE_VLAN_INFO_PVID != 0,
                is_egress_untagged: raw.flags & BRIDGE_VLAN_INFO_UNTAGGED != 0,
            };
            let ghost before = out@;
            out.push(entry);
            assert(out@ + vlan_entries(raws@.subrange(k + 1, raws@.len() as int), None) =~= before
                + vlan_entries(rest, pending));
            pending = None;
        }
        k += 1;
    }
    assert(vlan_entries(raws@.subrange(k as int, raws@.len() as int), pending) =~= Seq::empty());
    assert(out@ =~= out@ + Seq::<BridgeVlanEntry>::empty());
    Some(out)
}

/// Sets a bridge port's VLAN memberships from its VLAN entries; an interface
/// that is not a bridge port is left as it is.
pub fn parse_bridge_vlan_info(iface_state: &mut Iface, raws: &Vec<RawVlanInfo>)
    ensures
        old(iface_state).bridge_port.is_none() ==> *final(iface_state) == *old(iface_state),
        old(iface_state).bridge_port.is_some() ==> {
            &&& final(iface_state).bridge_port.is_some()
            &&& *final(iface_state) == (Iface {
                bridge_port: final(iface_state).bridge_port,
                ..*old(iface_state)
            })
            &&& final(iface_state).bridge_port.unwrap() == (BridgePortInfo {
                vlans: final(iface_state).bridge_port.unwrap().vlans,
                ..old(iface_state).bridge_port.unwrap()
            })
            &&& final(iface_state).bridge_port.unwrap().vlans.is_some() == (raws@.len() > 0)
            &&& raws@.len() > 0 ==> final(iface_state).bridge_port.unwrap().vlans.unwrap()@
                == vlan_entries(raws@, None)
        },
{
    if let Some(p) = &mut iface_state.bridge_port {
        p.vlans = parse_af_spec_bridge_info(raws);
    }
}

/// Every decoded membership names either a single VLAN id or a range of ids,
/// never both and never neither.
pub proof fn lemma_vlan_entry_single_or_range(raws: Seq<RawVlanInfo>, pending: Option<u16>, i: int)
    requires
        0 <= i < vlan_entries(raws, pending).len(),
    ensures
        vlan_entries(raws, pending)[i].vid.is_some() != vlan_entries(raws, pending)[i].vid_range.is_some(),
    decreases raws.len(),
{
    let raw = raws[0];
    let rest = raws.drop_first();
    if has_flag(raw.flags, BRIDGE_VLAN_INFO_RANGE_BEGIN) {
        lemma_vlan_entry_single_or_range(rest, Some(raw.vid), i);
    } else if i > 0 {
        lemma_vlan_entry_single_or_range(rest, None, i - 1);
    }
}

} // verus!
