use crate::bridge::{BridgeInfo, BridgePortInfo};
use vstd::prelude::*;

verus! {

/// Kind of master device an interface is enslaved to.
#[derive(Debug, PartialEq, Eq, Clone, Copy, Structural)]
pub enum MasterType {
    Bridge,
    Bond,
    Unknown,
}

/// One interface of a snapshot: identity, master linkage, and the bridge
/// payloads that the decoders filled in.
#[derive(Debug, PartialEq, Clone)]
pub struct Iface {
    pub name: String,
    pub index: u32,
    pub master: Option<String>,
    pub master_type: Option<MasterType>,
    pub bridge: Option<BridgeInfo>,
    pub bridge_port: Option<BridgePortInfo>,
}

impl Iface {
    /// The interface is a port of the bridge named `bridge`.
    pub open spec fn is_port_of(self, bridge: Seq<char>) -> bool {
        &&& self.master_type == Some(MasterType::Bridge)
        &&& self.master.is_some()
        &&& self.master.unwrap()@ == bridge
    }

    /// The interface is enslaved to a bridge.
    pub open spec fn is_bridge_port(self) -> bool {
        self.master_type == Some(MasterType::Bridge)
    }
}

} // verus!
