//! Decoding of kernel bridge state into a structured model, and reconciliation of
//! per-interface bridge fragments into a consistent bridge/port topology.
pub mod bridge;
pub mod bridge_decode;
pub mod iface;
pub mod order;
pub mod port_decode;
pub mod tidy;
pub mod vlan;

pub use bridge::{
    BridgeInfo, BridgeMulticastIgmpInfo, BridgePortInfo, BridgePortMulticastRouterType,
    BridgePortStpState, BridgeStpInfo, BridgeStpState, BridgeVlanEntry, BridgeVlanFilteringInfo,
    BridgeVlanProtocol,
};
pub use bridge_decode::{get_bridge_info, BridgeAttr};
pub use port_decode::{apply_bridge_port_attrs, get_bridge_port_info, BridgePortAttr};
pub use iface::{Iface, MasterType};
pub use tidy::{bridge_iface_tidy_up, convert_back_port_index_to_name, gen_slave_list_of_master};
pub use vlan::{parse_af_spec_bridge_info, parse_bridge_vlan_info, RawVlanInfo};
