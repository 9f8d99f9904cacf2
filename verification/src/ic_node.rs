//! The nodes that the scraper pulls logs from.

use vstd::prelude::*;

verus! {

/// A node of the fleet: its name, its data centre, its subnet and the
/// address its journal is served from.
#[derive(Debug, Clone, PartialEq)]
pub struct IcNode {
    pub ic_node: String,
    pub dc: String,
    pub ic_subnet: String,
    pub ip: String,
}

} // verus!
