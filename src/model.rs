//! The data that flows through the analysis: function records coming from the
//! source scanner, and the nodes and connections of the hierarchy tree.

use vstd::prelude::*;

verus! {

/// One function or method found by the source scanner, with its attributes
/// already resolved.
pub struct FunctionInfo {
    pub name: String,
    pub is_public: bool,
    pub is_trait_impl: bool,
    pub is_payable: bool,
    pub is_event: bool,
    pub is_mutable: bool,
    pub is_process: bool,
    pub is_view: bool,
    /// The functions this one calls, in call order.
    pub inner_calls: Vec<FunctionInfo>,
}

/// The functions of one declaring unit (one `impl` section) of a contract.
pub struct ContractMetadata {
    pub fns: Vec<FunctionInfo>,
}

/// Everything the scanner found in one contract: its declaring units, in
/// declaration order.
pub struct ContractInfo {
    pub contract_metadata: Vec<ContractMetadata>,
}

/// Visibility or origin of a node.
#[derive(Clone, Copy, Debug, PartialEq, Eq, Structural)]
pub enum ScopeType {
    Contract,
    Public,
    Private,
    Trait,
    Payable,
}

/// Behaviour of a node.
#[derive(Clone, Copy, Debug, PartialEq, Eq, Structural)]
pub enum ActionType {
    /// None of the action rules applies.
    NoAction,
    Event,
    Mutation,
    Process,
    View,
}

/// Kind of the edge that leads to a node.
#[derive(Clone, Copy, Debug, PartialEq, Eq, Structural)]
pub enum ConnectionType {
    DirectConnection,
    CrossContractConnection,
    Emission,
}

/// Layout preference handed to the diagram dialect; the hierarchy itself does
/// not depend on it.
#[derive(Clone, Copy, Debug, PartialEq, Eq, Structural)]
pub enum FlowDirection {
    TopDown,
    BottomUp,
    LeftRight,
    RightLeft,
}

/// A vertex of the hierarchy tree. It owns its outgoing connections.
pub struct Node {
    pub name: String,
    pub scope: ScopeType,
    pub action: ActionType,
    /// Outgoing edges, in call order.
    pub connections: Vec<Connection>,
}

/// A typed edge, owning the node it leads to.
pub struct Connection {
    pub connection_type: ConnectionType,
    pub node: Node,
}

} // verus!
