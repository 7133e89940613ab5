//! The analysis run: build the hierarchy of a contract, then hand it to a
//! diagram dialect.

use vstd::prelude::*;
use crate::hierarchy::{hierarchy_root, is_hierarchy_of};
use crate::model::{ContractInfo, FlowDirection, Node};

verus! {

/// A diagram dialect: turns a finished hierarchy and a flow direction into a
/// diagram description. The hierarchy does not depend on the dialect chosen.
pub trait DiagramDialect {
    fn render(&self, root: &Node, flow_direction: FlowDirection) -> String;
}

/// The result of analysing one contract: its hierarchy and the diagram that a
/// dialect made of it.
pub struct ScannerPipeline {
    hierarchy: Node,
    content: String,
}

impl ScannerPipeline {
    /// The hierarchy tree that was rendered.
    pub closed spec fn spec_hierarchy(&self) -> Node {
        self.hierarchy
    }

    /// The diagram text.
    pub closed spec fn spec_content(&self) -> Seq<char> {
        self.content@
    }

    /// Builds the hierarchy of `contract` and renders it with `dialect`.
    pub fn from<D: DiagramDialect>(
        contract: ContractInfo,
        flow_direction: FlowDirection,
        dialect: &D,
    ) -> (r: ScannerPipeline)
        ensures
            is_hierarchy_of(contract, r.spec_hierarchy()),
    {
        let hierarchy = hierarchy_root(&contract);
        let content = dialect.render(&hierarchy, flow_direction);
        ScannerPipeline { hierarchy, content }
    }

    pub fn hierarchy(&self) -> (r: &Node)
        ensures
            *r == self.spec_hierarchy(),
    {
        &self.hierarchy
    }

    pub fn content(&self) -> (r: &str)
        ensures
            r@ == self.spec_content(),
    {
        self.content.as_str()
    }
}

} // verus!
