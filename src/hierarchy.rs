//! Assembly of the hierarchy tree from function records.

use vstd::prelude::*;
use crate::classifier::{action_of, connection_type_of, scope_of};
use crate::model::{ActionType, Connection, ContractInfo, ContractMetadata, FunctionInfo, Node, ScopeType};

verus! {

broadcast use vstd::std_specs::vec::group_vec_axioms;

/// `n` is the node built for record `f`: same name, the record's scope and
/// action, and connections built from its inner calls.
pub open spec fn node_of_record(f: FunctionInfo, n: Node) -> bool
    decreases f, 1int,
{
    &&& n.name@ == f.name@
    &&& n.scope == scope_of(f)
    &&& n.action == action_of(f)
    &&& connections_of_records(f.inner_calls@, n.connections@)
}

/// `cs` is built from `fs`: one connection per record, in the same order, each
/// of the record's kind and leading to the record's node.
pub open spec fn connections_of_records(fs: Seq<FunctionInfo>, cs: Seq<Connection>) -> bool
    decreases fs, 0int,
{
    &&& cs.len() == fs.len()
    &&& forall|i: int|
        0 <= i < fs.len() ==> {
            &&& (#[trigger] cs[i]).connection_type == connection_type_of(fs[i])
            &&& node_of_record(fs[i], cs[i].node)
        }
}

/// Builds one connection per record, in input order, recursing into each
/// record's inner calls.
pub fn connections_from(fns: &Vec<FunctionInfo>) -> (r: Vec<Connection>)
    ensures
        connections_of_records(fns@, r@),
    decreases fns@,
{
    let mut out: Vec<Connection> = Vec::new();
    let mut i: usize = 0;
    while i < fns.len()
        invariant
            i <= fns.len(),
            connections_of_records(fns@.take(i as int), out@),
        decreases fns.len() - i,
    {
        let f = &fns[i];
        let connections = connections_from(&f.inner_calls);
        let node = Node {
            name: f.name.clone(),
            scope: f.scope_type(),
            action: f.action_type(),
            connections,
        };
        out.push(Connection { connection_type: f.connection_type(), node });
        i = i + 1;
    }
    out
}

/// Name of the synthetic root node.
pub open spec fn root_name() -> Seq<char> {
    "Contract"@
}

/// The functions declared at the outermost scope of all units, unit after
/// unit, each unit's functions in declaration order.
pub open spec fn all_functions(units: Seq<ContractMetadata>) -> Seq<FunctionInfo>
    decreases units.len(),
{
    if units.len() == 0 {
        Seq::empty()
    } else {
        all_functions(units.drop_last()) + units.last().fns@
    }
}

/// `root` is the hierarchy of `contract`: the synthetic contract node whose
/// connections are built from the functions of all its units.
pub open spec fn is_hierarchy_of(contract: ContractInfo, root: Node) -> bool {
    &&& root.name@ == root_name()
    &&& root.scope == ScopeType::Contract
    &&& root.action == ActionType::NoAction
    &&& connections_of_records(all_functions(contract.contract_metadata@), root.connections@)
}

/// Connections built from two record sequences, put one after the other, are
/// the connections of the two sequences put one after the other.
pub proof fn lemma_connections_concat(
    a: Seq<FunctionInfo>,
    ca: Seq<Connection>,
    b: Seq<FunctionInfo>,
    cb: Seq<Connection>,
)
    requires
        connections_of_records(a, ca),
        connections_of_records(b, cb),
    ensures
        connections_of_records(a + b, ca + cb),
{
    let fs = a + b;
    let cs = ca + cb;
    assert forall|i: int| 0 <= i < fs.len() implies {
        &&& (#[trigger] cs[i]).connection_type == connection_type_of(fs[i])
        &&& node_of_record(fs[i], cs[i].node)
    } by {
        if i < a.len() {
            assert(cs[i] == ca[i]);
            assert(fs[i] == a[i]);
        } else {
            assert(cs[i] == cb[i - a.len()]);
            assert(fs[i] == b[i - a.len()]);
        }
    }
}

/// Builds the hierarchy of a contract: a root node named `Contract`, of scope
/// `Contract` and no action, connected to the functions of every unit.
pub fn hierarchy_root(contract: &ContractInfo) -> (r: Node)
    ensures
        is_hierarchy_of(*contract, r),
{
    let mut connections: Vec<Connection> = Vec::new();
    let units = &contract.contract_metadata;
    let mut k: usize = 0;
    while k < units.len()
        invariant
            k <= units.len(),
            connections_of_records(all_functions(units@.take(k as int)), connections@),
        decreases units.len() - k,
    {
        let mut unit_connections = connections_from(&units[k].fns);
        proof {
            let prefix = units@.take(k as int + 1);
            assert(prefix.drop_last() =~= units@.take(k as int));
            assert(prefix.last() == units@[k as int]);
            lemma_connections_concat(
                all_functions(units@.take(k as int)),
                connections@,
                units@[k as int].fns@,
                unit_connections@,
            );
        }
        connections.append(&mut unit_connections);
        k = k + 1;
    }
    assert(units@.take(units.len() as int) =~= units@);
    Node {
        name: "Contract".to_string(),
        scope: ScopeType::Contract,
        action: ActionType::NoAction,
        connections,
    }
}

/// Some record of `fs`, at any depth of inner calls, is named `n`.
pub open spec fn records_have_name(fs: Seq<FunctionInfo>, n: Seq<char>) -> bool
    decreases fs,
{
    exists|i: int|
        0 <= i < fs.len() && ((#[trigger] fs[i]).name@ == n || records_have_name(
            fs[i].inner_calls@,
            n,
        ))
}

/// Some node reached through `cs`, at any depth, is named `n`.
pub open spec fn connections_have_name(cs: Seq<Connection>, n: Seq<char>) -> bool
    decreases cs,
{
    exists|i: int|
        0 <= i < cs.len() && ((#[trigger] cs[i]).node.name@ == n || connections_have_name(
            cs[i].node.connections@,
            n,
        ))
}

/// The names of all records of `fs`, at any depth.
pub open spec fn record_names(fs: Seq<FunctionInfo>) -> Set<Seq<char>> {
    Set::new(|n: Seq<char>| records_have_name(fs, n))
}

/// The names of all nodes of the tree rooted at `root`, the root included.
pub open spec fn node_names(root: Node) -> Set<Seq<char>> {
    Set::new(|n: Seq<char>| n == root.name@ || connections_have_name(root.connections@, n))
}

proof fn lemma_names_match(fs: Seq<FunctionInfo>, cs: Seq<Connection>, n: Seq<char>)
    requires
        connections_of_records(fs, cs),
    ensures
        connections_have_name(cs, n) == records_have_name(fs, n),
    decreases fs,
{
    if records_have_name(fs, n) {
        let i = choose|i: int|
            0 <= i < fs.len() && ((#[trigger] fs[i]).name@ == n || records_have_name(
                fs[i].inner_calls@,
                n,
            ));
        assert(node_of_record(fs[i], cs[i].node));
        lemma_names_match(fs[i].inner_calls@, cs[i].node.connections@, n);
        assert(cs[i].node.name@ == n || connections_have_name(cs[i].node.connections@, n));
    }
    if connections_have_name(cs, n) {
        let i = choose|i: int|
            0 <= i < cs.len() && ((#[trigger] cs[i]).node.name@ == n || connections_have_name(
                cs[i].node.connections@,
                n,
            ));
        assert(node_of_record(fs[i], cs[i].node));
        lemma_names_match(fs[i].inner_calls@, cs[i].node.connections@, n);
        assert(fs[i].name@ == n || records_have_name(fs[i].inner_calls@, n));
    }
}

/// The nodes of a contract's hierarchy carry exactly the names of its records,
/// at every depth, and the root's name.
pub proof fn lemma_hierarchy_names(contract: ContractInfo, root: Node)
    requires
        is_hierarchy_of(contract, root),
    ensures
        node_names(root) == record_names(all_functions(contract.contract_metadata@)).insert(
            root_name(),
        ),
{
    let fs = all_functions(contract.contract_metadata@);
    assert forall|n: Seq<char>|
        #![auto]
        node_names(root).contains(n) == record_names(fs).insert(root_name()).contains(n) by {
        lemma_names_match(fs, root.connections@, n);
    }
    assert(node_names(root) =~= record_names(fs).insert(root_name()));
}

/// Position in `all_functions(units)` of the first function of unit `k`.
pub open spec fn unit_offset(units: Seq<ContractMetadata>, k: int) -> int {
    all_functions(units.take(k)).len() as int
}

proof fn lemma_all_functions_prefix(units: Seq<ContractMetadata>, k: int, m: int)
    requires
        0 <= k <= m <= units.len(),
    ensures
        unit_offset(units, k) <= unit_offset(units, m),
        forall|j: int|
            0 <= j < unit_offset(units, k) ==> #[trigger] all_functions(units.take(m))[j]
                == all_functions(units.take(k))[j],
    decreases m - k,
{
    if k < m {
        lemma_all_functions_prefix(units, k, m - 1);
        assert(units.take(m).drop_last() =~= units.take(m - 1));
    }
}

proof fn lemma_unit_position(units: Seq<ContractMetadata>, k: int, i: int)
    requires
        0 <= k < units.len(),
        0 <= i < units[k].fns.len(),
    ensures
        unit_offset(units, k) + i < unit_offset(units, k + 1),
        unit_offset(units, k + 1) <= all_functions(units).len(),
        all_functions(units)[unit_offset(units, k) + i] == units[k].fns@[i],
{
    assert(units.take(k + 1).drop_last() =~= units.take(k));
    assert(units.take(k + 1).last() == units[k]);
    lemma_all_functions_prefix(units, k + 1, units.len() as int);
    assert(units.take(units.len() as int) =~= units);
}

/// Functions of two different declaring units get two different nodes, at two
/// different positions among the root's connections, even when they share a
/// name.
pub proof fn lemma_units_give_distinct_nodes(
    contract: ContractInfo,
    root: Node,
    k1: int,
    i1: int,
    k2: int,
    i2: int,
)
    requires
        is_hierarchy_of(contract, root),
        0 <= k1 < contract.contract_metadata.len(),
        0 <= k2 < contract.contract_metadata.len(),
        k1 != k2,
        0 <= i1 < contract.contract_metadata[k1].fns.len(),
        0 <= i2 < contract.contract_metadata[k2].fns.len(),
    ensures
        exists|pos1: int, pos2: int|
            {
                &&& 0 <= pos1 < root.connections.len()
                &&& 0 <= pos2 < root.connections.len()
                &&& pos1 != pos2
                &&& node_of_record(contract.contract_metadata[k1].fns[i1], root.connections[pos1].node)
                &&& node_of_record(contract.contract_metadata[k2].fns[i2], root.connections[pos2].node)
            },
{
    let units = contract.contract_metadata@;
    lemma_unit_position(units, k1, i1);
    lemma_unit_position(units, k2, i2);
    if k1 < k2 {
        lemma_all_functions_prefix(units, k1 + 1, k2);
    } else {
        lemma_all_functions_prefix(units, k2 + 1, k1);
    }
    let pos1 = unit_offset(units, k1) + i1;
    let pos2 = unit_offset(units, k2) + i2;
    let fs = all_functions(units);
    assert(node_of_record(fs[pos1], root.connections@[pos1].node));
    assert(node_of_record(fs[pos2], root.connections@[pos2].node));
}

} // verus!
