//! Classification of a function record into scope, action and connection kind.
//! Each axis takes the first rule that matches.

use vstd::prelude::*;
use crate::model::{ActionType, ConnectionType, FunctionInfo, ScopeType};

verus! {

/// Scope of a record. A record is either public or not, so the trait and
/// payable rules are never reached; they are kept in their place in the order.
pub open spec fn scope_of(f: FunctionInfo) -> ScopeType {
    if f.is_public {
        ScopeType::Public
    } else if !f.is_public {
        ScopeType::Private
    } else if f.is_trait_impl {
        ScopeType::Trait
    } else if f.is_payable {
        ScopeType::Payable
    } else {
        ScopeType::Public
    }
}

/// Action of a record: event, then mutation, then process, then view.
pub open spec fn action_of(f: FunctionInfo) -> ActionType {
    if f.is_event {
        ActionType::Event
    } else if f.is_mutable {
        ActionType::Mutation
    } else if f.is_process {
        ActionType::Process
    } else if f.is_view {
        ActionType::View
    } else {
        ActionType::NoAction
    }
}

/// Kind of the connection that leads to a record's node.
pub open spec fn connection_type_of(f: FunctionInfo) -> ConnectionType {
    if f.is_event {
        ConnectionType::Emission
    } else if f.is_trait_impl {
        ConnectionType::CrossContractConnection
    } else {
        ConnectionType::DirectConnection
    }
}

/// Two records carry the same classification flags (their names and inner
/// calls may differ).
pub open spec fn same_flags(f: FunctionInfo, g: FunctionInfo) -> bool {
    &&& f.is_public == g.is_public
    &&& f.is_trait_impl == g.is_trait_impl
    &&& f.is_payable == g.is_payable
    &&& f.is_event == g.is_event
    &&& f.is_mutable == g.is_mutable
    &&& f.is_process == g.is_process
    &&& f.is_view == g.is_view
}

impl FunctionInfo {
    pub fn scope_type(&self) -> (r: ScopeType)
        ensures
            r == scope_of(*self),
    {
        if self.is_public {
            ScopeType::Public
        } else if !self.is_public {
            ScopeType::Private
        } else if self.is_trait_impl {
            ScopeType::Trait
        } else if self.is_payable {
            ScopeType::Payable
        } else {
            ScopeType::Public
        }
    }

    pub fn action_type(&self) -> (r: ActionType)
        ensures
            r == action_of(*self),
    {
        if self.is_event {
            ActionType::Event
        } else if self.is_mutable {
            ActionType::Mutation
        } else if self.is_process {
            ActionType::Process
        } else if self.is_view {
            ActionType::View
        } else {
            ActionType::NoAction
        }
    }

    pub fn connection_type(&self) -> (r: ConnectionType)
        ensures
            r == connection_type_of(*self),
    {
        if self.is_event {
            ConnectionType::Emission
        } else if self.is_trait_impl {
            ConnectionType::CrossContractConnection
        } else {
            ConnectionType::DirectConnection
        }
    }

    /// The three tags of this record at once.
    pub fn classify(&self) -> (r: (ScopeType, ActionType, ConnectionType))
        ensures
            r == (scope_of(*self), action_of(*self), connection_type_of(*self)),
    {
        (self.scope_type(), self.action_type(), self.connection_type())
    }
}

/// Classification is a function of the seven flags alone: two records with the
/// same flags (in particular, one record classified twice) get the same scope,
/// action and connection kind.
pub proof fn lemma_classification_depends_on_flags(f: FunctionInfo, g: FunctionInfo)
    requires
        same_flags(f, g),
    ensures
        scope_of(f) == scope_of(g),
        action_of(f) == action_of(g),
        connection_type_of(f) == connection_type_of(g),
{
}

/// Whatever its other flags, a record that is not public is private, and one
/// that is public is public: the trait and payable scopes never come from a
/// record.
pub proof fn lemma_scope_is_visibility(f: FunctionInfo)
    ensures
        f.is_public ==> scope_of(f) == ScopeType::Public,
        !f.is_public ==> scope_of(f) == ScopeType::Private,
{
}

} // verus!
