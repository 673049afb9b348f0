//! Selectable components, their ordering tiers, and selection validation.
//!
//! A selection is an ordered list of component identifiers without
//! duplicates (duplicates are the caller's responsibility). Before any
//! layer attaches, the selection is validated (every component's declared
//! dependency must be present in the full selection) and stably ordered by
//! tier, so that producers attach before consumers while the caller's
//! relative order within each tier is preserved.

use vstd::prelude::*;

use crate::error::NodeError;

verus! {

/// A tag identifying a selectable subsystem.
#[derive(Clone, Copy, Debug, PartialEq, Eq, Structural)]
pub enum Component {
    /// Mandatory core; conceptually always present. Responsible for
    /// auxiliary baseline duties (exporting database metrics).
    Core,
    /// HTTP request-serving API.
    HttpApi,
    /// WebSocket request-serving API.
    WsApi,
    /// Merkle tree maintenance.
    Tree,
    /// Merkle tree API; subsumed by `Tree`, which starts it as a side
    /// effect. May be selected only together with `Tree`.
    TreeApi,
    /// Background fetcher of tree data from the main node.
    TreeFetcher,
}

/// Ordering tier of a component: tier 0 holds producers (infrastructure,
/// background fetchers), tier 1 holds consumers (request-serving APIs,
/// which depend on resources many other components produce).
pub open spec fn spec_tier(c: Component) -> int {
    match c {
        Component::HttpApi | Component::WsApi => 1,
        _ => 0,
    }
}

/// Executable tier classification; agrees with [`spec_tier`].
pub fn tier(c: Component) -> (t: u8)
    ensures
        t as int == spec_tier(c),
{
    match c {
        Component::HttpApi | Component::WsApi => 1,
        _ => 0,
    }
}

/// A selection is structurally valid when every component with a declared
/// dependency on another optional component has that dependency present in
/// the full selection. The one declared dependency is `TreeApi -> Tree`.
pub open spec fn selection_valid(sel: Seq<Component>) -> bool {
    sel.contains(Component::TreeApi) ==> sel.contains(Component::Tree)
}

/// Whether the selection contains `c`.
pub fn contains_component(sel: &Vec<Component>, c: Component) -> (r: bool)
    ensures
        r == sel@.contains(c),
{
    let mut i: usize = 0;
    while i < sel.len()
        invariant
            0 <= i <= sel.len(),
            forall|j: int| 0 <= j < i ==> sel@[j] != c,
        decreases sel.len() - i,
    {
        if sel[i] == c {
            return true;
        }
        i = i + 1;
    }
    false
}

/// Validates the structural preconditions of a selection, before any
/// attach runs. Returns the exact configuration error on violation.
pub fn validate_selection(sel: &Vec<Component>) -> (r: Result<(), NodeError>)
    ensures
        r is Ok <==> selection_valid(sel@),
        !selection_valid(sel@) ==> r == Result::<(), NodeError>::Err(
            NodeError::Configuration {
                dependent: Component::TreeApi,
                missing: Component::Tree,
            },
        ),
{
    if contains_component(sel, Component::TreeApi) && !contains_component(sel, Component::Tree) {
        Err(NodeError::Configuration {
            dependent: Component::TreeApi,
            missing: Component::Tree,
        })
    } else {
        Ok(())
    }
}

/// The subsequence of `s` whose components sit in tier `t`, in their
/// original relative order.
pub open spec fn filter_tier(s: Seq<Component>, t: int) -> Seq<Component>
    decreases s.len(),
{
    if s.len() == 0 {
        Seq::empty()
    } else {
        let prefix = filter_tier(s.drop_last(), t);
        if spec_tier(s.last()) == t {
            prefix.push(s.last())
        } else {
            prefix
        }
    }
}

/// The attach order of a selection: a stable partition by tier — every
/// tier-0 component before every tier-1 component, the caller's relative
/// order preserved within each tier.
pub open spec fn spec_order(sel: Seq<Component>) -> Seq<Component> {
    filter_tier(sel, 0) + filter_tier(sel, 1)
}

/// Stably orders a selection by tier; the result is exactly the tier-0
/// components in their given order followed by the tier-1 components in
/// their given order.
pub fn order_components(sel: &Vec<Component>) -> (r: Vec<Component>)
    ensures
        r@ == spec_order(sel@),
{
    let mut out: Vec<Component> = Vec::new();
    let mut i: usize = 0;
    while i < sel.len()
        invariant
            0 <= i <= sel.len(),
            out@ == filter_tier(sel@.take(i as int), 0),
        decreases sel.len() - i,
    {
        proof {
            assert(sel@.take(i as int + 1).drop_last() =~= sel@.take(i as int));
            assert(sel@.take(i as int + 1).last() == sel@[i as int]);
        }
        if tier(sel[i]) == 0 {
            out.push(sel[i]);
        }
        i = i + 1;
    }
    proof {
        assert(sel@.take(sel@.len() as int) =~= sel@);
        assert(out@ =~= filter_tier(sel@, 0) + filter_tier(sel@.take(0), 1));
    }
    let mut j: usize = 0;
    while j < sel.len()
        invariant
            0 <= j <= sel.len(),
            out@ == filter_tier(sel@, 0) + filter_tier(sel@.take(j as int), 1),
        decreases sel.len() - j,
    {
        proof {
            assert(sel@.take(j as int + 1).drop_last() =~= sel@.take(j as int));
            assert(sel@.take(j as int + 1).last() == sel@[j as int]);
        }
        if tier(sel[j]) == 1 {
            out.push(sel[j]);
        }
        j = j + 1;
    }
    proof {
        assert(sel@.take(sel@.len() as int) =~= sel@);
    }
    out
}

} // verus!
