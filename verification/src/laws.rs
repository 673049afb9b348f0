//! Laws of the composition core, proved once and for all.
//!
//! Each proof function here states a guarantee of the whole design over
//! the spec-level plan and transitions that the executable contracts are
//! pinned to: how the stable tier ordering treats the caller's order, how
//! the registry shares one instance per resource kind, and what a whole
//! planned build does.

use vstd::prelude::*;

use crate::builder::empty_state;
use crate::builder::run_layers_spec;
use crate::component::filter_tier;
use crate::component::spec_order;
use crate::component::spec_tier;
use crate::component::Component;
use crate::config::ExternalNodeConfig;
use crate::error::AttachCause;
use crate::error::NodeError;
use crate::layer::attach_spec;
use crate::layer::BuildState;
use crate::layer::CancellationToken;
use crate::layer::Layer;
use crate::layer::push_task;
use crate::layer::LayerKind;
use crate::layer::StepResult;
use crate::layer::Task;
use crate::layer::TaskKind;
use crate::node::base_layers;
use crate::node::component_layers;
use crate::node::layers_for_component;
use crate::node::planned_layers;
use crate::registry::lemma_lookup_contains;
use crate::registry::lemma_lookup_push;
use crate::registry::lookup;
use crate::registry::upsert;
use crate::registry::ResourceKind;

verus! {

/// Splitting a list and filtering by tier commute.
pub proof fn lemma_filter_tier_concat(a: Seq<Component>, b: Seq<Component>, t: int)
    ensures
        filter_tier(a + b, t) == filter_tier(a, t) + filter_tier(b, t),
    decreases b.len(),
{
    if b.len() == 0 {
        assert(a + b =~= a);
        assert(filter_tier(b, t) =~= Seq::<Component>::empty());
        assert(filter_tier(a, t) + filter_tier(b, t) =~= filter_tier(a, t));
    } else {
        lemma_filter_tier_concat(a, b.drop_last(), t);
        assert((a + b).drop_last() =~= a + b.drop_last());
        assert((a + b).last() == b.last());
        if spec_tier(b.last()) == t {
            assert(filter_tier(a, t) + filter_tier(b, t) =~= (filter_tier(a, t) + filter_tier(
                b.drop_last(),
                t,
            )).push(b.last()));
        }
    }
}

/// Every element a tier filter keeps sits in that tier.
pub proof fn lemma_filter_tier_elements(s: Seq<Component>, t: int)
    ensures
        forall|x: int|
            0 <= x < filter_tier(s, t).len() ==> spec_tier(#[trigger] filter_tier(s, t)[x]) == t,
    decreases s.len(),
{
    if s.len() > 0 {
        lemma_filter_tier_elements(s.drop_last(), t);
        let prefix = filter_tier(s.drop_last(), t);
        assert forall|x: int|
            0 <= x < filter_tier(s, t).len() implies spec_tier(
            #[trigger] filter_tier(s, t)[x],
        ) == t by {
            if x < prefix.len() {
                assert(filter_tier(s, t)[x] == prefix[x]);
            }
        };
    }
}

/// Filtering a list that is homogeneously of tier `t` keeps all of it,
/// and filtering it by the other tier keeps none of it.
pub proof fn lemma_filter_tier_homogeneous(s: Seq<Component>, t: int, u: int)
    requires
        forall|x: int| 0 <= x < s.len() ==> spec_tier(#[trigger] s[x]) == t,
    ensures
        filter_tier(s, t) == s,
        t != u ==> filter_tier(s, u) == Seq::<Component>::empty(),
    decreases s.len(),
{
    if s.len() == 0 {
        assert(filter_tier(s, t) =~= s);
    } else {
        assert(forall|x: int| 0 <= x < s.drop_last().len() ==> spec_tier(
            #[trigger] s.drop_last()[x],
        ) == t);
        lemma_filter_tier_homogeneous(s.drop_last(), t, u);
        assert(spec_tier(s.last()) == t);
        assert(filter_tier(s, t) =~= s);
    }
}

/// The stable tier ordering preserves the caller's relative order within
/// each tier: restricted to one tier, the ordered selection reads exactly
/// as the selection itself.
pub proof fn lemma_order_preserves_each_tier(sel: Seq<Component>)
    ensures
        filter_tier(spec_order(sel), 0) == filter_tier(sel, 0),
        filter_tier(spec_order(sel), 1) == filter_tier(sel, 1),
{
    let f0 = filter_tier(sel, 0);
    let f1 = filter_tier(sel, 1);
    lemma_filter_tier_concat(f0, f1, 0);
    lemma_filter_tier_concat(f0, f1, 1);
    lemma_filter_tier_elements(sel, 0);
    lemma_filter_tier_elements(sel, 1);
    lemma_filter_tier_homogeneous(f0, 0, 1);
    lemma_filter_tier_homogeneous(f1, 1, 0);
    assert(filter_tier(spec_order(sel), 0) =~= filter_tier(sel, 0));
    assert(filter_tier(spec_order(sel), 1) =~= filter_tier(sel, 1));
}

/// Every component sits in one of the two tiers, so the stable tier
/// ordering is complete: it schedules exactly as many components as the
/// selection holds — none dropped, none invented.
pub proof fn lemma_order_complete(sel: Seq<Component>)
    ensures
        spec_order(sel).len() == sel.len(),
    decreases sel.len(),
{
    if sel.len() > 0 {
        lemma_order_complete(sel.drop_last());
    }
}

/// The stable tier ordering separates the tiers: every tier-0 component
/// stands before every tier-1 component.
pub proof fn lemma_order_tiers_separated(sel: Seq<Component>)
    ensures
        forall|x: int, y: int|
            0 <= x <= y < spec_order(sel).len() ==> spec_tier(#[trigger] spec_order(sel)[x])
                <= spec_tier(#[trigger] spec_order(sel)[y]),
{
    lemma_filter_tier_elements(sel, 0);
    lemma_filter_tier_elements(sel, 1);
}

/// A component in tier `t` at position `i` of the selection reappears in
/// the tier filter.
proof fn lemma_filter_tier_mem(s: Seq<Component>, t: int, i: int)
    requires
        0 <= i < s.len(),
        spec_tier(s[i]) == t,
    ensures
        exists|x: int| 0 <= x < filter_tier(s, t).len() && filter_tier(s, t)[x] == s[i],
    decreases s.len(),
{
    if i == s.len() - 1 {
        assert(filter_tier(s, t).last() == s[i]);
    } else {
        lemma_filter_tier_mem(s.drop_last(), t, i);
        let x = choose|x: int|
            0 <= x < filter_tier(s.drop_last(), t).len() && filter_tier(s.drop_last(), t)[x] == s[
                i
            ];
        assert(filter_tier(s, t)[x] == s[i]);
    }
}

/// Two components of one tier keep their relative order in the filter.
proof fn lemma_filter_tier_pair(s: Seq<Component>, t: int, i: int, j: int)
    requires
        0 <= i < j < s.len(),
        spec_tier(s[i]) == t,
        spec_tier(s[j]) == t,
    ensures
        exists|x: int, y: int|
            0 <= x < y < filter_tier(s, t).len() && filter_tier(s, t)[x] == s[i] && filter_tier(
                s,
                t,
            )[y] == s[j],
    decreases s.len(),
{
    if j == s.len() - 1 {
        lemma_filter_tier_mem(s.drop_last(), t, i);
        let x = choose|x: int|
            0 <= x < filter_tier(s.drop_last(), t).len() && filter_tier(s.drop_last(), t)[x] == s[
                i
            ];
        let y = filter_tier(s.drop_last(), t).len() as int;
        assert(filter_tier(s, t)[x] == s[i]);
        assert(filter_tier(s, t)[y] == s[j]);
    } else {
        lemma_filter_tier_pair(s.drop_last(), t, i, j);
        let (x, y) = choose|x: int, y: int|
            0 <= x < y < filter_tier(s.drop_last(), t).len() && filter_tier(s.drop_last(), t)[x]
                == s[i] && filter_tier(s.drop_last(), t)[y] == s[j];
        assert(filter_tier(s, t)[x] == s[i]);
        assert(filter_tier(s, t)[y] == s[j]);
    }
}

/// For any two components of the same ordering tier, listed in this
/// relative order in the selection, the stable tier ordering schedules
/// the first strictly before the second.
pub proof fn lemma_same_tier_order_preserved(sel: Seq<Component>, i: int, j: int)
    requires
        0 <= i < j < sel.len(),
        spec_tier(sel[i]) == spec_tier(sel[j]),
    ensures
        exists|x: int, y: int|
            0 <= x < y < spec_order(sel).len() && spec_order(sel)[x] == sel[i] && spec_order(
                sel,
            )[y] == sel[j],
{
    let t = spec_tier(sel[i]);
    lemma_filter_tier_pair(sel, t, i, j);
    let (x, y) = choose|x: int, y: int|
        0 <= x < y < filter_tier(sel, t).len() && filter_tier(sel, t)[x] == sel[i] && filter_tier(
            sel,
            t,
        )[y] == sel[j];
    if t == 0 {
        assert(spec_order(sel)[x] == sel[i]);
        assert(spec_order(sel)[y] == sel[j]);
    } else {
        let off = filter_tier(sel, 0).len() as int;
        assert(spec_order(sel)[off + x] == sel[i]);
        assert(spec_order(sel)[off + y] == sel[j]);
    }
}

/// One shared instance per resource kind: a second fetch-or-create of the
/// same kind — whichever layer issues it — returns the very instance the
/// first one did, and installs nothing new.
pub proof fn lemma_get_or_insert_single_instance(s: Seq<ResourceKind>, k: ResourceKind)
    ensures
        upsert(upsert(s, k).0, k).1 == upsert(s, k).1,
        upsert(upsert(s, k).0, k).0 == upsert(s, k).0,
{
    if lookup(s, k) is None {
        lemma_lookup_push(s, k, k);
    }
}

/// A binding, once made, is never rebound: pushing further kinds leaves
/// an existing binding exactly where it was.
pub proof fn lemma_binding_stable_under_push(s: Seq<ResourceKind>, x: ResourceKind, k: ResourceKind)
    requires
        lookup(s, k) is Some,
    ensures
        lookup(s.push(x), k) == lookup(s, k),
{
    lemma_lookup_push(s, k, x);
}

/// No binding among kinds it does not hold: a kind absent from the
/// contents is not bound.
proof fn lemma_lookup_absent(s: Seq<ResourceKind>, k: ResourceKind)
    requires
        forall|x: int| 0 <= x < s.len() ==> #[trigger] s[x] != k,
    ensures
        lookup(s, k) is None,
    decreases s.len(),
{
    if s.len() > 0 {
        lemma_lookup_absent(s.drop_last(), k);
    }
}

/// Attaching a concatenation of layer lists runs the first list, then —
/// unless it aborted — the second from where the first left off.
pub proof fn lemma_run_layers_concat(
    a: Seq<Layer>,
    b: Seq<Layer>,
    st: BuildState,
    cancel: CancellationToken,
)
    ensures
        run_layers_spec(a + b, st, cancel) == (match run_layers_spec(a, st, cancel) {
            StepResult::Continue(st1) => run_layers_spec(b, st1, cancel),
            StepResult::Abort(e) => StepResult::Abort(e),
        }),
    decreases a.len(),
{
    if a.len() == 0 {
        assert(a + b =~= b);
    } else {
        assert((a + b)[0] == a[0]);
        assert((a + b).drop_first() =~= a.drop_first() + b);
        match attach_spec(a[0], st, cancel) {
            StepResult::Continue(st1) => {
                lemma_run_layers_concat(a.drop_first(), b, st1, cancel);
            },
            StepResult::Abort(_) => {},
        }
    }
}

/// The resources every selected component's layers may rely on; the base
/// layers publish them before any component layer attaches.
pub open spec fn component_prerequisites(reg: Seq<ResourceKind>) -> bool {
    &&& lookup(reg, ResourceKind::ReplicaPool) is Some
    &&& lookup(reg, ResourceKind::MainNodeClient) is Some
}

/// The registry contents the base layers leave behind, in allocation
/// order: the health state, both pools, the upstream client.
pub open spec fn base_resources(c: ExternalNodeConfig) -> Seq<ResourceKind> {
    seq![
        ResourceKind::HealthState,
        ResourceKind::MasterPool,
        ResourceKind::ReplicaPool,
        ResourceKind::MainNodeClient,
    ]
}

/// The tasks the base layers register, in registration order; the
/// metrics exporter appears exactly when its configuration is present.
pub open spec fn base_tasks(c: ExternalNodeConfig, cancel: CancellationToken) -> Seq<Task> {
    seq![
        Task { kind: TaskKind::SigintWatcher, cancellation: cancel },
        Task { kind: TaskKind::HealthcheckServer, cancellation: cancel },
    ] + (match c.prometheus {
        Some(_) => seq![Task { kind: TaskKind::PrometheusExporter, cancellation: cancel }],
        None => Seq::<Task>::empty(),
    })
}

/// The base layers attach in their fixed order whenever the healthcheck
/// server can bind its port, and leave exactly the base resources and
/// the base tasks behind — whatever the selection later adds.
pub proof fn lemma_base_layers_run(c: ExternalNodeConfig, cancel: CancellationToken)
    requires
        c.healthcheck_port != 0,
    ensures
        run_layers_spec(base_layers(c), empty_state(), cancel) == StepResult::Continue(
            BuildState { reg: base_resources(c), tasks: base_tasks(c, cancel) },
        ),
{
    let b = base_layers(c);
    let s0 = empty_state();
    let t_sig = Task { kind: TaskKind::SigintWatcher, cancellation: cancel };
    let t_health = Task { kind: TaskKind::HealthcheckServer, cancellation: cancel };
    let t_prom = Task { kind: TaskKind::PrometheusExporter, cancellation: cancel };
    let s1 = BuildState { reg: s0.reg, tasks: s0.tasks.push(t_sig) };
    assert(attach_spec(b[0], s0, cancel) == StepResult::Continue(s1));
    let r2 = seq![ResourceKind::HealthState];
    lemma_lookup_absent(s1.reg, ResourceKind::HealthState);
    let s2 = BuildState { reg: s1.reg.push(ResourceKind::HealthState), tasks: s1.tasks.push(t_health) };
    assert(s2.reg =~= r2);
    assert(attach_spec(b[1], s1, cancel) == StepResult::Continue(s2));
    match c.prometheus {
        Some(p) => {
            assert(b =~= seq![
                Layer::SigintHandler,
                Layer::Healthcheck(crate::config::spec_healthcheck_settings(c)),
                Layer::PrometheusExporter(p),
                Layer::Pools(crate::config::spec_pools_settings(c)),
                Layer::MainNodeClient(crate::config::spec_main_node_client_settings(c)),
            ]);
            lemma_lookup_contains(s2.reg, ResourceKind::HealthState);
            assert(s2.reg[0] == ResourceKind::HealthState);
            let s3 = BuildState { reg: s2.reg, tasks: s2.tasks.push(t_prom) };
            assert(attach_spec(b[2], s2, cancel) == StepResult::Continue(s3));
            lemma_lookup_absent(s3.reg, ResourceKind::MasterPool);
            let s4 = BuildState { reg: s3.reg.push(ResourceKind::MasterPool), tasks: s3.tasks };
            lemma_lookup_absent(s4.reg, ResourceKind::ReplicaPool);
            let s5 = BuildState { reg: s4.reg.push(ResourceKind::ReplicaPool), tasks: s4.tasks };
            assert(attach_spec(b[3], s3, cancel) == StepResult::Continue(s5));
            lemma_lookup_absent(s5.reg, ResourceKind::MainNodeClient);
            let s6 = BuildState { reg: s5.reg.push(ResourceKind::MainNodeClient), tasks: s5.tasks };
            assert(attach_spec(b[4], s5, cancel) == StepResult::Continue(s6));
            assert(b.drop_first() =~= b.subrange(1, 5));
            assert(run_layers_spec(b, s0, cancel) == run_layers_spec(b.subrange(1, 5), s1, cancel));
            assert(b.subrange(1, 5).drop_first() =~= b.subrange(2, 5));
            assert(run_layers_spec(b.subrange(1, 5), s1, cancel) == run_layers_spec(b.subrange(2, 5), s2, cancel));
            assert(b.subrange(2, 5).drop_first() =~= b.subrange(3, 5));
            assert(run_layers_spec(b.subrange(2, 5), s2, cancel) == run_layers_spec(b.subrange(3, 5), s3, cancel));
            assert(b.subrange(3, 5).drop_first() =~= b.subrange(4, 5));
            assert(run_layers_spec(b.subrange(3, 5), s3, cancel) == run_layers_spec(b.subrange(4, 5), s5, cancel)) by {
                assert(b.subrange(3, 5)[0] == b[3]);
            }
            assert(b.subrange(4, 5).drop_first() =~= Seq::<Layer>::empty());
            assert(run_layers_spec(b.subrange(4, 5), s5, cancel) == run_layers_spec(Seq::<Layer>::empty(), s6, cancel)) by {
                assert(b.subrange(4, 5)[0] == b[4]);
            }
            assert(s6.reg =~= base_resources(c));
            assert(s6.tasks =~= base_tasks(c, cancel));
        },
        None => {
            assert(b =~= seq![
                Layer::SigintHandler,
                Layer::Healthcheck(crate::config::spec_healthcheck_settings(c)),
                Layer::Pools(crate::config::spec_pools_settings(c)),
                Layer::MainNodeClient(crate::config::spec_main_node_client_settings(c)),
            ]);
            lemma_lookup_absent(s2.reg, ResourceKind::MasterPool);
            let s3 = BuildState { reg: s2.reg.push(ResourceKind::MasterPool), tasks: s2.tasks };
            lemma_lookup_absent(s3.reg, ResourceKind::ReplicaPool);
            let s4 = BuildState { reg: s3.reg.push(ResourceKind::ReplicaPool), tasks: s3.tasks };
            assert(attach_spec(b[2], s2, cancel) == StepResult::Continue(s4));
            lemma_lookup_absent(s4.reg, ResourceKind::MainNodeClient);
            let s5 = BuildState { reg: s4.reg.push(ResourceKind::MainNodeClient), tasks: s4.tasks };
            assert(attach_spec(b[3], s4, cancel) == StepResult::Continue(s5));
            assert(b.drop_first() =~= b.subrange(1, 4));
            assert(run_layers_spec(b, s0, cancel) == run_layers_spec(b.subrange(1, 4), s1, cancel));
            assert(b.subrange(1, 4).drop_first() =~= b.subrange(2, 4));
            assert(run_layers_spec(b.subrange(1, 4), s1, cancel) == run_layers_spec(b.subrange(2, 4), s2, cancel));
            assert(b.subrange(2, 4).drop_first() =~= b.subrange(3, 4));
            assert(run_layers_spec(b.subrange(2, 4), s2, cancel) == run_layers_spec(b.subrange(3, 4), s4, cancel)) by {
                assert(b.subrange(2, 4)[0] == b[2]);
            }
            assert(b.subrange(3, 4).drop_first() =~= Seq::<Layer>::empty());
            assert(run_layers_spec(b.subrange(3, 4), s4, cancel) == run_layers_spec(Seq::<Layer>::empty(), s5, cancel)) by {
                assert(b.subrange(3, 4)[0] == b[3]);
            }
            assert(s5.reg =~= base_resources(c));
            assert(s5.tasks =~= base_tasks(c, cancel));
        },
    }
}

/// Fetch-or-create never disturbs the prerequisites: they stay published
/// whatever kind a layer requests.
proof fn lemma_upsert_preserves_prerequisites(reg: Seq<ResourceKind>, k: ResourceKind)
    requires
        component_prerequisites(reg),
    ensures
        component_prerequisites(upsert(reg, k).0),
{
    if lookup(reg, k) is None {
        lemma_lookup_push(reg, ResourceKind::ReplicaPool, k);
        lemma_lookup_push(reg, ResourceKind::MainNodeClient, k);
    }
}

/// With the prerequisites published, one selected component's layers
/// always attach: they keep the prerequisites published, leave every
/// already-registered task untouched, and register only tasks that carry
/// the build's cancellation token — none of them the metrics exporter.
proof fn lemma_component_layers_step(
    c: Component,
    sel: Seq<Component>,
    st: BuildState,
    cancel: CancellationToken,
)
    requires
        component_prerequisites(st.reg),
    ensures
        run_layers_spec(layers_for_component(c, sel), st, cancel) matches StepResult::Continue(st2)
            && component_prerequisites(st2.reg) && st.tasks.len() <= st2.tasks.len() && (forall|
            x: int,
        | 0 <= x < st.tasks.len() ==> #[trigger] st2.tasks[x] == st.tasks[x]) && (forall|x: int|
            st.tasks.len() <= x < st2.tasks.len() ==> (#[trigger] st2.tasks[x]).kind
                != TaskKind::PrometheusExporter && st2.tasks[x].cancellation == cancel),
{
    let ls = layers_for_component(c, sel);
    match c {
        Component::TreeApi => {
            assert(ls =~= Seq::<Layer>::empty());
        },
        Component::Core => {
            assert(ls.drop_first() =~= Seq::<Layer>::empty());
            lemma_upsert_preserves_prerequisites(st.reg, ResourceKind::ReplicaPool);
            let st1 = BuildState { reg: upsert(st.reg, ResourceKind::ReplicaPool).0, tasks: st.tasks };
            let st2 = push_task(st1, TaskKind::PostgresMetricsExporter, cancel);
            assert(attach_spec(ls[0], st, cancel) == StepResult::Continue(st2));
            assert(run_layers_spec(ls, st, cancel) == run_layers_spec(ls.drop_first(), st2, cancel));
            assert(run_layers_spec(ls.drop_first(), st2, cancel) == StepResult::Continue(st2));
        },
        Component::HttpApi => {
            assert(ls.drop_first() =~= Seq::<Layer>::empty());
            let st2 = push_task(st, TaskKind::HttpApiServer, cancel);
            assert(attach_spec(ls[0], st, cancel) == StepResult::Continue(st2));
            assert(run_layers_spec(ls, st, cancel) == run_layers_spec(ls.drop_first(), st2, cancel));
            assert(run_layers_spec(ls.drop_first(), st2, cancel) == StepResult::Continue(st2));
        },
        Component::WsApi => {
            assert(ls.drop_first() =~= Seq::<Layer>::empty());
            let st2 = push_task(st, TaskKind::WsApiServer, cancel);
            assert(attach_spec(ls[0], st, cancel) == StepResult::Continue(st2));
            assert(run_layers_spec(ls, st, cancel) == run_layers_spec(ls.drop_first(), st2, cancel));
            assert(run_layers_spec(ls.drop_first(), st2, cancel) == StepResult::Continue(st2));
        },
        Component::Tree => {
            assert(ls.drop_first() =~= Seq::<Layer>::empty());
            lemma_upsert_preserves_prerequisites(st.reg, ResourceKind::MasterPool);
            let st1 = BuildState { reg: upsert(st.reg, ResourceKind::MasterPool).0, tasks: st.tasks };
            let st2 = push_task(st1, TaskKind::TreeUpdater, cancel);
            if sel.contains(Component::TreeApi) {
                let st3 = push_task(st2, TaskKind::TreeApiServer, cancel);
                assert(attach_spec(ls[0], st, cancel) == StepResult::Continue(st3));
                assert(run_layers_spec(ls, st, cancel) == run_layers_spec(ls.drop_first(), st3, cancel));
                assert(run_layers_spec(ls.drop_first(), st3, cancel) == StepResult::Continue(st3));
            } else {
                assert(attach_spec(ls[0], st, cancel) == StepResult::Continue(st2));
                assert(run_layers_spec(ls, st, cancel) == run_layers_spec(ls.drop_first(), st2, cancel));
                assert(run_layers_spec(ls.drop_first(), st2, cancel) == StepResult::Continue(st2));
            }
        },
        Component::TreeFetcher => {
            assert(ls.drop_first() =~= Seq::<Layer>::empty());
            lemma_upsert_preserves_prerequisites(st.reg, ResourceKind::MasterPool);
            let st1 = BuildState { reg: upsert(st.reg, ResourceKind::MasterPool).0, tasks: st.tasks };
            let st2 = push_task(st1, TaskKind::TreeDataFetcher, cancel);
            assert(attach_spec(ls[0], st, cancel) == StepResult::Continue(st2));
            assert(run_layers_spec(ls, st, cancel) == run_layers_spec(ls.drop_first(), st2, cancel));
            assert(run_layers_spec(ls.drop_first(), st2, cancel) == StepResult::Continue(st2));
        },
    }
}

/// With the prerequisites published, the layers of any component list
/// attach to the very end, keep the prerequisites, leave every earlier
/// task untouched, and add only non-exporter tasks carrying the build's
/// cancellation token.
pub proof fn lemma_component_layers_run(
    cs: Seq<Component>,
    sel: Seq<Component>,
    st: BuildState,
    cancel: CancellationToken,
)
    requires
        component_prerequisites(st.reg),
    ensures
        run_layers_spec(component_layers(cs, sel), st, cancel) matches StepResult::Continue(st2)
            && component_prerequisites(st2.reg) && st.tasks.len() <= st2.tasks.len() && (forall|
            x: int,
        | 0 <= x < st.tasks.len() ==> #[trigger] st2.tasks[x] == st.tasks[x]) && (forall|x: int|
            st.tasks.len() <= x < st2.tasks.len() ==> (#[trigger] st2.tasks[x]).kind
                != TaskKind::PrometheusExporter && st2.tasks[x].cancellation == cancel),
    decreases cs.len(),
{
    if cs.len() == 0 {
        assert(component_layers(cs, sel) =~= Seq::<Layer>::empty());
    } else {
        lemma_component_layers_run(cs.drop_last(), sel, st, cancel);
        let head = component_layers(cs.drop_last(), sel);
        let tail = layers_for_component(cs.last(), sel);
        let st_mid = match run_layers_spec(head, st, cancel) {
            StepResult::Continue(m) => m,
            StepResult::Abort(_) => arbitrary(),
        };
        lemma_component_layers_step(cs.last(), sel, st_mid, cancel);
        lemma_run_layers_concat(head, tail, st, cancel);
    }
}

/// The kinds of a layer list, in order.
pub open spec fn layer_kinds(ls: Seq<Layer>) -> Seq<LayerKind> {
    ls.map_values(|l: Layer| l.spec_kind())
}

/// The base layers attach in the same fixed relative order whatever the
/// configuration and whatever the selection: interrupt handler, health
/// surface, metrics exporter (present exactly when configured — the one
/// documented soft-skip), pools, upstream client.
pub proof fn lemma_base_layers_fixed_order(c: ExternalNodeConfig)
    ensures
        c.prometheus is Some ==> layer_kinds(base_layers(c)) == seq![
            LayerKind::SigintHandler,
            LayerKind::Healthcheck,
            LayerKind::PrometheusExporter,
            LayerKind::Pools,
            LayerKind::MainNodeClient,
        ],
        c.prometheus is None ==> layer_kinds(base_layers(c)) == seq![
            LayerKind::SigintHandler,
            LayerKind::Healthcheck,
            LayerKind::Pools,
            LayerKind::MainNodeClient,
        ],
{
    match c.prometheus {
        Some(_) => {
            assert(layer_kinds(base_layers(c)) =~= seq![
                LayerKind::SigintHandler,
                LayerKind::Healthcheck,
                LayerKind::PrometheusExporter,
                LayerKind::Pools,
                LayerKind::MainNodeClient,
            ]);
        },
        None => {
            assert(layer_kinds(base_layers(c)) =~= seq![
                LayerKind::SigintHandler,
                LayerKind::Healthcheck,
                LayerKind::Pools,
                LayerKind::MainNodeClient,
            ]);
        },
    }
}

/// Whatever the selection holds and in whatever order, the attach plan
/// begins with exactly the base layers: every component layer comes
/// after all of them.
pub proof fn lemma_planned_layers_begin_with_base(c: ExternalNodeConfig, sel: Seq<Component>)
    ensures
        planned_layers(c, sel).len() >= base_layers(c).len(),
        planned_layers(c, sel).take(base_layers(c).len() as int) == base_layers(c),
{
    assert(planned_layers(c, sel).take(base_layers(c).len() as int) =~= base_layers(c));
}

/// Whenever the healthcheck server can bind its port, the whole planned
/// build succeeds — whatever the selection — and every registered task
/// carries the build's cancellation token, handed over at registration.
pub proof fn lemma_build_plan_succeeds(
    c: ExternalNodeConfig,
    sel: Seq<Component>,
    cancel: CancellationToken,
)
    requires
        c.healthcheck_port != 0,
    ensures
        run_layers_spec(planned_layers(c, sel), empty_state(), cancel)
            matches StepResult::Continue(st) && (forall|x: int|
            0 <= x < st.tasks.len() ==> (#[trigger] st.tasks[x]).cancellation == cancel),
{
    lemma_base_layers_run(c, cancel);
    let st_base = BuildState { reg: base_resources(c), tasks: base_tasks(c, cancel) };
    assert(base_resources(c)[2] == ResourceKind::ReplicaPool);
    assert(base_resources(c)[3] == ResourceKind::MainNodeClient);
    lemma_lookup_contains(base_resources(c), ResourceKind::ReplicaPool);
    lemma_lookup_contains(base_resources(c), ResourceKind::MainNodeClient);
    lemma_component_layers_run(spec_order(sel), sel, st_base, cancel);
    lemma_run_layers_concat(
        base_layers(c),
        component_layers(spec_order(sel), sel),
        empty_state(),
        cancel,
    );
}

/// The documented soft-skip, whole-plan form: with no metrics
/// configuration the build still succeeds, and no metrics exporter task
/// is ever registered — by any layer.
pub proof fn lemma_metrics_soft_skip(
    c: ExternalNodeConfig,
    sel: Seq<Component>,
    cancel: CancellationToken,
)
    requires
        c.prometheus is None,
        c.healthcheck_port != 0,
    ensures
        run_layers_spec(planned_layers(c, sel), empty_state(), cancel)
            matches StepResult::Continue(st) && (forall|x: int|
            0 <= x < st.tasks.len() ==> (#[trigger] st.tasks[x]).kind
                != TaskKind::PrometheusExporter),
{
    lemma_base_layers_run(c, cancel);
    let st_base = BuildState { reg: base_resources(c), tasks: base_tasks(c, cancel) };
    assert(base_resources(c)[2] == ResourceKind::ReplicaPool);
    assert(base_resources(c)[3] == ResourceKind::MainNodeClient);
    lemma_lookup_contains(base_resources(c), ResourceKind::ReplicaPool);
    lemma_lookup_contains(base_resources(c), ResourceKind::MainNodeClient);
    lemma_component_layers_run(spec_order(sel), sel, st_base, cancel);
    lemma_run_layers_concat(
        base_layers(c),
        component_layers(spec_order(sel), sel),
        empty_state(),
        cancel,
    );
    assert(base_tasks(c, cancel)[0].kind == TaskKind::SigintWatcher);
    assert(base_tasks(c, cancel)[1].kind == TaskKind::HealthcheckServer);
}

/// A failing base layer aborts everything: when the healthcheck server
/// cannot bind its port, the whole planned build — whatever the
/// selection — aborts with exactly that layer's attach error.
pub proof fn lemma_port_bind_failure_aborts(
    c: ExternalNodeConfig,
    sel: Seq<Component>,
    cancel: CancellationToken,
)
    requires
        c.healthcheck_port == 0,
    ensures
        run_layers_spec(planned_layers(c, sel), empty_state(), cancel) == StepResult::Abort(
            NodeError::LayerAttach {
                layer: LayerKind::Healthcheck,
                cause: AttachCause::PortBind { port: c.healthcheck_port },
            },
        ),
{
    let b = base_layers(c);
    let s0 = empty_state();
    let s1 = push_task(s0, TaskKind::SigintWatcher, cancel);
    let e = NodeError::LayerAttach {
        layer: LayerKind::Healthcheck,
        cause: AttachCause::PortBind { port: c.healthcheck_port },
    };
    assert(b[0] == Layer::SigintHandler);
    assert(b[1] == Layer::Healthcheck(crate::config::spec_healthcheck_settings(c)));
    assert(attach_spec(b[0], s0, cancel) == StepResult::Continue(s1));
    assert(attach_spec(b[1], s1, cancel) == StepResult::Abort(e));
    assert(b.drop_first()[0] == b[1]);
    assert(run_layers_spec(b.drop_first(), s1, cancel) == StepResult::Abort(e));
    assert(run_layers_spec(b, s0, cancel) == StepResult::Abort(e));
    lemma_run_layers_concat(b, component_layers(spec_order(sel), sel), s0, cancel);
}

} // verus!
