//! Builder for the external node: which layers a configuration and a
//! component selection produce, and in which order they attach.
//!
//! `build` first plans the fixed base layers (unconditionally, in a fixed
//! relative order: later base layers consume resources earlier ones
//! produce), then validates the selection, orders it stably by tier, maps
//! each selected component to its layers, and finally attaches everything
//! in that order, all-or-nothing. The whole plan is the pure function
//! [`planned_layers`], so the outcome of a build is pinned down by
//! [`run_layers_spec`] over it.

use vstd::prelude::*;

use crate::builder::empty_state;
use crate::builder::run_layers_spec;
use crate::builder::Service;
use crate::builder::ServiceBuilder;
use crate::component::contains_component;
use crate::component::order_components;
use crate::component::selection_valid;
use crate::component::spec_order;
use crate::component::validate_selection;
use crate::component::Component;
use crate::config::spec_healthcheck_settings;
use crate::config::spec_main_node_client_settings;
use crate::config::spec_pools_settings;
use crate::config::ExternalNodeConfig;
use crate::config::HealthcheckSettings;
use crate::config::MainNodeClientSettings;
use crate::config::PoolsSettings;
use crate::error::NodeError;
use crate::error::Notice;
use crate::layer::CancellationToken;
use crate::layer::Layer;
use crate::layer::StepResult;

verus! {

/// The fixed base layers a configuration induces, in their fixed relative
/// order: the interrupt handler first, then the health surface, then the
/// metrics exporter that reports into it (omitted — the documented
/// soft-skip — when no metrics configuration is present), then the shared
/// connection pools, then the upstream client.
pub open spec fn base_layers(c: ExternalNodeConfig) -> Seq<Layer> {
    seq![Layer::SigintHandler, Layer::Healthcheck(spec_healthcheck_settings(c))] + (match c
        .prometheus {
        Some(p) => seq![Layer::PrometheusExporter(p)],
        None => Seq::<Layer>::empty(),
    }) + seq![
        Layer::Pools(spec_pools_settings(c)),
        Layer::MainNodeClient(spec_main_node_client_settings(c)),
    ]
}

/// The layers one selected component contributes. A subsumed component
/// (the tree API) contributes none of its own: the tree component starts
/// it as a side effect, which is why the tree layer takes the full
/// selection into account.
pub open spec fn layers_for_component(c: Component, sel: Seq<Component>) -> Seq<Layer> {
    match c {
        Component::Core => seq![Layer::PostgresMetrics],
        Component::HttpApi => seq![Layer::HttpApi],
        Component::WsApi => seq![Layer::WsApi],
        Component::Tree => seq![
            Layer::MerkleTree { with_api: sel.contains(Component::TreeApi) },
        ],
        Component::TreeApi => Seq::<Layer>::empty(),
        Component::TreeFetcher => seq![Layer::TreeDataFetcher],
    }
}

/// The layers an ordered component list contributes, in that order.
pub open spec fn component_layers(ordered: Seq<Component>, sel: Seq<Component>) -> Seq<Layer>
    decreases ordered.len(),
{
    if ordered.len() == 0 {
        Seq::<Layer>::empty()
    } else {
        component_layers(ordered.drop_last(), sel) + layers_for_component(ordered.last(), sel)
    }
}

/// The full attach plan of a build: the fixed base layers, then the
/// layers of the validated selection in stable tier order.
pub open spec fn planned_layers(c: ExternalNodeConfig, sel: Seq<Component>) -> Seq<Layer> {
    base_layers(c) + component_layers(spec_order(sel), sel)
}

/// The notices a successful build records: exactly one, when the metrics
/// exporter was soft-skipped for want of configuration.
pub open spec fn spec_build_notices(c: ExternalNodeConfig) -> Seq<Notice> {
    if c.prometheus is None {
        seq![Notice::PrometheusConfigMissing]
    } else {
        Seq::<Notice>::empty()
    }
}

/// Builder for the external node.
#[derive(Debug)]
pub struct ExternalNodeBuilder {
    node: ServiceBuilder,
    config: ExternalNodeConfig,
}

impl ExternalNodeBuilder {
    /// The layers accumulated so far, in attach order.
    pub closed spec fn spec_layers(self) -> Seq<Layer> {
        self.node.spec_layers()
    }

    /// The configuration this builder assembles the node from.
    pub closed spec fn spec_config(self) -> ExternalNodeConfig {
        self.config
    }

    /// The cancellation token of this build.
    pub closed spec fn spec_cancellation(self) -> CancellationToken {
        self.node.spec_cancellation()
    }

    /// The notices recorded so far.
    pub closed spec fn spec_notices(self) -> Seq<Notice> {
        self.node.spec_notices()
    }

    /// A fresh builder: no layers, no notices, one cancellation token.
    pub fn new(config: ExternalNodeConfig) -> (r: Self)
        ensures
            r.spec_layers() == Seq::<Layer>::empty(),
            r.spec_notices() == Seq::<Notice>::empty(),
            r.spec_config() == config,
            r.spec_cancellation() == (CancellationToken { id: 0 }),
    {
        ExternalNodeBuilder { node: ServiceBuilder::new(), config }
    }

    fn add_sigint_handler_layer(&mut self) -> (r: Result<(), NodeError>)
        ensures
            r is Ok,
            final(self).spec_layers() == old(self).spec_layers().push(Layer::SigintHandler),
            final(self).spec_config() == old(self).spec_config(),
            final(self).spec_cancellation() == old(self).spec_cancellation(),
            final(self).spec_notices() == old(self).spec_notices(),
    {
        self.node.add_layer(Layer::SigintHandler);
        Ok(())
    }

    fn add_healthcheck_layer(&mut self) -> (r: Result<(), NodeError>)
        ensures
            r is Ok,
            final(self).spec_layers() == old(self).spec_layers().push(
                Layer::Healthcheck(spec_healthcheck_settings(old(self).spec_config())),
            ),
            final(self).spec_config() == old(self).spec_config(),
            final(self).spec_cancellation() == old(self).spec_cancellation(),
            final(self).spec_notices() == old(self).spec_notices(),
    {
        let settings = HealthcheckSettings {
            port: self.config.healthcheck_port,
            slow_time_limit_ms: self.config.healthcheck_slow_time_limit_ms,
            hard_time_limit_ms: self.config.healthcheck_hard_time_limit_ms,
        };
        self.node.add_layer(Layer::Healthcheck(settings));
        Ok(())
    }

    /// The documented soft-skip: with no metrics configuration, the
    /// exporter layer is omitted entirely, a notice is recorded, and the
    /// build proceeds — distinct from every fatal condition.
    fn add_prometheus_exporter_layer(&mut self) -> (r: Result<(), NodeError>)
        ensures
            r is Ok,
            (old(self).spec_config().prometheus matches Some(p) ==> {
                &&& final(self).spec_layers() == old(self).spec_layers().push(
                    Layer::PrometheusExporter(p),
                )
                &&& final(self).spec_notices() == old(self).spec_notices()
            }),
            (old(self).spec_config().prometheus is None ==> {
                &&& final(self).spec_layers() == old(self).spec_layers()
                &&& final(self).spec_notices() == old(self).spec_notices().push(
                    Notice::PrometheusConfigMissing,
                )
            }),
            final(self).spec_config() == old(self).spec_config(),
            final(self).spec_cancellation() == old(self).spec_cancellation(),
    {
        match self.config.prometheus {
            Some(prom_config) => {
                self.node.add_layer(Layer::PrometheusExporter(prom_config));
            },
            None => {
                self.node.record_notice(Notice::PrometheusConfigMissing);
            },
        }
        Ok(())
    }

    /// The replica pool reuses the master configuration: the node's
    /// configuration does not describe replicas separately.
    fn add_pools_layer(&mut self) -> (r: Result<(), NodeError>)
        ensures
            r is Ok,
            final(self).spec_layers() == old(self).spec_layers().push(
                Layer::Pools(spec_pools_settings(old(self).spec_config())),
            ),
            final(self).spec_config() == old(self).spec_config(),
            final(self).spec_cancellation() == old(self).spec_cancellation(),
            final(self).spec_notices() == old(self).spec_notices(),
    {
        let settings = PoolsSettings {
            max_connections: self.config.max_connections,
            slow_query_threshold_ms: self.config.slow_query_threshold_ms,
            with_master: true,
            with_replica: true,
        };
        self.node.add_layer(Layer::Pools(settings));
        Ok(())
    }

    fn add_main_node_client_layer(&mut self) -> (r: Result<(), NodeError>)
        ensures
            r is Ok,
            final(self).spec_layers() == old(self).spec_layers().push(
                Layer::MainNodeClient(spec_main_node_client_settings(old(self).spec_config())),
            ),
            final(self).spec_config() == old(self).spec_config(),
            final(self).spec_cancellation() == old(self).spec_cancellation(),
            final(self).spec_notices() == old(self).spec_notices(),
    {
        let settings = MainNodeClientSettings {
            url: self.config.main_node_url.clone(),
            rate_limit_rps: self.config.main_node_rate_limit_rps,
            network_id: self.config.network_id,
        };
        self.node.add_layer(Layer::MainNodeClient(settings));
        Ok(())
    }

    /// Reserved extension point: global precondition layers required by
    /// the overall selection. No such precondition exists today, so the
    /// plan is left unchanged.
    fn add_preconditions(&mut self) -> (r: Result<(), NodeError>)
        ensures
            r is Ok,
            final(self).spec_layers() == old(self).spec_layers(),
            final(self).spec_config() == old(self).spec_config(),
            final(self).spec_cancellation() == old(self).spec_cancellation(),
            final(self).spec_notices() == old(self).spec_notices(),
    {
        Ok(())
    }

    fn add_postgres_metrics_layer(&mut self) -> (r: Result<(), NodeError>)
        ensures
            r is Ok,
            final(self).spec_layers() == old(self).spec_layers().push(Layer::PostgresMetrics),
            final(self).spec_config() == old(self).spec_config(),
            final(self).spec_cancellation() == old(self).spec_cancellation(),
            final(self).spec_notices() == old(self).spec_notices(),
    {
        self.node.add_layer(Layer::PostgresMetrics);
        Ok(())
    }

    fn add_tree_data_fetcher_layer(&mut self) -> (r: Result<(), NodeError>)
        ensures
            r is Ok,
            final(self).spec_layers() == old(self).spec_layers().push(Layer::TreeDataFetcher),
            final(self).spec_config() == old(self).spec_config(),
            final(self).spec_cancellation() == old(self).spec_cancellation(),
            final(self).spec_notices() == old(self).spec_notices(),
    {
        self.node.add_layer(Layer::TreeDataFetcher);
        Ok(())
    }

    /// The tree layer also serves the tree API when that component was
    /// selected: the tree API component is subsumed and contributes no
    /// layer of its own.
    fn add_tree_layer(&mut self, with_api: bool) -> (r: Result<(), NodeError>)
        ensures
            r is Ok,
            final(self).spec_layers() == old(self).spec_layers().push(
                Layer::MerkleTree { with_api },
            ),
            final(self).spec_config() == old(self).spec_config(),
            final(self).spec_cancellation() == old(self).spec_cancellation(),
            final(self).spec_notices() == old(self).spec_notices(),
    {
        self.node.add_layer(Layer::MerkleTree { with_api });
        Ok(())
    }

    fn add_http_api_layer(&mut self) -> (r: Result<(), NodeError>)
        ensures
            r is Ok,
            final(self).spec_layers() == old(self).spec_layers().push(Layer::HttpApi),
            final(self).spec_config() == old(self).spec_config(),
            final(self).spec_cancellation() == old(self).spec_cancellation(),
            final(self).spec_notices() == old(self).spec_notices(),
    {
        self.node.add_layer(Layer::HttpApi);
        Ok(())
    }

    fn add_ws_api_layer(&mut self) -> (r: Result<(), NodeError>)
        ensures
            r is Ok,
            final(self).spec_layers() == old(self).spec_layers().push(Layer::WsApi),
            final(self).spec_config() == old(self).spec_config(),
            final(self).spec_cancellation() == old(self).spec_cancellation(),
            final(self).spec_notices() == old(self).spec_notices(),
    {
        self.node.add_layer(Layer::WsApi);
        Ok(())
    }

    /// Assembles the node: attaches the fixed base layers, validates the
    /// selection before any attach could run, orders it stably by tier,
    /// attaches each selected component's layers in that order, and
    /// finalizes into a [`Service`] — or aborts with the first error.
    ///
    /// The outcome is exactly what [`run_layers_spec`] yields on
    /// [`planned_layers`]: a service holding precisely the tasks those
    /// layers register (each carrying this build's cancellation token),
    /// or the first attach error; an invalid selection fails up front
    /// with the configuration error naming the missing dependency, and
    /// in every failure no layer's task ever starts.
    pub fn build(self, components: Vec<Component>) -> (r: Result<Service, NodeError>)
        requires
            self.spec_layers() == Seq::<Layer>::empty(),
            self.spec_notices() == Seq::<Notice>::empty(),
        ensures
            !selection_valid(components@) ==> r == Result::<Service, NodeError>::Err(
                NodeError::Configuration {
                    dependent: Component::TreeApi,
                    missing: Component::Tree,
                },
            ),
            selection_valid(components@) ==> (run_layers_spec(
                planned_layers(self.spec_config(), components@),
                empty_state(),
                self.spec_cancellation(),
            ) matches StepResult::Continue(st) ==> r matches Ok(s) && s.spec_tasks() == st.tasks
                && s.spec_cancellation() == self.spec_cancellation() && s.spec_notices()
                == spec_build_notices(self.spec_config())),
            selection_valid(components@) ==> (run_layers_spec(
                planned_layers(self.spec_config(), components@),
                empty_state(),
                self.spec_cancellation(),
            ) matches StepResult::Abort(e) ==> r == Result::<Service, NodeError>::Err(e)),
    {
        let mut this = self;
        let ghost cfg = this.spec_config();
        let ghost tok = this.spec_cancellation();

        this.add_sigint_handler_layer()?;
        this.add_healthcheck_layer()?;
        this.add_prometheus_exporter_layer()?;
        this.add_pools_layer()?;
        this.add_main_node_client_layer()?;

        this.add_preconditions()?;

        proof {
            if cfg.prometheus is Some {
                assert(this.spec_layers() =~= base_layers(cfg));
            } else {
                assert(this.spec_layers() =~= base_layers(cfg));
            }
            assert(this.spec_notices() =~= spec_build_notices(cfg));
        }

        validate_selection(&components)?;

        let ordered = order_components(&components);
        let with_api = contains_component(&components, Component::TreeApi);

        proof {
            assert(ordered@.take(0) =~= Seq::<Component>::empty());
            assert(this.spec_layers() =~= base_layers(cfg) + component_layers(
                ordered@.take(0),
                components@,
            ));
        }

        let mut i: usize = 0;
        while i < ordered.len()
            invariant
                0 <= i <= ordered.len(),
                ordered@ == spec_order(components@),
                with_api == components@.contains(Component::TreeApi),
                this.spec_layers() == base_layers(cfg) + component_layers(
                    ordered@.take(i as int),
                    components@,
                ),
                this.spec_config() == cfg,
                this.spec_cancellation() == tok,
                this.spec_notices() == spec_build_notices(cfg),
            decreases ordered.len() - i,
        {
            proof {
                assert(ordered@.take(i as int + 1).drop_last() =~= ordered@.take(i as int));
                assert(ordered@.take(i as int + 1).last() == ordered@[i as int]);
            }
            match ordered[i] {
                Component::HttpApi => {
                    this.add_http_api_layer()?;
                },
                Component::WsApi => {
                    this.add_ws_api_layer()?;
                },
                Component::Tree => {
                    this.add_tree_layer(with_api)?;
                },
                Component::TreeApi => {
                    // Validated above; the tree layer serves the API.
                },
                Component::TreeFetcher => {
                    this.add_tree_data_fetcher_layer()?;
                },
                Component::Core => {
                    // The core is the mandatory singleton component; it
                    // carries the auxiliary baseline duties, namely the
                    // database metrics exporter.
                    this.add_postgres_metrics_layer()?;
                },
            }
            proof {
                assert(this.spec_layers() =~= base_layers(cfg) + component_layers(
                    ordered@.take(i as int + 1),
                    components@,
                ));
            }
            i = i + 1;
        }

        proof {
            assert(ordered@.take(ordered@.len() as int) =~= ordered@);
            assert(this.spec_layers() =~= planned_layers(cfg, components@));
        }

        let ExternalNodeBuilder { node, config: _ } = this;
        node.build()
    }
}

} // verus!
