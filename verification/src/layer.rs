//! Layers: independently attachable units of subsystem initialization.
//!
//! A layer exposes a single attach operation that reads and writes the
//! resource registry and may register long-running tasks. The closed set
//! of layer kinds below replaces dynamic dispatch: every layer the core
//! can attach is a variant of [`Layer`], and its whole attach behavior is
//! stated by [`attach_spec`]. Registered tasks do not run during the
//! build; they are collected, each with the shared cancellation token it
//! was handed at registration, and start only once every layer attached.

use vstd::prelude::*;

use crate::config::HealthcheckSettings;
use crate::config::MainNodeClientSettings;
use crate::config::PoolsSettings;
use crate::config::PrometheusSettings;
use crate::error::AttachCause;
use crate::error::NodeError;
use crate::registry::lookup;
use crate::registry::upsert;
use crate::registry::ResourceKind;
use crate::registry::ResourceRegistry;

verus! {

/// Shared cancellation token, created once per build and handed to every
/// task at registration time; each running task is expected to observe it
/// and terminate within a bounded grace period.
#[derive(Clone, Copy, Debug, PartialEq, Eq, Structural)]
pub struct CancellationToken {
    /// Identity of the token within the process.
    pub id: u64,
}

/// The long-running tasks a layer may register.
#[derive(Clone, Copy, Debug, PartialEq, Eq, Structural)]
pub enum TaskKind {
    /// Watches for an interrupt signal and triggers cancellation.
    SigintWatcher,
    /// Serves the node's health endpoint.
    HealthcheckServer,
    /// Exposes collected metrics to the configured scraper.
    PrometheusExporter,
    /// Periodically exports database metrics.
    PostgresMetricsExporter,
    /// Fetches tree data from the main node in the background.
    TreeDataFetcher,
    /// Maintains the Merkle tree.
    TreeUpdater,
    /// Serves the Merkle tree API.
    TreeApiServer,
    /// Serves the HTTP API.
    HttpApiServer,
    /// Serves the WebSocket API.
    WsApiServer,
}

/// A registered long-running task: what it is, and the cancellation token
/// it was handed at registration.
#[derive(Clone, Copy, Debug, PartialEq, Eq, Structural)]
pub struct Task {
    /// Which task this is.
    pub kind: TaskKind,
    /// The shared token the task must observe to shut down.
    pub cancellation: CancellationToken,
}

/// Name of a layer, for ordering documentation and error reporting.
#[derive(Clone, Copy, Debug, PartialEq, Eq, Structural)]
pub enum LayerKind {
    /// Interrupt-signal handler.
    SigintHandler,
    /// Healthcheck server.
    Healthcheck,
    /// Metrics exporter.
    PrometheusExporter,
    /// Database connection pools.
    Pools,
    /// Upstream main-node client.
    MainNodeClient,
    /// Database metrics exporter.
    PostgresMetrics,
    /// Background tree data fetcher.
    TreeDataFetcher,
    /// Merkle tree maintenance (and, when requested, its API).
    MerkleTree,
    /// HTTP API server.
    HttpApi,
    /// WebSocket API server.
    WsApi,
}

/// A named initialization unit. Created once per build and invoked
/// exactly once; the variant's payload is the configuration the layer
/// needs at attach time.
#[derive(Clone, Debug)]
pub enum Layer {
    /// Registers the interrupt watcher that fires the cancellation token.
    SigintHandler,
    /// Publishes the health state and registers the healthcheck server.
    Healthcheck(HealthcheckSettings),
    /// Reports into the health surface and registers the exporter.
    PrometheusExporter(PrometheusSettings),
    /// Publishes the configured database connection pools.
    Pools(PoolsSettings),
    /// Publishes the upstream main-node client.
    MainNodeClient(MainNodeClientSettings),
    /// Registers the database metrics exporter over the replica pool.
    PostgresMetrics,
    /// Registers the background tree data fetcher.
    TreeDataFetcher,
    /// Registers tree maintenance; also the tree API when `with_api` is
    /// set (the tree API component is subsumed by the tree component).
    MerkleTree { with_api: bool },
    /// Registers the HTTP API server.
    HttpApi,
    /// Registers the WebSocket API server.
    WsApi,
}

impl Layer {
    /// The name of this layer.
    pub open spec fn spec_kind(self) -> LayerKind {
        match self {
            Layer::SigintHandler => LayerKind::SigintHandler,
            Layer::Healthcheck(_) => LayerKind::Healthcheck,
            Layer::PrometheusExporter(_) => LayerKind::PrometheusExporter,
            Layer::Pools(_) => LayerKind::Pools,
            Layer::MainNodeClient(_) => LayerKind::MainNodeClient,
            Layer::PostgresMetrics => LayerKind::PostgresMetrics,
            Layer::TreeDataFetcher => LayerKind::TreeDataFetcher,
            Layer::MerkleTree { .. } => LayerKind::MerkleTree,
            Layer::HttpApi => LayerKind::HttpApi,
            Layer::WsApi => LayerKind::WsApi,
        }
    }

    /// Executable layer naming; agrees with [`Layer::spec_kind`].
    pub fn kind(&self) -> (k: LayerKind)
        ensures
            k == self.spec_kind(),
    {
        match self {
            Layer::SigintHandler => LayerKind::SigintHandler,
            Layer::Healthcheck(_) => LayerKind::Healthcheck,
            Layer::PrometheusExporter(_) => LayerKind::PrometheusExporter,
            Layer::Pools(_) => LayerKind::Pools,
            Layer::MainNodeClient(_) => LayerKind::MainNodeClient,
            Layer::PostgresMetrics => LayerKind::PostgresMetrics,
            Layer::TreeDataFetcher => LayerKind::TreeDataFetcher,
            Layer::MerkleTree { .. } => LayerKind::MerkleTree,
            Layer::HttpApi => LayerKind::HttpApi,
            Layer::WsApi => LayerKind::WsApi,
        }
    }
}

/// State of a build while layers attach: the registry contents and the
/// tasks registered so far.
pub struct BuildState {
    /// Kinds bound in the resource registry, in allocation order.
    pub reg: Seq<ResourceKind>,
    /// Tasks registered so far, in registration order.
    pub tasks: Seq<Task>,
}

/// Outcome of attaching one layer, or a prefix of layers: either the
/// build goes on from a new state, or it aborts with the first error.
pub enum StepResult {
    /// The layer attached; the build continues from this state.
    Continue(BuildState),
    /// The layer failed; the whole build aborts with this error.
    Abort(NodeError),
}

/// State after registering one more task carrying the shared token.
pub open spec fn push_task(st: BuildState, kind: TaskKind, cancel: CancellationToken) -> BuildState {
    BuildState { reg: st.reg, tasks: st.tasks.push(Task { kind, cancellation: cancel }) }
}

/// Insert-once step: publishing kind `k` on behalf of `layer` appends a
/// fresh binding, or aborts with a duplicate-resource error.
pub open spec fn insert_step(st: BuildState, k: ResourceKind, layer: LayerKind) -> StepResult {
    if lookup(st.reg, k) is Some {
        StepResult::Abort(NodeError::DuplicateResource { kind: k, layer })
    } else {
        StepResult::Continue(BuildState { reg: st.reg.push(k), tasks: st.tasks })
    }
}

/// Whether a resource of kind `k` has been published in this state.
pub open spec fn has_resource(st: BuildState, k: ResourceKind) -> bool {
    lookup(st.reg, k) is Some
}

/// What attaching layer `l` in state `st` does: the exact registry and
/// task transition, or the exact error that aborts the build. The one
/// initialization that can fail of itself is binding the healthcheck
/// port, and port 0 stands for a port that cannot be bound.
pub open spec fn attach_spec(l: Layer, st: BuildState, cancel: CancellationToken) -> StepResult {
    match l {
        Layer::SigintHandler => StepResult::Continue(
            push_task(st, TaskKind::SigintWatcher, cancel),
        ),
        Layer::Healthcheck(s) => if s.port == 0 {
            StepResult::Abort(
                NodeError::LayerAttach {
                    layer: LayerKind::Healthcheck,
                    cause: AttachCause::PortBind { port: s.port },
                },
            )
        } else {
            match insert_step(st, ResourceKind::HealthState, LayerKind::Healthcheck) {
                StepResult::Continue(st1) => StepResult::Continue(
                    push_task(st1, TaskKind::HealthcheckServer, cancel),
                ),
                StepResult::Abort(e) => StepResult::Abort(e),
            }
        },
        Layer::PrometheusExporter(_) => if has_resource(st, ResourceKind::HealthState) {
            StepResult::Continue(push_task(st, TaskKind::PrometheusExporter, cancel))
        } else {
            StepResult::Abort(
                NodeError::MissingResource {
                    kind: ResourceKind::HealthState,
                    layer: LayerKind::PrometheusExporter,
                },
            )
        },
        Layer::Pools(s) => {
            let after_master = if s.with_master {
                insert_step(st, ResourceKind::MasterPool, LayerKind::Pools)
            } else {
                StepResult::Continue(st)
            };
            match after_master {
                StepResult::Continue(st1) => if s.with_replica {
                    insert_step(st1, ResourceKind::ReplicaPool, LayerKind::Pools)
                } else {
                    StepResult::Continue(st1)
                },
                StepResult::Abort(e) => StepResult::Abort(e),
            }
        },
        Layer::MainNodeClient(_) => insert_step(
            st,
            ResourceKind::MainNodeClient,
            LayerKind::MainNodeClient,
        ),
        Layer::PostgresMetrics => {
            let st1 = BuildState { reg: upsert(st.reg, ResourceKind::ReplicaPool).0, tasks: st.tasks };
            StepResult::Continue(push_task(st1, TaskKind::PostgresMetricsExporter, cancel))
        },
        Layer::TreeDataFetcher => if has_resource(st, ResourceKind::MainNodeClient) {
            let st1 = BuildState { reg: upsert(st.reg, ResourceKind::MasterPool).0, tasks: st.tasks };
            StepResult::Continue(push_task(st1, TaskKind::TreeDataFetcher, cancel))
        } else {
            StepResult::Abort(
                NodeError::MissingResource {
                    kind: ResourceKind::MainNodeClient,
                    layer: LayerKind::TreeDataFetcher,
                },
            )
        },
        Layer::MerkleTree { with_api } => {
            let st1 = BuildState { reg: upsert(st.reg, ResourceKind::MasterPool).0, tasks: st.tasks };
            let st2 = push_task(st1, TaskKind::TreeUpdater, cancel);
            if with_api {
                StepResult::Continue(push_task(st2, TaskKind::TreeApiServer, cancel))
            } else {
                StepResult::Continue(st2)
            }
        },
        Layer::HttpApi => if !has_resource(st, ResourceKind::ReplicaPool) {
            StepResult::Abort(
                NodeError::MissingResource {
                    kind: ResourceKind::ReplicaPool,
                    layer: LayerKind::HttpApi,
                },
            )
        } else if !has_resource(st, ResourceKind::MainNodeClient) {
            StepResult::Abort(
                NodeError::MissingResource {
                    kind: ResourceKind::MainNodeClient,
                    layer: LayerKind::HttpApi,
                },
            )
        } else {
            StepResult::Continue(push_task(st, TaskKind::HttpApiServer, cancel))
        },
        Layer::WsApi => if !has_resource(st, ResourceKind::ReplicaPool) {
            StepResult::Abort(
                NodeError::MissingResource {
                    kind: ResourceKind::ReplicaPool,
                    layer: LayerKind::WsApi,
                },
            )
        } else if !has_resource(st, ResourceKind::MainNodeClient) {
            StepResult::Abort(
                NodeError::MissingResource {
                    kind: ResourceKind::MainNodeClient,
                    layer: LayerKind::WsApi,
                },
            )
        } else {
            StepResult::Continue(push_task(st, TaskKind::WsApiServer, cancel))
        },
    }
}

impl Layer {
    /// Attaches this layer: reads and writes the registry and registers
    /// tasks, each carrying the shared cancellation token, exactly as
    /// [`attach_spec`] states. Invoked exactly once per build, in the
    /// order the builder fixed. On an error the build aborts, so the
    /// partially updated registry and task list are discarded unread.
    pub fn attach(
        &self,
        registry: &mut ResourceRegistry,
        cancellation: CancellationToken,
        tasks: &mut Vec<Task>,
    ) -> (r: Result<(), NodeError>)
        requires
            old(registry).wf(),
        ensures
            final(registry).wf(),
            (attach_spec(
                *self,
                BuildState { reg: old(registry).kinds(), tasks: old(tasks)@ },
                cancellation,
            ) matches StepResult::Continue(st) ==> r is Ok && final(registry).kinds() == st.reg
                && final(tasks)@ == st.tasks),
            (attach_spec(
                *self,
                BuildState { reg: old(registry).kinds(), tasks: old(tasks)@ },
                cancellation,
            ) matches StepResult::Abort(e) ==> r == Result::<(), NodeError>::Err(e)),
    {
        match self {
            Layer::SigintHandler => {
                tasks.push(Task { kind: TaskKind::SigintWatcher, cancellation });
                Ok(())
            },
            Layer::Healthcheck(s) => {
                if s.port == 0 {
                    return Err(NodeError::LayerAttach {
                        layer: LayerKind::Healthcheck,
                        cause: AttachCause::PortBind { port: s.port },
                    });
                }
                registry.insert(ResourceKind::HealthState, LayerKind::Healthcheck)?;
                tasks.push(Task { kind: TaskKind::HealthcheckServer, cancellation });
                Ok(())
            },
            Layer::PrometheusExporter(_) => {
                registry.get(ResourceKind::HealthState, LayerKind::PrometheusExporter)?;
                tasks.push(Task { kind: TaskKind::PrometheusExporter, cancellation });
                Ok(())
            },
            Layer::Pools(s) => {
                if s.with_master {
                    registry.insert(ResourceKind::MasterPool, LayerKind::Pools)?;
                }
                if s.with_replica {
                    registry.insert(ResourceKind::ReplicaPool, LayerKind::Pools)?;
                }
                Ok(())
            },
            Layer::MainNodeClient(_) => {
                registry.insert(ResourceKind::MainNodeClient, LayerKind::MainNodeClient)?;
                Ok(())
            },
            Layer::PostgresMetrics => {
                registry.get_or_insert(ResourceKind::ReplicaPool);
                tasks.push(Task { kind: TaskKind::PostgresMetricsExporter, cancellation });
                Ok(())
            },
            Layer::TreeDataFetcher => {
                registry.get(ResourceKind::MainNodeClient, LayerKind::TreeDataFetcher)?;
                registry.get_or_insert(ResourceKind::MasterPool);
                tasks.push(Task { kind: TaskKind::TreeDataFetcher, cancellation });
                Ok(())
            },
            Layer::MerkleTree { with_api } => {
                registry.get_or_insert(ResourceKind::MasterPool);
                tasks.push(Task { kind: TaskKind::TreeUpdater, cancellation });
                if *with_api {
                    tasks.push(Task { kind: TaskKind::TreeApiServer, cancellation });
                }
                Ok(())
            },
            Layer::HttpApi => {
                registry.get(ResourceKind::ReplicaPool, LayerKind::HttpApi)?;
                registry.get(ResourceKind::MainNodeClient, LayerKind::HttpApi)?;
                tasks.push(Task { kind: TaskKind::HttpApiServer, cancellation });
                Ok(())
            },
            Layer::WsApi => {
                registry.get(ResourceKind::ReplicaPool, LayerKind::WsApi)?;
                registry.get(ResourceKind::MainNodeClient, LayerKind::WsApi)?;
                tasks.push(Task { kind: TaskKind::WsApiServer, cancellation });
                Ok(())
            },
        }
    }
}

} // verus!
