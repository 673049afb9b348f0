//! Configuration surface consumed by the base layers.
//!
//! Parsing and loading of configuration happen outside the core; the core
//! receives plain values. Optional fields drive optional behavior: an
//! absent metrics configuration triggers the documented soft-skip of the
//! metrics exporter layer, while every other field is carried verbatim
//! into the settings of the base layer that consumes it.

use vstd::prelude::*;

verus! {

/// Settings of the metrics exporter layer. Structurally optional: when
/// the node has no metrics configuration at all, the layer is omitted.
#[derive(Clone, Copy, Debug, PartialEq, Eq, Structural)]
pub struct PrometheusSettings {
    /// Port the exporter listens on.
    pub port: u16,
}

/// Settings of the healthcheck server layer.
#[derive(Clone, Copy, Debug, PartialEq, Eq, Structural)]
pub struct HealthcheckSettings {
    /// Port the healthcheck server binds. Port 0 stands for a port that
    /// cannot be bound: attaching with it fails with the layer's error.
    pub port: u16,
    /// Optional latency threshold above which a check is reported slow.
    pub slow_time_limit_ms: Option<u64>,
    /// Optional latency threshold above which a check is reported failed.
    pub hard_time_limit_ms: Option<u64>,
}

/// Settings of the connection-pools layer. The replica configuration is
/// not supplied separately, so the master configuration is reused for it.
#[derive(Clone, Copy, Debug, PartialEq, Eq, Structural)]
pub struct PoolsSettings {
    /// Cap on the number of pooled connections.
    pub max_connections: u32,
    /// Optional latency-logging cutoff for slow queries.
    pub slow_query_threshold_ms: Option<u64>,
    /// Whether the layer publishes the read-write pool.
    pub with_master: bool,
    /// Whether the layer publishes the read-only replica pool.
    pub with_replica: bool,
}

/// Settings of the upstream main-node client layer.
#[derive(Clone, Debug)]
pub struct MainNodeClientSettings {
    /// Endpoint of the upstream main node.
    pub url: String,
    /// Optional client-side request-rate cap, in requests per second.
    pub rate_limit_rps: Option<u32>,
    /// Network identity the client expects the upstream node to serve.
    pub network_id: u64,
}

/// Full configuration of the node, as recognized by the base layers.
#[derive(Clone, Debug)]
pub struct ExternalNodeConfig {
    /// Cap on the number of pooled database connections.
    pub max_connections: u32,
    /// Optional latency-logging cutoff for slow queries.
    pub slow_query_threshold_ms: Option<u64>,
    /// Endpoint of the upstream main node.
    pub main_node_url: String,
    /// Optional client-side request-rate cap for the main-node client.
    pub main_node_rate_limit_rps: Option<u32>,
    /// Network identity of the chain this node follows.
    pub network_id: u64,
    /// Port the healthcheck server binds.
    pub healthcheck_port: u16,
    /// Optional healthcheck latency classification threshold (slow).
    pub healthcheck_slow_time_limit_ms: Option<u64>,
    /// Optional healthcheck latency classification threshold (hard).
    pub healthcheck_hard_time_limit_ms: Option<u64>,
    /// Optional metrics exporter configuration; absence triggers the
    /// documented soft-skip of the metrics exporter layer.
    pub prometheus: Option<PrometheusSettings>,
}

/// The healthcheck settings a configuration induces.
pub open spec fn spec_healthcheck_settings(c: ExternalNodeConfig) -> HealthcheckSettings {
    HealthcheckSettings {
        port: c.healthcheck_port,
        slow_time_limit_ms: c.healthcheck_slow_time_limit_ms,
        hard_time_limit_ms: c.healthcheck_hard_time_limit_ms,
    }
}

/// The pool settings a configuration induces: both pools are published,
/// the replica reusing the master configuration.
pub open spec fn spec_pools_settings(c: ExternalNodeConfig) -> PoolsSettings {
    PoolsSettings {
        max_connections: c.max_connections,
        slow_query_threshold_ms: c.slow_query_threshold_ms,
        with_master: true,
        with_replica: true,
    }
}

/// The main-node client settings a configuration induces.
pub open spec fn spec_main_node_client_settings(c: ExternalNodeConfig) -> MainNodeClientSettings {
    MainNodeClientSettings {
        url: c.main_node_url,
        rate_limit_rps: c.main_node_rate_limit_rps,
        network_id: c.network_id,
    }
}

} // verus!
