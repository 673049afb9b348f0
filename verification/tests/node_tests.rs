use node_builder::builder::Service;
use node_builder::component::order_components;
use node_builder::component::validate_selection;
use node_builder::component::Component;
use node_builder::config::ExternalNodeConfig;
use node_builder::config::PrometheusSettings;
use node_builder::error::AttachCause;
use node_builder::error::NodeError;
use node_builder::error::Notice;
use node_builder::layer::LayerKind;
use node_builder::layer::TaskKind;
use node_builder::node::ExternalNodeBuilder;

fn config_with(prometheus: bool, healthcheck_port: u16) -> ExternalNodeConfig {
    ExternalNodeConfig {
        max_connections: 50,
        slow_query_threshold_ms: Some(250),
        main_node_url: String::from("http://main-node.example:3050"),
        main_node_rate_limit_rps: Some(100),
        network_id: 270,
        healthcheck_port,
        healthcheck_slow_time_limit_ms: Some(500),
        healthcheck_hard_time_limit_ms: Some(2_000),
        prometheus: if prometheus {
            Some(PrometheusSettings { port: 3312 })
        } else {
            None
        },
    }
}

fn build_ok(prometheus: bool, selection: Vec<Component>) -> Service {
    let builder = ExternalNodeBuilder::new(config_with(prometheus, 3081));
    builder.build(selection).expect("build should succeed")
}

fn task_kinds_of(service: &Service) -> Vec<TaskKind> {
    service.tasks().iter().map(|t| t.kind).collect()
}

#[test]
fn core_tree_fetcher_http_api_scenario() {
    let service = build_ok(true, vec![Component::Core, Component::TreeFetcher, Component::HttpApi]);
    assert_eq!(
        task_kinds_of(&service),
        vec![
            TaskKind::SigintWatcher,
            TaskKind::HealthcheckServer,
            TaskKind::PrometheusExporter,
            TaskKind::PostgresMetricsExporter,
            TaskKind::TreeDataFetcher,
            TaskKind::HttpApiServer,
        ]
    );
}

#[test]
fn tree_api_alone_fails_with_configuration_error() {
    let builder = ExternalNodeBuilder::new(config_with(true, 3081));
    let result = builder.build(vec![Component::TreeApi]);
    assert_eq!(
        result.err(),
        Some(NodeError::Configuration {
            dependent: Component::TreeApi,
            missing: Component::Tree,
        })
    );
}

#[test]
fn tree_api_without_tree_fails_even_among_other_components() {
    let builder = ExternalNodeBuilder::new(config_with(true, 3081));
    let result = builder.build(vec![Component::Core, Component::TreeApi, Component::HttpApi]);
    assert_eq!(
        result.err(),
        Some(NodeError::Configuration {
            dependent: Component::TreeApi,
            missing: Component::Tree,
        })
    );
}

#[test]
fn tree_api_with_tree_is_served_by_the_tree_layer() {
    let service = build_ok(true, vec![Component::Tree, Component::TreeApi]);
    assert_eq!(
        task_kinds_of(&service),
        vec![
            TaskKind::SigintWatcher,
            TaskKind::HealthcheckServer,
            TaskKind::PrometheusExporter,
            TaskKind::TreeUpdater,
            TaskKind::TreeApiServer,
        ]
    );
}

#[test]
fn port_bind_failure_aborts_whole_build() {
    let builder = ExternalNodeBuilder::new(config_with(true, 0));
    let result = builder.build(vec![Component::Core, Component::HttpApi]);
    assert_eq!(
        result.err(),
        Some(NodeError::LayerAttach {
            layer: LayerKind::Healthcheck,
            cause: AttachCause::PortBind { port: 0 },
        })
    );
}

#[test]
fn missing_metrics_config_soft_skips_exporter() {
    let service = build_ok(false, vec![Component::Core]);
    assert!(task_kinds_of(&service)
        .iter()
        .all(|k| *k != TaskKind::PrometheusExporter));
    assert_eq!(
        service.notices().as_slice(),
        &[Notice::PrometheusConfigMissing]
    );
}

#[test]
fn present_metrics_config_records_no_notice() {
    let service = build_ok(true, vec![Component::Core]);
    assert!(service.notices().is_empty());
    assert!(task_kinds_of(&service).contains(&TaskKind::PrometheusExporter));
}

#[test]
fn base_layers_attach_in_fixed_order_regardless_of_selection() {
    let base = vec![
        TaskKind::SigintWatcher,
        TaskKind::HealthcheckServer,
        TaskKind::PrometheusExporter,
    ];
    for selection in [
        vec![],
        vec![Component::Core],
        vec![Component::HttpApi, Component::TreeFetcher],
        vec![Component::WsApi, Component::Tree, Component::Core],
    ] {
        let service = build_ok(true, selection);
        assert_eq!(task_kinds_of(&service)[..3], base[..]);
    }
}

#[test]
fn same_tier_components_keep_their_given_order() {
    let first = build_ok(true, vec![Component::TreeFetcher, Component::Core]);
    assert_eq!(
        task_kinds_of(&first)[3..],
        [TaskKind::TreeDataFetcher, TaskKind::PostgresMetricsExporter]
    );
    let second = build_ok(true, vec![Component::Core, Component::TreeFetcher]);
    assert_eq!(
        task_kinds_of(&second)[3..],
        [TaskKind::PostgresMetricsExporter, TaskKind::TreeDataFetcher]
    );
}

#[test]
fn consumers_attach_after_producers_whatever_the_input_order() {
    let service = build_ok(true, vec![Component::HttpApi, Component::TreeFetcher]);
    assert_eq!(
        task_kinds_of(&service)[3..],
        [TaskKind::TreeDataFetcher, TaskKind::HttpApiServer]
    );
}

#[test]
fn ordering_is_a_stable_partition_by_tier() {
    let ordered = order_components(&vec![
        Component::HttpApi,
        Component::Tree,
        Component::WsApi,
        Component::Core,
    ]);
    assert_eq!(
        ordered,
        vec![Component::Tree, Component::Core, Component::HttpApi, Component::WsApi]
    );
}

#[test]
fn validate_selection_reports_the_missing_dependency() {
    assert!(validate_selection(&vec![Component::Tree, Component::TreeApi]).is_ok());
    assert!(validate_selection(&vec![]).is_ok());
    assert_eq!(
        validate_selection(&vec![Component::TreeApi]).err(),
        Some(NodeError::Configuration {
            dependent: Component::TreeApi,
            missing: Component::Tree,
        })
    );
}

#[test]
fn empty_selection_builds_base_tasks_only() {
    let service = build_ok(false, vec![]);
    assert_eq!(
        task_kinds_of(&service),
        vec![TaskKind::SigintWatcher, TaskKind::HealthcheckServer]
    );
}

#[test]
fn ws_api_runs_against_base_resources() {
    let service = build_ok(true, vec![Component::WsApi]);
    assert_eq!(
        task_kinds_of(&service).last(),
        Some(&TaskKind::WsApiServer)
    );
}

#[test]
fn every_task_carries_the_shared_cancellation_token() {
    let service = build_ok(true, vec![Component::Core, Component::Tree, Component::HttpApi]);
    let token = service.cancellation();
    assert!(!service.tasks().is_empty());
    for task in service.tasks().iter() {
        assert_eq!(task.cancellation, token);
    }
}

#[test]
fn run_reports_every_registered_task_completed() {
    let service = build_ok(true, vec![Component::TreeFetcher]);
    let expected = task_kinds_of(&service);
    assert_eq!(service.run(), expected);
}
