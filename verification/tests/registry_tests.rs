use node_builder::error::NodeError;
use node_builder::layer::LayerKind;
use node_builder::registry::ResourceKind;
use node_builder::registry::ResourceRegistry;

#[test]
fn get_or_insert_shares_one_instance() {
    let mut registry = ResourceRegistry::new();
    let first = registry.get_or_insert(ResourceKind::MasterPool);
    let second = registry.get_or_insert(ResourceKind::MasterPool);
    assert_eq!(first, second);
    let other = registry.get_or_insert(ResourceKind::ReplicaPool);
    assert_ne!(other, first);
    let third = registry.get_or_insert(ResourceKind::MasterPool);
    assert_eq!(third, first);
}

#[test]
fn get_or_insert_converges_with_insert() {
    let mut registry = ResourceRegistry::new();
    let inserted = registry
        .insert(ResourceKind::MainNodeClient, LayerKind::MainNodeClient)
        .expect("fresh insert succeeds");
    let fetched = registry.get_or_insert(ResourceKind::MainNodeClient);
    assert_eq!(inserted, fetched);
}

#[test]
fn duplicate_insert_is_rejected_with_the_offending_layer() {
    let mut registry = ResourceRegistry::new();
    registry
        .insert(ResourceKind::MasterPool, LayerKind::Pools)
        .expect("fresh insert succeeds");
    let result = registry.insert(ResourceKind::MasterPool, LayerKind::MerkleTree);
    assert_eq!(
        result.err(),
        Some(NodeError::DuplicateResource {
            kind: ResourceKind::MasterPool,
            layer: LayerKind::MerkleTree,
        })
    );
}

#[test]
fn missing_resource_names_kind_and_requester() {
    let registry = ResourceRegistry::new();
    let result = registry.get(ResourceKind::ReplicaPool, LayerKind::HttpApi);
    assert_eq!(
        result.err(),
        Some(NodeError::MissingResource {
            kind: ResourceKind::ReplicaPool,
            layer: LayerKind::HttpApi,
        })
    );
}

#[test]
fn get_returns_the_published_instance() {
    let mut registry = ResourceRegistry::new();
    let id = registry.get_or_insert(ResourceKind::HealthState);
    assert!(registry.contains(ResourceKind::HealthState));
    assert_eq!(
        registry.get(ResourceKind::HealthState, LayerKind::PrometheusExporter),
        Ok(id)
    );
}
