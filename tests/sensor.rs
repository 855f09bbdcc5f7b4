use hyperview::app_errors::AppError;
use hyperview::ids::Guid;
use hyperview::sensor::{
    effective_access_policy, AssetSensorUpdateDto, SensorSnapshot, SensorSnapshotCache,
};

const SENSOR: &str = "0702c619-ee10-4af2-bda7-471772ac97c3";
const POLICY: &str = "0bce12c7-5b74-4c78-9eb2-fc52efbbf4b3";

fn guid(text: &str) -> Guid {
    Guid { value: uuid::Uuid::parse_str(text).unwrap().as_u128() }
}

fn snapshot(inherited: bool) -> SensorSnapshot {
    SensorSnapshot {
        id: SENSOR.to_string(),
        access_policy_id: POLICY.to_string(),
        access_policy_is_inherited: inherited,
    }
}

fn update(policy: Option<Guid>) -> AssetSensorUpdateDto {
    AssetSensorUpdateDto {
        asset_id: Guid { value: 77 },
        sensor_id: guid(SENSOR),
        name: "Inlet temperature".to_string(),
        access_policy_id: policy,
    }
}

#[test]
fn omitted_policy_keeps_uninherited_policy() {
    let mut cache = SensorSnapshotCache::new();
    assert!(cache.needs_snapshot(Guid { value: 77 }));
    cache.store_snapshot(Guid { value: 77 }, vec![snapshot(false)]);
    assert!(!cache.needs_snapshot(Guid { value: 77 }));
    let sent = cache.reconcile(&update(None)).unwrap();
    assert_eq!(sent.access_policy_id, Some(guid(POLICY)));
    assert_eq!(sent.name, "Inlet temperature");
    assert_eq!(sent.sensor_id, guid(SENSOR));
}

#[test]
fn omitted_policy_stays_unset_when_inherited() {
    let mut cache = SensorSnapshotCache::new();
    cache.store_snapshot(Guid { value: 77 }, vec![snapshot(true)]);
    assert_eq!(cache.reconcile(&update(None)).unwrap().access_policy_id, None);
}

#[test]
fn nil_policy_resets_to_parent() {
    let mut cache = SensorSnapshotCache::new();
    cache.store_snapshot(Guid { value: 77 }, vec![snapshot(false)]);
    let sent = cache.reconcile(&update(Some(Guid { value: 0 }))).unwrap();
    assert_eq!(sent.access_policy_id, None);
    let uncached = SensorSnapshotCache::new();
    assert_eq!(uncached.reconcile(&update(Some(Guid { value: 0 }))).unwrap().access_policy_id, None);
}

#[test]
fn concrete_policy_is_sent_as_given() {
    let cache = SensorSnapshotCache::new();
    let sent = cache.reconcile(&update(Some(Guid { value: 5 }))).unwrap();
    assert_eq!(sent.access_policy_id, Some(Guid { value: 5 }));
}

#[test]
fn unknown_sensor_leaves_policy_unset() {
    let mut cache = SensorSnapshotCache::new();
    cache.store_snapshot(Guid { value: 77 }, vec![]);
    assert_eq!(cache.reconcile(&update(None)).unwrap().access_policy_id, None);
}

#[test]
fn unparsable_current_policy_fails() {
    let broken = SensorSnapshot { access_policy_id: "??".to_string(), ..snapshot(false) };
    match effective_access_policy(None, Some(&broken)) {
        Err(AppError::InvalidIdentifier(text)) => assert_eq!(text, "??"),
        other => panic!("unexpected {:?}", other),
    }
}
