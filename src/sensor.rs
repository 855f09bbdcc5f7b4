use vstd::prelude::*;

use std::collections::HashMap;

use crate::app_errors::AppError;
use crate::ids::{uuid_parsed, uuid_text, Guid};
use crate::text::same_text;

verus! {

broadcast use vstd::std_specs::hash::group_hash_axioms;

/// What the service reports of a sensor's access policy.
#[derive(Debug, Clone)]
pub struct SensorSnapshot {
    pub id: String,
    pub access_policy_id: String,
    pub access_policy_is_inherited: bool,
}

/// One row of a bulk sensor update. An absent access policy leaves the policy
/// to the reconciliation rules; the all-zero id asks to reset it to the
/// parent's.
#[derive(Debug, Clone)]
pub struct AssetSensorUpdateDto {
    pub asset_id: Guid,
    pub sensor_id: Guid,
    pub name: String,
    pub access_policy_id: Option<Guid>,
}

/// The access policy to send for a record, or `None` where the sensor's
/// current policy is to be kept but its id does not parse.
pub open spec fn effective_policy(requested: Option<Guid>, current: Option<SensorSnapshot>) -> Option<
    Option<Guid>,
> {
    match requested {
        Some(g) => if g.is_nil_spec() {
            Some(None)
        } else {
            Some(Some(g))
        },
        None => match current {
            Some(s) => if !s.access_policy_is_inherited {
                match uuid_parsed(s.access_policy_id@) {
                    Some(v) => Some(Some(Guid { value: v })),
                    None => None,
                }
            } else {
                Some(None)
            },
            None => Some(None),
        },
    }
}

/// The access policy to send for a sensor update: an all-zero id resets to the
/// parent's policy (unset); a concrete id is sent as given; with none given, a
/// policy the sensor does not inherit is kept by sending its current id, and
/// an inherited one stays unset. A current id that does not parse fails.
pub fn effective_access_policy(requested: Option<Guid>, current: Option<&SensorSnapshot>) -> (r:
    Result<Option<Guid>, AppError>)
    ensures
        match effective_policy(
            requested,
            match current {
                Some(s) => Some(*s),
                None => None,
            },
        ) {
            Some(p) => r == Ok::<Option<Guid>, AppError>(p),
            None => (r matches Err(AppError::InvalidIdentifier(t)) && t@
                == current.unwrap().access_policy_id@),
        },
{
    match requested {
        Some(g) => {
            if g.is_nil() {
                Ok(None)
            } else {
                Ok(Some(g))
            }
        },
        None => match current {
            Some(s) => {
                if !s.access_policy_is_inherited {
                    match Guid::parse(s.access_policy_id.as_str()) {
                        Some(g) => Ok(Some(g)),
                        None => Err(AppError::InvalidIdentifier(s.access_policy_id.clone())),
                    }
                } else {
                    Ok(None)
                }
            },
            None => Ok(None),
        },
    }
}

/// The sensor with id text `id` in a snapshot; a later entry replaces an
/// earlier one with the same id.
pub open spec fn sensor_lookup(sensors: Seq<SensorSnapshot>, id: Seq<char>) -> Option<
    SensorSnapshot,
>
    decreases sensors.len(),
{
    if sensors.len() == 0 {
        None
    } else if sensors.last().id@ == id {
        Some(sensors.last())
    } else {
        sensor_lookup(sensors.drop_last(), id)
    }
}

/// The snapshot entry of `sensor` under `asset`, if that asset's sensors are
/// cached and hold it.
pub open spec fn cached_sensor(cache: Map<u128, Seq<SensorSnapshot>>, asset: Guid, sensor: Guid) -> Option<SensorSnapshot> {
    if cache.contains_key(asset.value) {
        sensor_lookup(cache[asset.value], uuid_text(sensor.value))
    } else {
        None
    }
}

/// The sensors of each asset seen so far in a bulk update, listed once per
/// asset and never refreshed within the run.
pub struct SensorSnapshotCache {
    sensors: HashMap<u128, Vec<SensorSnapshot>>,
}

impl SensorSnapshotCache {
    /// The cached sensors, by asset.
    pub closed spec fn cache(&self) -> Map<u128, Seq<SensorSnapshot>> {
        self.sensors@.map_values(|v: Vec<SensorSnapshot>| v@)
    }

    /// A cache with no asset in it.
    pub fn new() -> (r: Self)
        ensures
            r.cache() == Map::<u128, Seq<SensorSnapshot>>::empty(),
    {
        let r = SensorSnapshotCache { sensors: HashMap::new() };
        assert(r.cache() =~= Map::<u128, Seq<SensorSnapshot>>::empty());
        r
    }

    /// Whether the sensors of `asset` still have to be listed.
    pub fn needs_snapshot(&self, asset: Guid) -> (r: bool)
        ensures
            r == !self.cache().contains_key(asset.value),
    {
        !self.sensors.contains_key(&asset.value)
    }

    /// Caches the sensors listed for `asset`.
    pub fn store_snapshot(&mut self, asset: Guid, listed: Vec<SensorSnapshot>)
        ensures
            final(self).cache() == old(self).cache().insert(asset.value, listed@),
    {
        let ghost listed_view = listed@;
        self.sensors.insert(asset.value, listed);
        assert(self.cache() =~= old(self).cache().insert(asset.value, listed_view));
    }

    /// The record to send for `record`, its access policy reconciled against
    /// the cached snapshot of its sensor.
    pub fn reconcile(&self, record: &AssetSensorUpdateDto) -> (r: Result<
        AssetSensorUpdateDto,
        AppError,
    >)
        ensures
            match effective_policy(
                record.access_policy_id,
                cached_sensor(self.cache(), record.asset_id, record.sensor_id),
            ) {
                Some(p) => (r matches Ok(u) && u.asset_id == record.asset_id && u.sensor_id
                    == record.sensor_id && u.name@ == record.name@ && u.access_policy_id == p),
                None => (r matches Err(AppError::InvalidIdentifier(t)) && t@ == cached_sensor(
                    self.cache(),
                    record.asset_id,
                    record.sensor_id,
                ).unwrap().access_policy_id@),
            },
    {
        let sensor_text = record.sensor_id.to_text();
        let current = match self.sensors.get(&record.asset_id.value) {
            Some(list) => find_sensor(list, sensor_text.as_str()),
            None => None,
        };
        let policy = effective_access_policy(record.access_policy_id, current)?;
        Ok(
            AssetSensorUpdateDto {
                asset_id: record.asset_id,
                sensor_id: record.sensor_id,
                name: record.name.clone(),
                access_policy_id: policy,
            },
        )
    }
}

/// The last sensor of `sensors` whose id text is `id`.
fn find_sensor<'a>(sensors: &'a Vec<SensorSnapshot>, id: &str) -> (r: Option<&'a SensorSnapshot>)
    ensures
        match r {
            Some(s) => sensor_lookup(sensors@, id@) == Some(*s),
            None => sensor_lookup(sensors@, id@) is None,
        },
{
    let mut i: usize = sensors.len();
    assert(sensors@.subrange(0, i as int) =~= sensors@);
    while i > 0
        invariant
            i <= sensors@.len(),
            sensor_lookup(sensors@, id@) == sensor_lookup(sensors@.subrange(0, i as int), id@),
        decreases i,
    {
        let s = &sensors[i - 1];
        proof {
            assert(sensors@.subrange(0, i as int).drop_last() =~= sensors@.subrange(0, i - 1));
        }
        if same_text(s.id.as_str(), id) {
            return Some(s);
        }
        i -= 1;
    }
    None
}

/// A record that names no access policy keeps a policy that the sensor does
/// not inherit: what is sent is the sensor's current policy id, not an unset
/// field.
pub proof fn lemma_uninherited_policy_kept(current: SensorSnapshot, policy: u128)
    requires
        !current.access_policy_is_inherited,
        uuid_parsed(current.access_policy_id@) == Some(policy),
    ensures
        effective_policy(None, Some(current)) == Some(Some(Guid { value: policy })),
{
}

} // verus!
