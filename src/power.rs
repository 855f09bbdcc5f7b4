use vstd::prelude::*;

use std::collections::HashMap;

use crate::cli_data::AssetTypes;
use crate::ids::Guid;

verus! {

broadcast use vstd::std_specs::hash::group_hash_axioms;

/// A numbered component of a power provider: an outlet, a tap-off or a breaker.
#[derive(Debug, Clone, Copy, PartialEq, Eq, Structural)]
pub struct PowerProviderComponent {
    pub id: Guid,
    pub number: u64,
    pub panel_number: Option<u64>,
}

/// One row of a bulk power-association file. With no component number the
/// consumer is associated with the provider asset itself.
#[derive(Debug, Clone, Copy, PartialEq, Eq, Structural)]
pub struct BulkPowerAssociationRecord {
    pub asset_id: Guid,
    pub provider_asset_id: Guid,
    pub provider_asset_type: AssetTypes,
    pub provider_component_number: Option<u64>,
    pub provider_panel_number: Option<u64>,
}

/// Where the components of a provider are listed, by kind of provider.
#[derive(Debug, Clone, Copy, PartialEq, Eq, Structural)]
pub enum ComponentSource {
    PduRppBreakers,
    RackPduOutlets,
    BuswayTapOffs,
}

/// What to do next for one record.
#[derive(Debug, Clone, Copy, PartialEq, Eq, Structural)]
pub enum PowerStep {
    /// Create the association `consumer` <- `provider`.
    Associate { consumer: Guid, provider: Guid },
    /// List the components of `provider` from `source`, then store them.
    FetchComponents { provider: Guid, source: ComponentSource },
    /// Nothing is created for this record.
    Skip,
}

/// The listing that holds the components of a provider of type `t`, if any.
pub open spec fn component_source(t: AssetTypes) -> Option<ComponentSource> {
    match t {
        AssetTypes::PduAndRpp => Some(ComponentSource::PduRppBreakers),
        AssetTypes::RackPdu => Some(ComponentSource::RackPduOutlets),
        AssetTypes::Busway => Some(ComponentSource::BuswayTapOffs),
        _ => None,
    }
}

/// The component with `number` and `panel` in a listing; a later entry
/// replaces an earlier one with the same pair.
pub open spec fn component_lookup(
    comps: Seq<PowerProviderComponent>,
    number: u64,
    panel: Option<u64>,
) -> Option<Guid>
    decreases comps.len(),
{
    if comps.len() == 0 {
        None
    } else if comps.last().number == number && comps.last().panel_number == panel {
        Some(comps.last().id)
    } else {
        component_lookup(comps.drop_last(), number, panel)
    }
}

/// The step for record `r` given the cached component listings.
pub open spec fn power_step(cache: Map<u128, Seq<PowerProviderComponent>>, r: BulkPowerAssociationRecord) -> PowerStep {
    match r.provider_component_number {
        None => PowerStep::Associate { consumer: r.asset_id, provider: r.provider_asset_id },
        Some(n) => if !cache.contains_key(r.provider_asset_id.value) {
            match component_source(r.provider_asset_type) {
                Some(s) => PowerStep::FetchComponents { provider: r.provider_asset_id, source: s },
                None => PowerStep::Skip,
            }
        } else {
            match component_lookup(cache[r.provider_asset_id.value], n, r.provider_panel_number) {
                Some(c) => PowerStep::Associate { consumer: r.asset_id, provider: c },
                None => PowerStep::Skip,
            }
        },
    }
}

/// The cache after record `r` was handled, `listed` being what a listing
/// returned had one been asked for.
pub open spec fn cache_after(
    cache: Map<u128, Seq<PowerProviderComponent>>,
    r: BulkPowerAssociationRecord,
    listed: Seq<PowerProviderComponent>,
) -> Map<u128, Seq<PowerProviderComponent>> {
    match power_step(cache, r) {
        PowerStep::FetchComponents { provider, .. } => cache.insert(provider.value, listed),
        _ => cache,
    }
}

/// Resolves bulk power-association records, listing the components of each
/// provider once per run and reusing the listing for later records.
pub struct PowerAssociationResolver {
    components: HashMap<u128, Vec<PowerProviderComponent>>,
}

impl PowerAssociationResolver {
    /// The component listings cached so far, by provider.
    pub closed spec fn cache(&self) -> Map<u128, Seq<PowerProviderComponent>> {
        self.components@.map_values(|v: Vec<PowerProviderComponent>| v@)
    }

    /// A resolver with nothing cached.
    pub fn new() -> (r: Self)
        ensures
            r.cache() == Map::<u128, Seq<PowerProviderComponent>>::empty(),
    {
        let r = PowerAssociationResolver { components: HashMap::new() };
        assert(r.cache() =~= Map::<u128, Seq<PowerProviderComponent>>::empty());
        r
    }

    /// What to do for `record` now.
    pub fn next_step(&self, record: &BulkPowerAssociationRecord) -> (s: PowerStep)
        ensures
            s == power_step(self.cache(), *record),
    {
        let number = match record.provider_component_number {
            None => {
                return PowerStep::Associate {
                    consumer: record.asset_id,
                    provider: record.provider_asset_id,
                };
            },
            Some(n) => n,
        };
        let key = record.provider_asset_id.value;
        match self.components.get(&key) {
            None => {
                let source = match record.provider_asset_type {
                    AssetTypes::PduAndRpp => ComponentSource::PduRppBreakers,
                    AssetTypes::RackPdu => ComponentSource::RackPduOutlets,
                    AssetTypes::Busway => ComponentSource::BuswayTapOffs,
                    _ => {
                        return PowerStep::Skip;
                    },
                };
                PowerStep::FetchComponents { provider: record.provider_asset_id, source }
            },
            Some(comps) => {
                match find_component(comps, number, record.provider_panel_number) {
                    Some(c) => PowerStep::Associate { consumer: record.asset_id, provider: c },
                    None => PowerStep::Skip,
                }
            },
        }
    }

    /// Caches the listing of `provider`'s components.
    pub fn store_components(&mut self, provider: Guid, listed: Vec<PowerProviderComponent>)
        ensures
            final(self).cache() == old(self).cache().insert(provider.value, listed@),
    {
        let ghost listed_view = listed@;
        self.components.insert(provider.value, listed);
        assert(self.cache() =~= old(self).cache().insert(provider.value, listed_view));
    }
}

/// The component with `number` and `panel` in `comps`, the last such entry.
fn find_component(comps: &Vec<PowerProviderComponent>, number: u64, panel: Option<u64>) -> (r:
    Option<Guid>)
    ensures
        r == component_lookup(comps@, number, panel),
{
    let mut i: usize = comps.len();
    assert(comps@.subrange(0, i as int) =~= comps@);
    while i > 0
        invariant
            i <= comps@.len(),
            component_lookup(comps@, number, panel) == component_lookup(
                comps@.subrange(0, i as int),
                number,
                panel,
            ),
        decreases i,
    {
        let c = comps[i - 1];
        proof {
            assert(comps@.subrange(0, i as int).drop_last() =~= comps@.subrange(0, i - 1));
        }
        if c.number == number && c.panel_number == panel {
            return Some(c.id);
        }
        i -= 1;
    }
    None
}

/// A provider is listed at most once per run: when a record has its
/// provider's components listed and cached, a second record naming the same
/// provider does not ask for them again, whatever the listing held.
pub proof fn lemma_single_listing_per_provider(
    cache: Map<u128, Seq<PowerProviderComponent>>,
    a: BulkPowerAssociationRecord,
    b: BulkPowerAssociationRecord,
    listed: Seq<PowerProviderComponent>,
)
    requires
        a.provider_asset_id == b.provider_asset_id,
    ensures
        !(power_step(cache, a) is FetchComponents && power_step(cache_after(cache, a, listed), b) is FetchComponents),
        power_step(cache, a) is FetchComponents ==> cache_after(cache, a, listed).contains_key(
            b.provider_asset_id.value,
        ),
{
}

/// Once the components of a record's provider are cached, the record is
/// resolved against them: it is associated with the matching component, or
/// skipped when there is none.
pub proof fn lemma_resolved_after_listing(
    cache: Map<u128, Seq<PowerProviderComponent>>,
    r: BulkPowerAssociationRecord,
    listed: Seq<PowerProviderComponent>,
)
    requires
        power_step(cache, r) is FetchComponents,
    ensures
        power_step(cache_after(cache, r, listed), r) == (match component_lookup(
            listed,
            r.provider_component_number.unwrap(),
            r.provider_panel_number,
        ) {
            Some(c) => PowerStep::Associate { consumer: r.asset_id, provider: c },
            None => PowerStep::Skip,
        }),
{
}

} // verus!
