use hyperview::cli_data::AssetTypes;
use hyperview::ids::Guid;
use hyperview::power::{
    BulkPowerAssociationRecord, ComponentSource, PowerAssociationResolver,
    PowerProviderComponent, PowerStep,
};

fn g(v: u128) -> Guid {
    Guid { value: v }
}

fn record(asset: u128, provider: u128, t: AssetTypes, number: Option<u64>, panel: Option<u64>) -> BulkPowerAssociationRecord {
    BulkPowerAssociationRecord {
        asset_id: g(asset),
        provider_asset_id: g(provider),
        provider_asset_type: t,
        provider_component_number: number,
        provider_panel_number: panel,
    }
}

fn outlets() -> Vec<PowerProviderComponent> {
    vec![
        PowerProviderComponent { id: g(101), number: 1, panel_number: None },
        PowerProviderComponent { id: g(103), number: 3, panel_number: None },
        PowerProviderComponent { id: g(203), number: 3, panel_number: Some(2) },
    ]
}

/// Runs the records as a bulk run does, counting listings and collecting the
/// associations created.
fn run(records: &[BulkPowerAssociationRecord]) -> (usize, Vec<(Guid, Guid)>) {
    let mut resolver = PowerAssociationResolver::new();
    let mut listings = 0;
    let mut created = Vec::new();
    for r in records {
        let mut step = resolver.next_step(r);
        if let PowerStep::FetchComponents { provider, .. } = step {
            listings += 1;
            resolver.store_components(provider, outlets());
            step = resolver.next_step(r);
        }
        match step {
            PowerStep::Associate { consumer, provider } => created.push((consumer, provider)),
            PowerStep::Skip => {}
            PowerStep::FetchComponents { .. } => panic!("listed twice"),
        }
    }
    (listings, created)
}

#[test]
fn two_rows_same_provider_list_once_and_associate_twice() {
    let records = [
        record(1, 50, AssetTypes::RackPdu, Some(3), None),
        record(2, 50, AssetTypes::RackPdu, Some(3), None),
    ];
    let (listings, created) = run(&records);
    assert_eq!(listings, 1);
    assert_eq!(created, vec![(g(1), g(103)), (g(2), g(103))]);
}

#[test]
fn first_step_asks_for_the_right_listing() {
    let resolver = PowerAssociationResolver::new();
    let cases = [
        (AssetTypes::PduAndRpp, ComponentSource::PduRppBreakers),
        (AssetTypes::RackPdu, ComponentSource::RackPduOutlets),
        (AssetTypes::Busway, ComponentSource::BuswayTapOffs),
    ];
    for (t, source) in cases {
        assert_eq!(
            resolver.next_step(&record(1, 50, t, Some(1), None)),
            PowerStep::FetchComponents { provider: g(50), source }
        );
    }
}

#[test]
fn no_component_number_is_direct_association() {
    let resolver = PowerAssociationResolver::new();
    assert_eq!(
        resolver.next_step(&record(7, 50, AssetTypes::Server, None, None)),
        PowerStep::Associate { consumer: g(7), provider: g(50) }
    );
}

#[test]
fn unsupported_provider_type_is_skipped() {
    let resolver = PowerAssociationResolver::new();
    assert_eq!(
        resolver.next_step(&record(7, 50, AssetTypes::Server, Some(1), None)),
        PowerStep::Skip
    );
}

#[test]
fn unknown_ordinal_is_skipped_and_panel_is_matched() {
    let records = [
        record(1, 50, AssetTypes::PduAndRpp, Some(9), None),
        record(2, 50, AssetTypes::PduAndRpp, Some(3), Some(2)),
    ];
    let (listings, created) = run(&records);
    assert_eq!(listings, 1);
    assert_eq!(created, vec![(g(2), g(203))]);
}

#[test]
fn later_component_with_same_pair_wins() {
    let mut resolver = PowerAssociationResolver::new();
    resolver.store_components(
        g(50),
        vec![
            PowerProviderComponent { id: g(1), number: 4, panel_number: None },
            PowerProviderComponent { id: g(2), number: 4, panel_number: None },
        ],
    );
    assert_eq!(
        resolver.next_step(&record(9, 50, AssetTypes::RackPdu, Some(4), None)),
        PowerStep::Associate { consumer: g(9), provider: g(2) }
    );
}
