use hyperview::cli_data::{RackPanelType, RackSide};
use hyperview::ids::Guid;
use hyperview::rack::{push_decimal, rack_accessory_request};

#[test]
fn rear_blanking_panel_request() {
    let r = rack_accessory_request(Guid { value: 9 }, RackPanelType::BlankingPanel, RackSide::Rear, 22);
    assert_eq!(r.rack_id, Guid { value: 9 });
    assert_eq!(r.panel_type, "blankingPanel");
    assert_eq!(r.rack_side, "rear");
    assert_eq!(r.rack_unit, 22);
    assert_eq!(r.display_name, "Blanking Panel at 22U(R)");
}

#[test]
fn front_and_unknown_side_have_no_mark() {
    let r = rack_accessory_request(Guid { value: 1 }, RackPanelType::CableManagement, RackSide::Front, 7);
    assert_eq!(r.display_name, "Cable Management at 7U");
    assert_eq!(r.panel_type, "cableManagement");
    assert_eq!(r.rack_side, "front");
    let u = rack_accessory_request(Guid { value: 1 }, RackPanelType::CableManagement, RackSide::Unknown, 0);
    assert_eq!(u.display_name, "Cable Management at 0U");
    assert_eq!(u.rack_side, "");
}

#[test]
fn decimal_text_matches_std() {
    for n in [0usize, 9, 10, 42, 100, 12345, usize::MAX] {
        let mut s = String::from("x");
        push_decimal(&mut s, n);
        assert_eq!(s, format!("x{n}"));
    }
}
