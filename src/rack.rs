use vstd::prelude::*;

use crate::cli_data::{RackPanelType, RackSide};
use crate::ids::Guid;
use crate::text::push_char;

verus! {

/// The character of a decimal digit.
pub open spec fn digit_char(d: nat) -> char {
    if d == 0 {
        '0'
    } else if d == 1 {
        '1'
    } else if d == 2 {
        '2'
    } else if d == 3 {
        '3'
    } else if d == 4 {
        '4'
    } else if d == 5 {
        '5'
    } else if d == 6 {
        '6'
    } else if d == 7 {
        '7'
    } else if d == 8 {
        '8'
    } else {
        '9'
    }
}

/// The decimal digits of `n`, most significant first, without leading zeros.
pub open spec fn decimal(n: nat) -> Seq<char>
    decreases n,
{
    if n < 10 {
        seq![digit_char(n)]
    } else {
        decimal(n / 10).push(digit_char(n % 10))
    }
}

fn digit(d: usize) -> (c: char)
    requires
        d < 10,
    ensures
        c == digit_char(d as nat),
{
    if d == 0 {
        '0'
    } else if d == 1 {
        '1'
    } else if d == 2 {
        '2'
    } else if d == 3 {
        '3'
    } else if d == 4 {
        '4'
    } else if d == 5 {
        '5'
    } else if d == 6 {
        '6'
    } else if d == 7 {
        '7'
    } else if d == 8 {
        '8'
    } else {
        '9'
    }
}

/// Appends the decimal text of `n` to `s`.
pub fn push_decimal(s: &mut String, n: usize)
    ensures
        final(s)@ == old(s)@ + decimal(n as nat),
{
    let mut m: usize = n;
    let mut low: Vec<char> = Vec::new();
    while m >= 10
        invariant
            decimal(n as nat) == decimal(m as nat) + low@,
        decreases m,
    {
        let d = digit(m % 10);
        low.insert(0, d);
        proof {
            assert(decimal(m as nat) == decimal((m / 10) as nat).push(d));
            assert(decimal((m / 10) as nat).push(d) + old_low(low@) =~= decimal((m / 10) as nat)
                + low@);
        }
        m = m / 10;
    }
    push_char(s, digit(m));
    let ghost start = old(s)@;
    let mut i: usize = 0;
    while i < low.len()
        invariant
            i <= low@.len(),
            s@ == start + decimal(m as nat) + low@.subrange(0, i as int),
        decreases low@.len() - i,
    {
        push_char(s, low[i]);
        proof {
            assert(low@.subrange(0, i + 1) =~= low@.subrange(0, i as int).push(low@[i as int]));
        }
        i += 1;
    }
    proof {
        assert(low@.subrange(0, low@.len() as int) =~= low@);
    }
}

/// The digits after the one just put in front.
spec fn old_low(low: Seq<char>) -> Seq<char> {
    low.subrange(1, low.len() as int)
}

/// A request to mount one accessory on a rack.
#[derive(Debug, Clone)]
pub struct RackAccessoryRequest {
    pub rack_id: Guid,
    pub panel_type: String,
    pub rack_side: String,
    pub rack_unit: usize,
    pub display_name: String,
}

/// The service's name of a panel type.
pub open spec fn panel_name(p: RackPanelType) -> Seq<char> {
    match p {
        RackPanelType::BlankingPanel => "blankingPanel"@,
        RackPanelType::CableManagement => "cableManagement"@,
    }
}

/// The service's name of a rack side; the unknown side has an empty name.
pub open spec fn side_name(s: RackSide) -> Seq<char> {
    match s {
        RackSide::Front => "front"@,
        RackSide::Rear => "rear"@,
        RackSide::Unknown => ""@,
    }
}

/// The display name of an accessory: its kind, its rack unit, and a mark for
/// the rear side.
pub open spec fn accessory_display_name(p: RackPanelType, s: RackSide, u: nat) -> Seq<char> {
    let kind = match p {
        RackPanelType::BlankingPanel => "Blanking Panel at "@,
        RackPanelType::CableManagement => "Cable Management at "@,
    };
    let mark = match s {
        RackSide::Rear => "(R)"@,
        _ => ""@,
    };
    kind + decimal(u) + "U"@ + mark
}

/// The request that mounts a `panel` accessory on side `side` of rack
/// `rack_id` at unit `rack_unit`.
pub fn rack_accessory_request(
    rack_id: Guid,
    panel: RackPanelType,
    side: RackSide,
    rack_unit: usize,
) -> (r: RackAccessoryRequest)
    ensures
        r.rack_id == rack_id,
        r.panel_type@ == panel_name(panel),
        r.rack_side@ == side_name(side),
        r.rack_unit == rack_unit,
        r.display_name@ == accessory_display_name(panel, side, rack_unit as nat),
{
    let mut display_name = match panel {
        RackPanelType::BlankingPanel => String::from_str("Blanking Panel at "),
        RackPanelType::CableManagement => String::from_str("Cable Management at "),
    };
    push_decimal(&mut display_name, rack_unit);
    display_name.append("U");
    match side {
        RackSide::Rear => display_name.append("(R)"),
        _ => display_name.append(""),
    }
    let panel_type = match panel {
        RackPanelType::BlankingPanel => String::from_str("blankingPanel"),
        RackPanelType::CableManagement => String::from_str("cableManagement"),
    };
    let rack_side = match side {
        RackSide::Front => String::from_str("front"),
        RackSide::Rear => String::from_str("rear"),
        RackSide::Unknown => String::from_str(""),
    };
    RackAccessoryRequest { rack_id, panel_type, rack_side, rack_unit, display_name }
}

} // verus!
