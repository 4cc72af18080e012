use core::cmp::Ordering;
use vstd::prelude::*;

use crate::text::same_text;

verus! {

/// Display color as three 8-bit channel intensities.
#[derive(Clone, Copy, Debug, PartialEq, Eq, Hash, Structural)]
pub struct Rgb {
    pub r: u8,
    pub g: u8,
    pub b: u8,
}

impl Rgb {
    pub fn new(r: u8, g: u8, b: u8) -> (c: Rgb)
        ensures
            c == (Rgb { r, g, b }),
    {
        Rgb { r, g, b }
    }
}

/// Color family (aka. hue). Purely categorical: families are not ordered.
#[derive(Clone, Copy, Debug, PartialEq, Eq, Hash, Structural)]
pub enum Family {
    BlueViolet,
    Violet,
    RedViolet,
    Red,
    YellowRed,
    Yellow,
    YellowGreen,
    Green,
    BlueGreen,
    Blue,
    Earth,
    CoolGray,
    NeutralGray,
    TonerGray,
    WarmGray,
    Fluorescent,
    Achromatic,
}

/// Three-way ordering of two optional tiers: `None` as soon as either side
/// has no tier, otherwise the ordering of the two tier numbers.
pub open spec fn tier_ordering(a: Option<u8>, b: Option<u8>) -> Option<Ordering> {
    match (a, b) {
        (Some(x), Some(y)) => Some(
            if x < y {
                Ordering::Less
            } else if x == y {
                Ordering::Equal
            } else {
                Ordering::Greater
            },
        ),
        _ => None,
    }
}

fn order_tiers(a: Option<u8>, b: Option<u8>) -> (r: Option<Ordering>)
    ensures
        r == tier_ordering(a, b),
{
    match (a, b) {
        (Some(x), Some(y)) => {
            if x < y {
                Some(Ordering::Less)
            } else if x == y {
                Some(Ordering::Equal)
            } else {
                Some(Ordering::Greater)
            }
        },
        _ => None,
    }
}

/// Color blending group (aka. saturation). `S0` is the most neutral tier and
/// `S9` the most saturated; `Undefined` stands for families without groups
/// and is comparable with no group at all.
#[derive(Clone, Copy, Debug, PartialEq, Eq, Hash, Structural)]
pub enum Group {
    Undefined,
    S0,
    S1,
    S2,
    S3,
    S4,
    S5,
    S6,
    S7,
    S8,
    S9,
}

impl Group {
    /// The saturation tier, `0` for `S0` up to `9` for `S9`; none for `Undefined`.
    pub open spec fn spec_tier(self) -> Option<u8> {
        match self {
            Group::Undefined => None,
            Group::S0 => Some(0),
            Group::S1 => Some(1),
            Group::S2 => Some(2),
            Group::S3 => Some(3),
            Group::S4 => Some(4),
            Group::S5 => Some(5),
            Group::S6 => Some(6),
            Group::S7 => Some(7),
            Group::S8 => Some(8),
            Group::S9 => Some(9),
        }
    }

    pub fn tier(&self) -> (r: Option<u8>)
        ensures
            r == self.spec_tier(),
    {
        match self {
            Group::Undefined => None,
            Group::S0 => Some(0),
            Group::S1 => Some(1),
            Group::S2 => Some(2),
            Group::S3 => Some(3),
            Group::S4 => Some(4),
            Group::S5 => Some(5),
            Group::S6 => Some(6),
            Group::S7 => Some(7),
            Group::S8 => Some(8),
            Group::S9 => Some(9),
        }
    }
}

impl PartialOrd for Group {
    fn partial_cmp(&self, other: &Group) -> (r: Option<Ordering>)
        ensures
            r == tier_ordering(self.spec_tier(), other.spec_tier()),
    {
        order_tiers(self.tier(), other.tier())
    }
}

impl vstd::std_specs::cmp::PartialOrdSpecImpl for Group {
    open spec fn obeys_partial_cmp_spec() -> bool {
        true
    }

    open spec fn partial_cmp_spec(&self, other: &Group) -> Option<Ordering> {
        tier_ordering(self.spec_tier(), other.spec_tier())
    }
}

/// Color intensity value (aka. brightness), from `B000`, the lowest tier, up
/// to `B9`, the highest; `Undefined` is comparable with no value at all.
#[derive(Clone, Copy, Debug, PartialEq, Eq, Hash, Structural)]
pub enum Value {
    Undefined,
    B000,
    B00,
    B0,
    B1,
    B2,
    B3,
    B4,
    B5,
    B6,
    B7,
    B8,
    B9,
}

impl Value {
    /// The brightness tier, `0` for `B000`, `1` for `B00`, `2` for `B0`,
    /// then `3` for `B1` up to `11` for `B9`; none for `Undefined`.
    pub open spec fn spec_tier(self) -> Option<u8> {
        match self {
            Value::Undefined => None,
            Value::B000 => Some(0),
            Value::B00 => Some(1),
            Value::B0 => Some(2),
            Value::B1 => Some(3),
            Value::B2 => Some(4),
            Value::B3 => Some(5),
            Value::B4 => Some(6),
            Value::B5 => Some(7),
            Value::B6 => Some(8),
            Value::B7 => Some(9),
            Value::B8 => Some(10),
            Value::B9 => Some(11),
        }
    }

    pub fn tier(&self) -> (r: Option<u8>)
        ensures
            r == self.spec_tier(),
    {
        match self {
            Value::Undefined => None,
            Value::B000 => Some(0),
            Value::B00 => Some(1),
            Value::B0 => Some(2),
            Value::B1 => Some(3),
            Value::B2 => Some(4),
            Value::B3 => Some(5),
            Value::B4 => Some(6),
            Value::B5 => Some(7),
            Value::B6 => Some(8),
            Value::B7 => Some(9),
            Value::B8 => Some(10),
            Value::B9 => Some(11),
        }
    }
}

impl PartialOrd for Value {
    fn partial_cmp(&self, other: &Value) -> (r: Option<Ordering>)
        ensures
            r == tier_ordering(self.spec_tier(), other.spec_tier()),
    {
        order_tiers(self.tier(), other.tier())
    }
}

impl vstd::std_specs::cmp::PartialOrdSpecImpl for Value {
    open spec fn obeys_partial_cmp_spec() -> bool {
        true
    }

    open spec fn partial_cmp_spec(&self, other: &Value) -> Option<Ordering> {
        tier_ordering(self.spec_tier(), other.spec_tier())
    }
}

/// One marker color.
#[derive(Clone, Copy, Debug, Hash)]
pub struct Color {
    pub code: &'static str,
    pub name: &'static str,
    pub family: Family,
    pub group: Group,
    pub value: Value,
    pub rgb: Rgb,
}

impl Color {
    pub fn new(
        code: &'static str,
        name: &'static str,
        family: Family,
        group: Group,
        value: Value,
        rgb: Rgb,
    ) -> (c: Color)
        ensures
            c == (Color { code, name, family, group, value, rgb }),
    {
        Color { code, name, family, group, value, rgb }
    }

    /// Field-for-field equality, the texts compared by their characters.
    pub open spec fn same_as(self, other: Color) -> bool {
        &&& self.code@ == other.code@
        &&& self.name@ == other.name@
        &&& self.family == other.family
        &&& self.group == other.group
        &&& self.value == other.value
        &&& self.rgb == other.rgb
    }
}

impl PartialEq for Color {
    fn eq(&self, other: &Color) -> (r: bool)
        ensures
            r == self.same_as(*other),
    {
        same_text(self.code, other.code) && same_text(self.name, other.name) && self.family
            == other.family && self.group == other.group && self.value == other.value
            && self.rgb == other.rgb
    }
}

impl vstd::std_specs::cmp::PartialEqSpecImpl for Color {
    open spec fn obeys_eq_spec() -> bool {
        true
    }

    open spec fn eq_spec(&self, other: &Color) -> bool {
        self.same_as(*other)
    }
}

impl Eq for Color {

}

/// Two groups compare exactly when neither is `Undefined`; a group equals
/// another only when both are the same defined tier, and the order seen from
/// the other side is reversed.
pub proof fn lemma_group_comparison(a: Group, b: Group)
    ensures
        tier_ordering(a.spec_tier(), b.spec_tier()) is None <==> (a == Group::Undefined || b
            == Group::Undefined),
        tier_ordering(a.spec_tier(), b.spec_tier()) == Some(Ordering::Equal) <==> (a == b && a
            != Group::Undefined),
        tier_ordering(a.spec_tier(), b.spec_tier()) == Some(Ordering::Less) <==> tier_ordering(
            b.spec_tier(),
            a.spec_tier(),
        ) == Some(Ordering::Greater),
{
}

/// Two values compare exactly when neither is `Undefined`; a value equals
/// another only when both are the same defined tier, and the order seen from
/// the other side is reversed.
pub proof fn lemma_value_comparison(a: Value, b: Value)
    ensures
        tier_ordering(a.spec_tier(), b.spec_tier()) is None <==> (a == Value::Undefined || b
            == Value::Undefined),
        tier_ordering(a.spec_tier(), b.spec_tier()) == Some(Ordering::Equal) <==> (a == b && a
            != Value::Undefined),
        tier_ordering(a.spec_tier(), b.spec_tier()) == Some(Ordering::Less) <==> tier_ordering(
            b.spec_tier(),
            a.spec_tier(),
        ) == Some(Ordering::Greater),
{
}

} // verus!
