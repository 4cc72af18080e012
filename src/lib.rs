//! Reference catalog of Copic marker colors, with verified lookup and
//! partial ordering of saturation groups and brightness values.

mod catalog;
mod code_order;
mod color;
mod text;

pub use catalog::{
    all_colors, catalog, color_at, find_code, lemma_channels_in_range, lemma_enumeration_repeatable,
    lemma_lookup_reflexive, lookup, record_color, Record, CATALOG_LEN, COLOR_TABLE,
};
pub use code_order::lemma_codes_unique;
pub use color::{
    lemma_group_comparison, lemma_value_comparison, tier_ordering, Color, Family, Group, Rgb, Value,
};
pub use text::same_text;
