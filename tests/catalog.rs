use std::cmp::Ordering;
use std::collections::HashSet;

use copic::{all_colors, color_at, lookup, Color, Family, Group, Rgb, Value, CATALOG_LEN};

#[test]
fn codes_are_non_empty_and_unique() {
    let colors = all_colors();
    let mut seen = HashSet::new();
    for c in &colors {
        assert!(!c.code.is_empty());
        assert!(seen.insert(c.code), "duplicate code {}", c.code);
    }
    assert_eq!(seen.len(), colors.len());
}

#[test]
fn channels_are_within_byte_range() {
    for c in all_colors() {
        let channels = [c.rgb.r as u32, c.rgb.g as u32, c.rgb.b as u32];
        for ch in channels {
            assert!(ch <= 255);
        }
    }
}

#[test]
fn enumerating_twice_gives_the_same_sequence() {
    let first = all_colors();
    let second = all_colors();
    assert_eq!(first.len(), second.len());
    assert_eq!(first, second);
    for (i, c) in first.iter().enumerate() {
        assert_eq!(color_at(i), Some(*c));
    }
}

#[test]
fn lookup_returns_each_catalog_color() {
    for c in all_colors() {
        assert_eq!(lookup(c.code), Some(c));
    }
}

#[test]
fn lookup_of_unknown_code_is_not_found() {
    assert_eq!(lookup("ZZ999"), None);
    assert_eq!(lookup(""), None);
    assert_eq!(lookup("bv0000"), None);
    assert_eq!(lookup("BV0000 "), None);
    assert_eq!(lookup("C-01"), None);
}

#[test]
fn groups_compare_by_tier_and_undefined_is_incomparable() {
    assert!(Group::S3 < Group::S7);
    assert_eq!(Group::S3.partial_cmp(&Group::S7), Some(Ordering::Less));
    assert_eq!(Group::S7.partial_cmp(&Group::S3), Some(Ordering::Greater));
    assert_eq!(Group::S5.partial_cmp(&Group::S5), Some(Ordering::Equal));
    assert_eq!(Group::S0.partial_cmp(&Group::Undefined), None);
    assert_eq!(Group::Undefined.partial_cmp(&Group::S0), None);
    assert_eq!(Group::Undefined.partial_cmp(&Group::Undefined), None);
    assert!(!(Group::S0 < Group::Undefined));
    assert!(!(Group::S0 > Group::Undefined));
    assert!(!(Group::S0 >= Group::Undefined));
}

#[test]
fn values_compare_by_tier_and_undefined_is_incomparable() {
    assert!(Value::B2 < Value::B9);
    assert!(Value::B000 < Value::B00);
    assert!(Value::B00 < Value::B0);
    assert!(Value::B0 < Value::B1);
    assert_eq!(Value::B9.partial_cmp(&Value::B2), Some(Ordering::Greater));
    assert_eq!(Value::B000.partial_cmp(&Value::Undefined), None);
    assert_eq!(Value::Undefined.partial_cmp(&Value::B000), None);
    assert_eq!(Value::Undefined.partial_cmp(&Value::Undefined), None);
    assert!(!(Value::B000 <= Value::Undefined));
}

#[test]
fn tiers_of_groups_and_values() {
    assert_eq!(Group::Undefined.tier(), None);
    assert_eq!(Group::S0.tier(), Some(0));
    assert_eq!(Group::S9.tier(), Some(9));
    assert_eq!(Value::Undefined.tier(), None);
    assert_eq!(Value::B000.tier(), Some(0));
    assert_eq!(Value::B0.tier(), Some(2));
    assert_eq!(Value::B9.tier(), Some(11));
}

#[test]
fn lookup_pale_thistle() {
    let c = lookup("BV0000").unwrap();
    assert_eq!(c.code, "BV0000");
    assert_eq!(c.name, "Pale Thistle");
    assert_eq!(c.family, Family::BlueViolet);
    assert_eq!(c.group, Group::S0);
    assert_eq!(c.value, Value::B000);
    assert_eq!(c.rgb, Rgb::new(238, 236, 245));
}

#[test]
fn lookup_colorless_blender() {
    let c = lookup("0").unwrap();
    assert_eq!(c.name, "Colorless Blender");
    assert_eq!(c.family, Family::Achromatic);
    assert_eq!(c.group, Group::Undefined);
    assert_eq!(c.value, Value::Undefined);
    assert_eq!(c.rgb, Rgb::new(255, 255, 255));
    assert_eq!(c.value.partial_cmp(&Value::B5), None);
    assert_eq!(Value::B5.partial_cmp(&c.value), None);
}

#[test]
fn catalog_length_matches_its_records() {
    assert_eq!(CATALOG_LEN, 358);
    assert_eq!(all_colors().len(), 358);
    assert!(color_at(357).is_some());
    assert_eq!(color_at(358), None);
    assert_eq!(color_at(usize::MAX), None);
}

#[test]
fn catalog_order_and_edges() {
    let colors = all_colors();
    assert_eq!(colors[0].code, "BV0000");
    assert_eq!(colors[357].code, "FB");
    assert_eq!(colors[357].family, Family::Fluorescent);
    assert_eq!(color_at(1).unwrap().code, "BV000");
    let gray = lookup("C-00").unwrap();
    assert_eq!(gray.family, Family::CoolGray);
    assert_eq!(gray.group, Group::Undefined);
    let black = lookup("100").unwrap();
    assert_eq!(black.name, "Black");
    assert_eq!(black.rgb, Rgb::new(1, 1, 1));
    assert_eq!(lookup("110").unwrap().name, "Special Black");
}

#[test]
fn data_kept_as_given() {
    assert_eq!(lookup("YR07").unwrap().value, Value::B7);
    assert_eq!(lookup("YR09").unwrap().value, Value::B7);
    assert_eq!(lookup("B66").unwrap().group, Group::S6);
    assert_eq!(lookup("B63").unwrap().group, Group::S6);
}

#[test]
fn constructors_keep_their_fields() {
    let rgb = Rgb::new(1, 2, 3);
    assert_eq!((rgb.r, rgb.g, rgb.b), (1, 2, 3));
    let c = Color::new("X1", "Test", Family::Red, Group::S2, Value::B4, rgb);
    assert_eq!(c.code, "X1");
    assert_eq!(c.name, "Test");
    assert_eq!(c.family, Family::Red);
    assert_eq!(c.group, Group::S2);
    assert_eq!(c.value, Value::B4);
    assert_eq!(c.rgb, rgb);
}

#[test]
fn colors_compare_field_for_field() {
    let rgb = Rgb::new(1, 2, 3);
    let a = Color::new("X1", "Test", Family::Red, Group::S2, Value::B4, rgb);
    let owned = String::from("X1");
    let code: &'static str = Box::leak(owned.into_boxed_str());
    let b = Color::new(code, "Test", Family::Red, Group::S2, Value::B4, rgb);
    assert_eq!(a, b);
    assert_ne!(a, Color::new("X2", "Test", Family::Red, Group::S2, Value::B4, rgb));
    assert_ne!(a, Color::new("X1", "Tests", Family::Red, Group::S2, Value::B4, rgb));
    assert_ne!(a, Color::new("X1", "Test", Family::Blue, Group::S2, Value::B4, rgb));
    assert_ne!(a, Color::new("X1", "Test", Family::Red, Group::S3, Value::B4, rgb));
    assert_ne!(a, Color::new("X1", "Test", Family::Red, Group::S2, Value::B5, rgb));
    assert_ne!(a, Color::new("X1", "Test", Family::Red, Group::S2, Value::B4, Rgb::new(1, 2, 4)));
}
