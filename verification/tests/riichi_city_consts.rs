//! Riichi City tile codes.

use akagi::bridge::label::tile_type;
use akagi::bridge::riichi_city::consts::{card_to_mjai, card_to_mjai_str};

#[test]
fn suits_map_in_riichi_city_order() {
    // Pinzu is the low nibble-0 block, souzu nibble-1, manzu nibble-2.
    assert_eq!(card_to_mjai(0x01), "1p");
    assert_eq!(card_to_mjai(0x09), "9p");
    assert_eq!(card_to_mjai(0x11), "1s");
    assert_eq!(card_to_mjai(0x19), "9s");
    assert_eq!(card_to_mjai(0x21), "1m");
    assert_eq!(card_to_mjai(0x29), "9m");
}

#[test]
fn honors() {
    assert_eq!(card_to_mjai(0x31), "E");
    assert_eq!(card_to_mjai(0x41), "S");
    assert_eq!(card_to_mjai(0x51), "W");
    assert_eq!(card_to_mjai(0x61), "N");
    assert_eq!(card_to_mjai(0x71), "P");
    assert_eq!(card_to_mjai(0x81), "F");
    assert_eq!(card_to_mjai(0x91), "C");
}

#[test]
fn red_fives() {
    assert_eq!(card_to_mjai(0x105), "5pr");
    assert_eq!(card_to_mjai(0x115), "5sr");
    assert_eq!(card_to_mjai(0x125), "5mr");
    // Plain fives stay plain.
    assert_eq!(card_to_mjai(0x05), "5p");
    assert_eq!(card_to_mjai(0x15), "5s");
    assert_eq!(card_to_mjai(0x25), "5m");
}

#[test]
fn hidden_and_unknown() {
    assert_eq!(card_to_mjai(0x00), "?");
    assert_eq!(card_to_mjai(0xFFFF), "?");
}

/// Every code names a tile of its own, and all tiles have one.
#[test]
fn codes_name_each_tile_once() {
    let mut seen: Vec<(u32, bool)> = Vec::new();
    for code in 0..0x200u32 {
        let label = card_to_mjai_str(code);
        if label == "?" {
            assert_eq!(tile_type(label), None);
            continue;
        }
        let tile = tile_type(label).unwrap();
        assert!(!seen.contains(&tile), "{label} twice");
        seen.push(tile);
    }
    assert_eq!(seen.len(), 37);
}
