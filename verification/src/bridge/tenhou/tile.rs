//! Tenhou tile indices.
//!
//! Tenhou numbers the 136 physical tiles: index `4 * type + copy`. The red
//! five of each suit is copy 0 of its type.

use crate::bridge::label;
use vstd::prelude::*;

verus! {

/// Number of physical tiles.
pub const TILE_COUNT: u32 = 136;

/// The indices of the red fives.
pub open spec fn red_index(index: u32) -> bool {
    index == 16 || index == 52 || index == 88
}

/// The label of the physical tile `index`; `?` for a number that is no tile.
pub open spec fn index_label(index: u32) -> Seq<char> {
    if index < TILE_COUNT {
        label::type_label((index / 4) as nat, red_index(index))
    } else {
        seq!['?']
    }
}

/// The red five of each suit is the 0-th physical copy of its type.
pub fn is_red_index(index: u32) -> (r: bool)
    ensures
        r == red_index(index),
{
    index == 16 || index == 52 || index == 88
}

/// The mjai label of one Tenhou tile.
pub fn tenhou_to_mjai_one(index: u32) -> (r: &'static str)
    ensures
        r@ == index_label(index),
{
    proof {
        reveal_strlit("1m");
        reveal_strlit("2m");
        reveal_strlit("3m");
        reveal_strlit("4m");
        reveal_strlit("5m");
        reveal_strlit("6m");
        reveal_strlit("7m");
        reveal_strlit("8m");
        reveal_strlit("9m");
        reveal_strlit("1p");
        reveal_strlit("2p");
        reveal_strlit("3p");
        reveal_strlit("4p");
        reveal_strlit("5p");
        reveal_strlit("6p");
        reveal_strlit("7p");
        reveal_strlit("8p");
        reveal_strlit("9p");
        reveal_strlit("1s");
        reveal_strlit("2s");
        reveal_strlit("3s");
        reveal_strlit("4s");
        reveal_strlit("5s");
        reveal_strlit("6s");
        reveal_strlit("7s");
        reveal_strlit("8s");
        reveal_strlit("9s");
        reveal_strlit("E");
        reveal_strlit("S");
        reveal_strlit("W");
        reveal_strlit("N");
        reveal_strlit("P");
        reveal_strlit("F");
        reveal_strlit("C");
        reveal_strlit("5mr");
        reveal_strlit("5pr");
        reveal_strlit("5sr");
        reveal_strlit("?");
    }
    if index >= TILE_COUNT {
        return "?";
    }
    match index {
        16 => {
            return "5mr";
        },
        52 => {
            return "5pr";
        },
        88 => {
            return "5sr";
        },
        _ => {},
    }
    match index / 4 {
        0 => "1m",
        1 => "2m",
        2 => "3m",
        3 => "4m",
        4 => "5m",
        5 => "6m",
        6 => "7m",
        7 => "8m",
        8 => "9m",
        9 => "1p",
        10 => "2p",
        11 => "3p",
        12 => "4p",
        13 => "5p",
        14 => "6p",
        15 => "7p",
        16 => "8p",
        17 => "9p",
        18 => "1s",
        19 => "2s",
        20 => "3s",
        21 => "4s",
        22 => "5s",
        23 => "6s",
        24 => "7s",
        25 => "8s",
        26 => "9s",
        27 => "E",
        28 => "S",
        29 => "W",
        30 => "N",
        31 => "P",
        32 => "F",
        _ => "C",
    }
}

/// Reading the label of a physical tile gives back its type and whether it
/// is red.
pub proof fn law_index_label_reads_back(index: u32)
    requires
        index < TILE_COUNT,
    ensures
        label::label_type(index_label(index)) == Some(((index / 4) as nat, red_index(index))),
{
    label::law_labels_and_types_correspond((index / 4) as nat, red_index(index), Seq::empty());
}

/// The 136 tiles come in fours, copy by copy, type after type, and the red
/// fives are the first copies of the three fives. A number past the last tile
/// has no label that names a tile.
pub proof fn law_indices_count_copies_in_fours(index: u32)
    ensures
        index < 136 ==> label::label_type(index_label(index)) == Some(
            (
                (index / 4) as nat,
                index % 4 == 0 && (index / 4 == 4 || index / 4 == 13 || index / 4 == 22),
            ),
        ),
        index >= 136 ==> index_label(index) == seq!['?'],
        red_index(index) <==> index % 4 == 0 && (index / 4 == 4 || index / 4 == 13 || index / 4
            == 22),
{
    if index < 136 {
        law_index_label_reads_back(index);
    }
}

} // verus!
