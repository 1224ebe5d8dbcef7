//! Riichi City tile encoding → mjai tile string conversion.
//!
//! Riichi City encodes each tile as a hex byte `0x[SUIT][RANK]`:
//! - pinzu `0x01..=0x09` → `1p..9p`
//! - souzu `0x11..=0x19` → `1s..9s`
//! - manzu `0x21..=0x29` → `1m..9m`
//! - honors `0x31/0x41/0x51/0x61/0x71/0x81/0x91` → `E/S/W/N/P/F/C`
//! - red fives `0x105/0x115/0x125` → `5pr/5sr/5mr`
//! - `0x00` (hidden / unknown) → `?`
//!
//! Unmapped codes fall back to `?` so malformed traffic cannot panic the
//! bridge.

use crate::bridge::label;
use vstd::prelude::*;

verus! {

/// The suits in Riichi City's order, as positions in mjai's order: pinzu,
/// souzu, manzu.
pub open spec fn suit_order() -> Seq<nat> {
    seq![1nat, 2nat, 0nat]
}

/// The tile type a code stands for and whether it is the red copy; `None` for
/// a hidden or unknown tile.
pub open spec fn card_type(code: u32) -> Option<(nat, bool)> {
    let suit = (code / 16) as int;
    let rank = (code % 16) as nat;
    if code == 0x105 {
        Some((13nat, true))
    } else if code == 0x115 {
        Some((22nat, true))
    } else if code == 0x125 {
        Some((4nat, true))
    } else if suit <= 2 && 1 <= rank <= 9 {
        Some((suit_order()[suit] * 9 + (rank - 1) as nat, false))
    } else if 3 <= suit <= 9 && rank == 1 {
        Some((27 + (suit - 3) as nat, false))
    } else {
        None
    }
}

/// The mjai label of a code; `?` for a hidden or unknown tile.
pub open spec fn card_label(code: u32) -> Seq<char> {
    match card_type(code) {
        Some((ty, red)) => label::type_label(ty, red),
        None => seq!['?'],
    }
}

/// Convert a Riichi City tile code to its mjai string (owned).
pub fn card_to_mjai(code: u32) -> (r: String)
    ensures
        r@ == card_label(code),
{
    card_to_mjai_str(code).to_owned()
}

/// Borrowed form of [`card_to_mjai`].
pub fn card_to_mjai_str(code: u32) -> (r: &'static str)
    ensures
        r@ == card_label(code),
{
    proof {
        reveal_strlit("?");
        reveal_strlit("1p");
        reveal_strlit("2p");
        reveal_strlit("3p");
        reveal_strlit("4p");
        reveal_strlit("5p");
        reveal_strlit("6p");
        reveal_strlit("7p");
        reveal_strlit("8p");
        reveal_strlit("9p");
        reveal_strlit("1s");
        reveal_strlit("2s");
        reveal_strlit("3s");
        reveal_strlit("4s");
        reveal_strlit("5s");
        reveal_strlit("6s");
        reveal_strlit("7s");
        reveal_strlit("8s");
        reveal_strlit("9s");
        reveal_strlit("1m");
        reveal_strlit("2m");
        reveal_strlit("3m");
        reveal_strlit("4m");
        reveal_strlit("5m");
        reveal_strlit("6m");
        reveal_strlit("7m");
        reveal_strlit("8m");
        reveal_strlit("9m");
        reveal_strlit("E");
        reveal_strlit("S");
        reveal_strlit("W");
        reveal_strlit("N");
        reveal_strlit("P");
        reveal_strlit("F");
        reveal_strlit("C");
        reveal_strlit("5pr");
        reveal_strlit("5sr");
        reveal_strlit("5mr");
    }
    match code {
        0x00 => "?",
        // pinzu
        0x01 => "1p",
        0x02 => "2p",
        0x03 => "3p",
        0x04 => "4p",
        0x05 => "5p",
        0x06 => "6p",
        0x07 => "7p",
        0x08 => "8p",
        0x09 => "9p",
        // souzu
        0x11 => "1s",
        0x12 => "2s",
        0x13 => "3s",
        0x14 => "4s",
        0x15 => "5s",
        0x16 => "6s",
        0x17 => "7s",
        0x18 => "8s",
        0x19 => "9s",
        // manzu
        0x21 => "1m",
        0x22 => "2m",
        0x23 => "3m",
        0x24 => "4m",
        0x25 => "5m",
        0x26 => "6m",
        0x27 => "7m",
        0x28 => "8m",
        0x29 => "9m",
        // honors
        0x31 => "E",
        0x41 => "S",
        0x51 => "W",
        0x61 => "N",
        0x71 => "P",
        0x81 => "F",
        0x91 => "C",
        // red fives
        0x105 => "5pr",
        0x115 => "5sr",
        0x125 => "5mr",
        _ => "?",
    }
}

/// Every code reads, as its label, back as the tile it stands for, and no
/// two codes stand for the same tile.
pub proof fn law_codes_name_distinct_tiles(a: u32, b: u32)
    ensures
        label::label_type(card_label(a)) == card_type(a),
        card_type(a) is Some && card_type(a) == card_type(b) ==> a == b,
        card_label(a) == card_label(b) && card_type(a) is Some ==> a == b,
{
    if let Some((ty, red)) = card_type(a) {
        label::law_labels_and_types_correspond(ty, red, card_label(a));
    }
    if let Some((ty, red)) = card_type(b) {
        label::law_labels_and_types_correspond(ty, red, card_label(b));
    }
}

/// The code of a tile.
pub open spec fn code_of(ty: nat, red: bool) -> u32 {
    if ty >= 27 {
        (0x31 + 16 * (ty - 27)) as u32
    } else {
        let suit: int = if ty < 9 {
            2
        } else if ty < 18 {
            0
        } else {
            1
        };
        (16 * suit + ty % 9 + 1 + if red {
            0x100int
        } else {
            0int
        }) as u32
    }
}

/// Every tile has a code: all 34 types and the three red fives.
pub proof fn law_every_tile_has_a_code(ty: nat, red: bool)
    requires
        ty < 34,
        red ==> label::is_five(ty),
    ensures
        card_type(code_of(ty, red)) == Some((ty, red)),
{
}

/// What every code writes, letter by letter: rank and suit letter for the
/// three blocks of suits, a letter for each honor, the red fives, and `?` for
/// whatever else.
pub proof fn law_codes_letter_by_letter(code: u32)
    ensures
        ({
            let text = card_label(code);
            let rank = code % 16;
            if code / 16 == 0 && 1 <= rank <= 9 {
                text.len() == 2 && text[0] as u32 == 0x30 + rank && text[1] == 'p'
            } else if code / 16 == 1 && 1 <= rank <= 9 {
                text.len() == 2 && text[0] as u32 == 0x30 + rank && text[1] == 's'
            } else if code / 16 == 2 && 1 <= rank <= 9 {
                text.len() == 2 && text[0] as u32 == 0x30 + rank && text[1] == 'm'
            } else if code == 0x31 {
                text == seq!['E']
            } else if code == 0x41 {
                text == seq!['S']
            } else if code == 0x51 {
                text == seq!['W']
            } else if code == 0x61 {
                text == seq!['N']
            } else if code == 0x71 {
                text == seq!['P']
            } else if code == 0x81 {
                text == seq!['F']
            } else if code == 0x91 {
                text == seq!['C']
            } else if code == 0x105 {
                text == seq!['5', 'p', 'r']
            } else if code == 0x115 {
                text == seq!['5', 's', 'r']
            } else if code == 0x125 {
                text == seq!['5', 'm', 'r']
            } else {
                text == seq!['?']
            }
        }),
{
}

} // verus!
