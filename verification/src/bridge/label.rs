//! mjai tile labels.
//!
//! A tile *type* is a number in `0..=33`: nine each of manzu, pinzu and
//! souzu, then the seven honors. A label names a type and, for the fives,
//! whether the red copy is meant.

use crate::text;
use vstd::prelude::*;

verus! {

/// The letters of the suits, in type order.
pub open spec fn suits() -> Seq<char> {
    seq!['m', 'p', 's']
}

/// The letters of the honors, in type order.
pub open spec fn honors() -> Seq<char> {
    seq!['E', 'S', 'W', 'N', 'P', 'F', 'C']
}

/// The label of the number tile with rank `rank` (`1..=9`) in suit `suit`
/// (`0..=2`).
pub open spec fn number_label(rank: nat, suit: nat) -> Seq<char> {
    seq![text::digit_char(rank), suits()[suit as int]]
}

/// Whether the type `ty` is a five and so has a red copy.
pub open spec fn is_five(ty: nat) -> bool {
    ty == 4 || ty == 13 || ty == 22
}

/// The label of the type `ty`, or of its red copy.
pub open spec fn type_label(ty: nat, red: bool) -> Seq<char> {
    if ty >= 27 {
        seq![honors()[ty - 27]]
    } else if red {
        number_label(ty % 9 + 1, ty / 9).push('r')
    } else {
        number_label(ty % 9 + 1, ty / 9)
    }
}

/// The type a label names and whether it names the red copy; `None` for a
/// text that is no label.
pub open spec fn label_type(label: Seq<char>) -> Option<(nat, bool)> {
    let red = label.len() > 0 && label.last() == 'r';
    let body = if red {
        label.drop_last()
    } else {
        label
    };
    if label.len() == 1 && honors().contains(label[0]) {
        Some((27 + honors().index_of(label[0]) as nat, false))
    } else if body.len() == 2 && '1' <= body[0] <= '9' && suits().contains(body[1]) && (red
        ==> body[0] == '5') {
        Some((suits().index_of(body[1]) as nat * 9 + (body[0] as nat - '1' as nat) as nat, red))
    } else {
        None
    }
}

/// Position of an honor letter.
fn honor_index(c: char) -> (r: Option<u32>)
    ensures
        r is Some <==> honors().contains(c),
        r matches Some(i) ==> i == honors().index_of(c) && i < 7,
{
    proof {
        let h = honors();
        assert(h[0] == 'E' && h[1] == 'S' && h[2] == 'W' && h[3] == 'N' && h[4] == 'P' && h[5]
            == 'F' && h[6] == 'C');
        if h.contains(c) {
            let i = h.index_of(c);
            assert(0 <= i < 7 && h[i] == c);
        }
    }
    match c {
        'E' => Some(0),
        'S' => Some(1),
        'W' => Some(2),
        'N' => Some(3),
        'P' => Some(4),
        'F' => Some(5),
        'C' => Some(6),
        _ => None,
    }
}

/// Position of a suit letter.
fn suit_index(c: char) -> (r: Option<u32>)
    ensures
        r is Some <==> suits().contains(c),
        r matches Some(i) ==> i == suits().index_of(c) && i < 3,
{
    proof {
        let h = suits();
        assert(h[0] == 'm' && h[1] == 'p' && h[2] == 's');
        if h.contains(c) {
            let i = h.index_of(c);
            assert(0 <= i < 3 && h[i] == c);
        }
    }
    match c {
        'm' => Some(0),
        'p' => Some(1),
        's' => Some(2),
        _ => None,
    }
}

/// Tile type (`0..=33`) and whether the label names a red five.
pub fn tile_type(label: &str) -> (r: Option<(u32, bool)>)
    ensures
        (match r {
            Some((ty, red)) => Some((ty as nat, red)),
            None => None,
        }) == label_type(label@),
        r matches Some((ty, red)) ==> ty < 34,
{
    let len: usize = label.unicode_len();
    if len == 1 {
        if let Some(i) = honor_index(label.get_char(0)) {
            return Some((27 + i, false));
        }
    }
    if len != 2 && len != 3 {
        return None;
    }
    let red = label.get_char(len - 1) == 'r';
    // Only one letter may follow the rank, or two where the second is `r`.
    if red != (len == 3) {
        return None;
    }
    let rank = label.get_char(0);
    if rank < '1' || rank > '9' {
        return None;
    }
    let suit: u32 = match suit_index(label.get_char(1)) {
        Some(i) => i,
        None => {
            return None;
        },
    };
    // Only the fives have a red variant.
    if red && rank != '5' {
        return None;
    }
    Some((suit * 9 + (rank as u32 - '1' as u32), red))
}

/// A label names exactly the type and the copy it is the label of: reading a
/// label gives back what it was made from, and whatever reads as a type is
/// that type's label. Only the fives have a red copy.
pub proof fn law_labels_and_types_correspond(ty: nat, red: bool, label: Seq<char>)
    ensures
        ty < 34 && (red ==> is_five(ty)) ==> label_type(type_label(ty, red)) == Some((ty, red)),
        label_type(label) matches Some((t, r)) ==> {
            &&& t < 34
            &&& r ==> is_five(t)
            &&& label == type_label(t, r)
        },
{
}

/// The grammar of the labels, letter by letter: a rank and a suit letter, a
/// red five, or an honor letter. Manzu count from type 0, pinzu from 9, souzu
/// from 18, the honors from 27 in the order `E S W N P F C`. Nothing else is a
/// label.
pub proof fn law_labels_letter_by_letter(label: Seq<char>)
    ensures
        label.len() == 2 && '1' <= label[0] <= '9' && label[1] == 'm' ==> label_type(label)
            == Some(((label[0] as nat - 0x31) as nat, false)),
        label.len() == 2 && '1' <= label[0] <= '9' && label[1] == 'p' ==> label_type(label)
            == Some(((label[0] as nat - 0x31 + 9) as nat, false)),
        label.len() == 2 && '1' <= label[0] <= '9' && label[1] == 's' ==> label_type(label)
            == Some(((label[0] as nat - 0x31 + 18) as nat, false)),
        label == seq!['5', 'm', 'r'] ==> label_type(label) == Some((4nat, true)),
        label == seq!['5', 'p', 'r'] ==> label_type(label) == Some((13nat, true)),
        label == seq!['5', 's', 'r'] ==> label_type(label) == Some((22nat, true)),
        label == seq!['E'] ==> label_type(label) == Some((27nat, false)),
        label == seq!['S'] ==> label_type(label) == Some((28nat, false)),
        label == seq!['W'] ==> label_type(label) == Some((29nat, false)),
        label == seq!['N'] ==> label_type(label) == Some((30nat, false)),
        label == seq!['P'] ==> label_type(label) == Some((31nat, false)),
        label == seq!['F'] ==> label_type(label) == Some((32nat, false)),
        label == seq!['C'] ==> label_type(label) == Some((33nat, false)),
        label_type(label) is Some ==> {
            ||| label.len() == 2 && '1' <= label[0] <= '9' && (label[1] == 'm' || label[1] == 'p'
                || label[1] == 's')
            ||| label.len() == 3 && label[0] == '5' && label[2] == 'r' && (label[1] == 'm'
                || label[1] == 'p' || label[1] == 's')
            ||| label.len() == 1 && (label[0] == 'E' || label[0] == 'S' || label[0] == 'W'
                || label[0] == 'N' || label[0] == 'P' || label[0] == 'F' || label[0] == 'C')
        },
{
    let h = honors();
    let t = suits();
    assert(h[0] == 'E' && h[1] == 'S' && h[2] == 'W' && h[3] == 'N' && h[4] == 'P' && h[5] == 'F'
        && h[6] == 'C');
    assert(t[0] == 'm' && t[1] == 'p' && t[2] == 's');
    if label.len() == 1 && h.contains(label[0]) {
        let i = h.index_of(label[0]);
        assert(0 <= i < 7 && h[i] == label[0]);
    }
    if label.len() == 2 && t.contains(label[1]) {
        let i = t.index_of(label[1]);
        assert(0 <= i < 3 && t[i] == label[1]);
    }
    if label.len() == 3 && t.contains(label[1]) {
        let i = t.index_of(label[1]);
        assert(0 <= i < 3 && t[i] == label[1]);
    }
}

} // verus!
