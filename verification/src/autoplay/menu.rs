//! The client's action menu: one button per slot, found by its name.

use crate::text;
use vstd::prelude::*;
use vstd::string::StringExecFns;

verus! {

pub const TSUMO_AGARI: u8 = 0;

pub const RON: u8 = 1;

pub const RIICHI: u8 = 2;

pub const KYUUSHU: u8 = 3;

pub const PASS: u8 = 4;

/// First of the five slots that kita shares with the other declarations of
/// the three-player menu.
pub const KITA_FIRST: u8 = 5;

/// First of the three slots that the kans of the own turn share.
pub const KAN_FIRST: u8 = 10;

pub const DAIMINKAN: u8 = 13;

/// The pon that leaves a red five out.
pub const PON_KEEP_RED: u8 = 14;

pub const PON: u8 = 15;

/// First of the six chi slots.
pub const CHI_FIRST: u8 = 16;

/// The selector of the button at `slot`.
pub open spec fn selector(slot: u8) -> Seq<char> {
    "[name=\"c22-"@ + text::decimal(slot as nat) + "\"]"@
}

/// The selector of the button at `slot`.
pub fn action_button_selector(slot: u8) -> (r: String)
    ensures
        r@ == selector(slot),
{
    let mut out = "[name=\"c22-".to_owned();
    text::push_decimal(&mut out, slot as u32);
    out.append("\"]");
    out
}

/// A selector asks for the name `c22-` and the number of its slot, so
/// different slots have different selectors.
pub proof fn law_selectors_tell_slots_apart(slot: u8, other: u8)
    ensures
        ({
            let text = selector(slot);
            let n = text.len() as int;
            &&& n > 13
            &&& text.take(11) == seq!['[', 'n', 'a', 'm', 'e', '=', '"', 'c', '2', '2', '-']
            &&& text.subrange(11, n - 2) == text::decimal(slot as nat)
            &&& text::digits_value(text.subrange(11, n - 2)) == slot
            &&& text.skip(n - 2) == seq!['"', ']']
        }),
        selector(slot) == selector(other) <==> slot == other,
{
    reveal_strlit("[name=\"c22-");
    reveal_strlit("\"]");
    text::law_decimal_reads_back(slot as nat);
    text::law_decimal_reads_back(other as nat);
    let mine = selector(slot);
    let theirs = selector(other);
    assert(mine.take(11) =~= seq!['[', 'n', 'a', 'm', 'e', '=', '"', 'c', '2', '2', '-']);
    assert(mine.subrange(11, mine.len() - 2) =~= text::decimal(slot as nat));
    assert(theirs.subrange(11, theirs.len() - 2) =~= text::decimal(other as nat));
    assert(mine.skip(mine.len() - 2) =~= seq!['"', ']']);
}

} // verus!
