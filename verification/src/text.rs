//! Text building blocks: decimal numbers, label comparison and substring
//! search over the bytes of a string.

use vstd::prelude::*;
use vstd::string::StringExecFns;

verus! {

/// The character that writes the digit `d`.
pub open spec fn digit_char(d: nat) -> char {
    seq!['0', '1', '2', '3', '4', '5', '6', '7', '8', '9'][d as int]
}

/// `n` in decimal, without leading zeros.
pub open spec fn decimal(n: nat) -> Seq<char>
    decreases n,
{
    if n < 10 {
        seq![digit_char(n)]
    } else {
        decimal(n / 10).push(digit_char(n % 10))
    }
}

/// The digit `d` as a string.
fn digit_str(d: u32) -> (r: &'static str)
    requires
        d < 10,
    ensures
        r@ == seq![digit_char(d as nat)],
{
    proof {
        reveal_strlit("0");
        reveal_strlit("1");
        reveal_strlit("2");
        reveal_strlit("3");
        reveal_strlit("4");
        reveal_strlit("5");
        reveal_strlit("6");
        reveal_strlit("7");
        reveal_strlit("8");
        reveal_strlit("9");
    }
    match d {
        0 => "0",
        1 => "1",
        2 => "2",
        3 => "3",
        4 => "4",
        5 => "5",
        6 => "6",
        7 => "7",
        8 => "8",
        _ => "9",
    }
}

/// Append `n` in decimal to `out`.
pub fn push_decimal(out: &mut String, n: u32)
    ensures
        final(out)@ == old(out)@ + decimal(n as nat),
    decreases n,
{
    if n >= 10 {
        push_decimal(out, n / 10);
    }
    out.append(digit_str(n % 10));
}

/// Whether two strings hold the same characters.
pub fn same_text(a: &str, b: &str) -> (r: bool)
    ensures
        r == (a@ == b@),
{
    let x = a.as_bytes();
    let y = b.as_bytes();
    let r = same_bytes(x, y);
    proof {
        vstd::utf8::encode_utf8_decode_utf8(a@);
        vstd::utf8::encode_utf8_decode_utf8(b@);
    }
    r
}

/// Whether two byte slices hold the same bytes.
pub fn same_bytes(x: &[u8], y: &[u8]) -> (r: bool)
    ensures
        r == (x@ == y@),
{
    if x.len() != y.len() {
        return false;
    }
    let mut i: usize = 0;
    while i < x.len()
        invariant
            i <= x.len(),
            x.len() == y.len(),
            forall|j: int| 0 <= j < i ==> x[j] == y[j],
        decreases x.len() - i,
    {
        if x[i] != y[i] {
            return false;
        }
        i += 1;
    }
    assert(x@ =~= y@);
    true
}

/// Whether `needle` stands at position `i` of `hay`.
pub open spec fn occurs_at(hay: Seq<u8>, needle: Seq<u8>, i: int) -> bool {
    &&& 0 <= i
    &&& i + needle.len() <= hay.len()
    &&& hay.subrange(i, i + needle.len()) == needle
}

/// Whether `needle` stands anywhere in `hay`.
pub open spec fn occurs(hay: Seq<u8>, needle: Seq<u8>) -> bool {
    exists|i: int| occurs_at(hay, needle, i)
}

/// Whether `i` is the leftmost position of `needle` in `hay`.
pub open spec fn is_first(hay: Seq<u8>, needle: Seq<u8>, i: int) -> bool {
    occurs_at(hay, needle, i) && forall|j: int| occurs_at(hay, needle, j) ==> i <= j
}

/// Whether `i` is the rightmost position of `needle` in `hay`.
pub open spec fn is_last(hay: Seq<u8>, needle: Seq<u8>, i: int) -> bool {
    occurs_at(hay, needle, i) && forall|j: int| occurs_at(hay, needle, j) ==> j <= i
}

/// The leftmost position of `needle` in `hay`, if it stands there at all.
pub open spec fn first_position(hay: Seq<u8>, needle: Seq<u8>) -> Option<int> {
    if occurs(hay, needle) {
        Some(choose|i: int| is_first(hay, needle, i))
    } else {
        None
    }
}

/// The rightmost position of `needle` in `hay`, if it stands there at all.
pub open spec fn last_position(hay: Seq<u8>, needle: Seq<u8>) -> Option<int> {
    if occurs(hay, needle) {
        Some(choose|i: int| is_last(hay, needle, i))
    } else {
        None
    }
}

/// Whether `needle` stands at position `i` of `hay`.
fn matches_at(hay: &[u8], needle: &[u8], i: usize) -> (r: bool)
    requires
        i + needle.len() <= hay.len(),
    ensures
        r == occurs_at(hay@, needle@, i as int),
{
    let mut k: usize = 0;
    while k < needle.len()
        invariant
            k <= needle.len(),
            i + needle.len() <= hay.len(),
            forall|j: int| 0 <= j < k ==> hay[i + j] == needle[j],
        decreases needle.len() - k,
    {
        if hay[i + k] != needle[k] {
            assert(hay@.subrange(i as int, i + needle.len())[k as int] == hay[i + k]);
            return false;
        }
        k += 1;
    }
    assert(hay@.subrange(i as int, i + needle.len()) =~= needle@);
    true
}

/// Leftmost position of `needle` in `hay`.
pub fn find_bytes(hay: &[u8], needle: &[u8]) -> (r: Option<usize>)
    ensures
        (match r {
            Some(i) => Some(i as int),
            None => None,
        }) == first_position(hay@, needle@),
        r matches Some(i) ==> is_first(hay@, needle@, i as int),
{
    if needle.len() > hay.len() {
        return None;
    }
    let end: usize = hay.len() - needle.len();
    let mut i: usize = 0;
    loop
        invariant_except_break
            i <= end,
            end == hay.len() - needle.len(),
            forall|j: int| occurs_at(hay@, needle@, j) ==> i <= j,
        ensures
            !occurs(hay@, needle@),
        decreases end - i,
    {
        if matches_at(hay, needle, i) {
            assert(is_first(hay@, needle@, i as int));
            return Some(i);
        }
        if i == end {
            break;
        }
        i += 1;
    }
    None
}

/// Rightmost position of `needle` in `hay`.
pub fn rfind_bytes(hay: &[u8], needle: &[u8]) -> (r: Option<usize>)
    ensures
        (match r {
            Some(i) => Some(i as int),
            None => None,
        }) == last_position(hay@, needle@),
        r matches Some(i) ==> is_last(hay@, needle@, i as int),
{
    if needle.len() > hay.len() {
        return None;
    }
    let mut i: usize = hay.len() - needle.len();
    loop
        invariant_except_break
            i <= hay.len() - needle.len(),
            needle.len() <= hay.len(),
            forall|j: int| occurs_at(hay@, needle@, j) ==> j <= i,
        ensures
            !occurs(hay@, needle@),
        decreases i,
    {
        if matches_at(hay, needle, i) {
            assert(is_last(hay@, needle@, i as int));
            return Some(i);
        }
        if i == 0 {
            break;
        }
        i -= 1;
    }
    None
}

/// Where `needle` stands at all, it stands rightmost somewhere.
pub proof fn lemma_last_exists(hay: Seq<u8>, needle: Seq<u8>, i: int)
    requires
        occurs_at(hay, needle, i),
    ensures
        exists|k: int| is_last(hay, needle, k),
    decreases hay.len() - i,
{
    if exists|j: int| occurs_at(hay, needle, j) && i < j {
        let j = choose|j: int| occurs_at(hay, needle, j) && i < j;
        lemma_last_exists(hay, needle, j);
    } else {
        assert(is_last(hay, needle, i));
    }
}

/// The number that a text of digits writes.
pub open spec fn digits_value(digits: Seq<char>) -> nat
    decreases digits.len(),
{
    if digits.len() == 0 {
        0
    } else {
        digits_value(digits.drop_last()) * 10 + (digits.last() as nat - '0' as nat) as nat
    }
}

/// A decimal is a text of digits that reads back as its number, without a
/// leading zero.
pub proof fn law_decimal_reads_back(n: nat)
    ensures
        digits_value(decimal(n)) == n,
        decimal(n).len() > 0,
        forall|i: int| 0 <= i < decimal(n).len() ==> '0' <= #[trigger] decimal(n)[i] <= '9',
        decimal(n)[0] == '0' ==> n == 0 && decimal(n).len() == 1,
    decreases n,
{
    if n < 10 {
        assert(decimal(n).drop_last() =~= Seq::empty());
        assert(digits_value(Seq::<char>::empty()) == 0);
    } else {
        law_decimal_reads_back(n / 10);
        assert(decimal(n).drop_last() =~= decimal(n / 10));
        assert(decimal(n)[0] == decimal(n / 10)[0]);
    }
}

/// Different numbers have different decimals.
pub proof fn law_decimals_tell_numbers_apart(m: nat, n: nat)
    requires
        m != n,
    ensures
        decimal(m) != decimal(n),
{
    law_decimal_reads_back(m);
    law_decimal_reads_back(n);
}

/// Where `needle` stands at all, it stands leftmost somewhere.
pub proof fn lemma_first_exists(hay: Seq<u8>, needle: Seq<u8>, i: int)
    requires
        occurs_at(hay, needle, i),
    ensures
        exists|k: int| is_first(hay, needle, k),
    decreases i,
{
    if exists|j: int| occurs_at(hay, needle, j) && j < i {
        let j = choose|j: int| occurs_at(hay, needle, j) && j < i;
        lemma_first_exists(hay, needle, j);
    } else {
        assert(is_first(hay, needle, i));
    }
}

/// A search from the front finds a place that holds the needle with none
/// before it, and finds nothing exactly where no place holds it.
pub proof fn law_search_finds_the_leftmost_place(hay: Seq<u8>, needle: Seq<u8>, j: int)
    ensures
        match first_position(hay, needle) {
            Some(i) => {
                &&& 0 <= i && i + needle.len() <= hay.len()
                &&& hay.subrange(i, i + needle.len()) == needle
                &&& 0 <= j < i ==> hay.subrange(j, j + needle.len()) != needle
            },
            None => 0 <= j && j + needle.len() <= hay.len() ==> hay.subrange(j, j + needle.len())
                != needle,
        },
{
    if occurs(hay, needle) {
        let some = choose|k: int| occurs_at(hay, needle, k);
        lemma_first_exists(hay, needle, some);
    }
    if 0 <= j && j + needle.len() <= hay.len() && hay.subrange(j, j + needle.len()) == needle {
        assert(occurs_at(hay, needle, j));
    }
}

/// A search from the back finds a place that holds the needle with none
/// behind it, and finds nothing exactly where no place holds it.
pub proof fn law_search_finds_the_rightmost_place(hay: Seq<u8>, needle: Seq<u8>, j: int)
    ensures
        match last_position(hay, needle) {
            Some(i) => {
                &&& 0 <= i && i + needle.len() <= hay.len()
                &&& hay.subrange(i, i + needle.len()) == needle
                &&& i < j && j + needle.len() <= hay.len() ==> hay.subrange(j, j + needle.len())
                    != needle
            },
            None => 0 <= j && j + needle.len() <= hay.len() ==> hay.subrange(j, j + needle.len())
                != needle,
        },
{
    if occurs(hay, needle) {
        let some = choose|k: int| occurs_at(hay, needle, k);
        lemma_last_exists(hay, needle, some);
    }
    if 0 <= j && j + needle.len() <= hay.len() && hay.subrange(j, j + needle.len()) == needle {
        assert(occurs_at(hay, needle, j));
    }
}

} // verus!
