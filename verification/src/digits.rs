//! Zero-padded decimal rendering of small numbers, the building block of the
//! generated upload filenames.

use vstd::prelude::*;

verus! {

/// The decimal digit characters.
pub open spec fn is_digit_char(c: char) -> bool {
    '0' <= c && c <= '9'
}

/// The character for a single decimal digit.
pub open spec fn spec_digit_char(d: nat) -> char
    recommends
        d < 10,
{
    if d == 0 {
        '0'
    } else if d == 1 {
        '1'
    } else if d == 2 {
        '2'
    } else if d == 3 {
        '3'
    } else if d == 4 {
        '4'
    } else if d == 5 {
        '5'
    } else if d == 6 {
        '6'
    } else if d == 7 {
        '7'
    } else if d == 8 {
        '8'
    } else {
        '9'
    }
}

/// The last `width` decimal digits of `n`, zero-padded on the left.
pub open spec fn spec_padded(n: nat, width: nat) -> Seq<char>
    decreases width,
{
    if width == 0 {
        Seq::<char>::empty()
    } else {
        spec_padded(n / 10, (width - 1) as nat).push(spec_digit_char(n % 10))
    }
}

/// A padded rendering has exactly `width` characters, all decimal digits.
pub proof fn lemma_padded_is_digits(n: nat, width: nat)
    ensures
        spec_padded(n, width).len() == width,
        forall|i: int| 0 <= i < width ==> is_digit_char(#[trigger] spec_padded(n, width)[i]),
    decreases width,
{
    if width > 0 {
        lemma_padded_is_digits(n / 10, (width - 1) as nat);
    }
}

fn digit_str(d: u64) -> (r: &'static str)
    requires
        d < 10,
    ensures
        r@ =~= seq![spec_digit_char(d as nat)],
{
    proof {
        reveal_strlit("0");
        reveal_strlit("1");
        reveal_strlit("2");
        reveal_strlit("3");
        reveal_strlit("4");
        reveal_strlit("5");
        reveal_strlit("6");
        reveal_strlit("7");
        reveal_strlit("8");
        reveal_strlit("9");
    }
    match d {
        0 => "0",
        1 => "1",
        2 => "2",
        3 => "3",
        4 => "4",
        5 => "5",
        6 => "6",
        7 => "7",
        8 => "8",
        _ => "9",
    }
}

/// Renders the last `width` decimal digits of `n`, zero-padded on the left.
pub fn decimal_padded(n: u64, width: u8) -> (r: String)
    ensures
        r@ == spec_padded(n as nat, width as nat),
    decreases width,
{
    if width == 0 {
        let r = String::new();
        proof {
            assert(r@ =~= spec_padded(n as nat, 0));
        }
        r
    } else {
        let hi = decimal_padded(n / 10, width - 1);
        let r = hi.concat(digit_str(n % 10));
        proof {
            assert(r@ =~= spec_padded(n as nat, width as nat));
        }
        r
    }
}

} // verus!
