//! Plain-text helpers: decimal rendering of integers and string equality,
//! with exact character-level contracts.

use vstd::prelude::*;
use vstd::string::*;

verus! {

/// The character for one decimal digit value.
pub open spec fn digit_char(d: nat) -> char {
    if d == 0 {
        '0'
    } else if d == 1 {
        '1'
    } else if d == 2 {
        '2'
    } else if d == 3 {
        '3'
    } else if d == 4 {
        '4'
    } else if d == 5 {
        '5'
    } else if d == 6 {
        '6'
    } else if d == 7 {
        '7'
    } else if d == 8 {
        '8'
    } else {
        '9'
    }
}

/// The usual base-ten rendering of a natural number: most significant digit
/// first, no sign, no leading zeros (zero itself is rendered as "0").
pub open spec fn dec_rep(n: nat) -> Seq<char>
    decreases n,
{
    if n < 10 {
        seq![digit_char(n)]
    } else {
        dec_rep(n / 10) + seq![digit_char(n % 10)]
    }
}

/// Signed decimal rendering: a leading minus sign for negative values.
pub open spec fn int_rep(n: int) -> Seq<char> {
    if n < 0 {
        seq!['-'] + dec_rep((-n) as nat)
    } else {
        dec_rep(n as nat)
    }
}

fn digit_str(d: u8) -> (r: &'static str)
    requires
        d < 10,
    ensures
        r@ =~= seq![digit_char(d as nat)],
{
    proof {
        reveal_strlit("0");
        reveal_strlit("1");
        reveal_strlit("2");
        reveal_strlit("3");
        reveal_strlit("4");
        reveal_strlit("5");
        reveal_strlit("6");
        reveal_strlit("7");
        reveal_strlit("8");
        reveal_strlit("9");
    }
    match d {
        0 => "0",
        1 => "1",
        2 => "2",
        3 => "3",
        4 => "4",
        5 => "5",
        6 => "6",
        7 => "7",
        8 => "8",
        _ => "9",
    }
}

/// Renders an unsigned value in decimal.
pub fn u128_to_string(n: u128) -> (r: String)
    ensures
        r@ == dec_rep(n as nat),
    decreases n,
{
    if n < 10 {
        String::from_str(digit_str(n as u8))
    } else {
        let mut s = u128_to_string(n / 10);
        s.append(digit_str((n % 10) as u8));
        s
    }
}

/// Renders a signed value in decimal, with a minus sign when negative.
pub fn i32_to_string(n: i32) -> (r: String)
    ensures
        r@ == int_rep(n as int),
{
    if n >= 0 {
        u128_to_string(n as u128)
    } else {
        proof {
            reveal_strlit("-");
        }
        let mut s = String::from_str("-");
        let m: i64 = -(n as i64);
        s.append(u128_to_string(m as u128).as_str());
        s
    }
}

/// No character of the text is a newline.
pub open spec fn no_newline(s: Seq<char>) -> bool {
    forall|i: int| 0 <= i < s.len() ==> s[i] != '\n'
}

/// Concatenation keeps text newline-free.
pub proof fn lemma_no_newline_concat(a: Seq<char>, b: Seq<char>)
    requires
        no_newline(a),
        no_newline(b),
    ensures
        no_newline(a + b),
{
    assert forall|i: int| 0 <= i < (a + b).len() implies (a + b)[i] != '\n' by {
        if i < a.len() {
            assert((a + b)[i] == a[i]);
        } else {
            assert((a + b)[i] == b[i - a.len()]);
        }
    }
}

/// Decimal renderings consist of digits alone: no newline ever appears.
pub proof fn lemma_dec_rep_no_newline(n: nat)
    ensures
        no_newline(dec_rep(n)),
    decreases n,
{
    if n < 10 {
    } else {
        lemma_dec_rep_no_newline(n / 10);
        lemma_no_newline_concat(dec_rep(n / 10), seq![digit_char(n % 10)]);
    }
}

/// The same for signed renderings: a minus sign is not a newline either.
pub proof fn lemma_int_rep_no_newline(n: int)
    ensures
        no_newline(int_rep(n)),
{
    if n < 0 {
        lemma_dec_rep_no_newline((-n) as nat);
        lemma_no_newline_concat(seq!['-'], dec_rep((-n) as nat));
    } else {
        lemma_dec_rep_no_newline(n as nat);
    }
}

/// Character-by-character string equality, phrased over the views.
pub fn str_eq(a: &str, b: &str) -> (r: bool)
    ensures
        r == (a@ == b@),
{
    let alen = a.unicode_len();
    let blen = b.unicode_len();
    if alen != blen {
        return false;
    }
    let mut i: usize = 0;
    while i < alen
        invariant
            alen == a@.len(),
            alen == b@.len(),
            i <= alen,
            forall|j: int| 0 <= j < i ==> a@[j] == b@[j],
        decreases alen - i,
    {
        if a.get_char(i) != b.get_char(i) {
            return false;
        }
        i += 1;
    }
    proof {
        assert(a@ =~= b@);
    }
    true
}

} // verus!
