//! Verified text helpers: decimal rendering of integers, lexicographic
//! comparison of strings, and removal of a leading byte-order mark.

use vstd::prelude::*;
use vstd::string::StrSliceExecFns;
use vstd::string::StringExecFns;

verus! {

/// The character for one decimal digit.
pub open spec fn digit_char(d: nat) -> char
    recommends
        d < 10,
{
    if d == 0 {
        '0'
    } else if d == 1 {
        '1'
    } else if d == 2 {
        '2'
    } else if d == 3 {
        '3'
    } else if d == 4 {
        '4'
    } else if d == 5 {
        '5'
    } else if d == 6 {
        '6'
    } else if d == 7 {
        '7'
    } else if d == 8 {
        '8'
    } else {
        '9'
    }
}

/// The decimal digits of `n`, most significant first; empty for zero.
pub open spec fn dec_digits(n: nat) -> Seq<char>
    decreases n,
{
    if n == 0 {
        Seq::empty()
    } else {
        dec_digits(n / 10) + seq![digit_char(n % 10)]
    }
}

/// The decimal rendering of a natural number (zero renders as `"0"`).
pub open spec fn dec_nat(n: nat) -> Seq<char> {
    if n == 0 {
        seq!['0']
    } else {
        dec_digits(n)
    }
}

/// The decimal rendering of an integer, with a leading minus sign when
/// negative.
pub open spec fn dec_int(i: int) -> Seq<char> {
    if i >= 0 {
        dec_nat(i as nat)
    } else {
        seq!['-'] + dec_nat((-i) as nat)
    }
}

/// The single-character string for one decimal digit.
fn digit_str(d: u32) -> (r: &'static str)
    requires
        d < 10,
    ensures
        r@ == seq![digit_char(d as nat)],
{
    proof {
        reveal_strlit("0");
        reveal_strlit("1");
        reveal_strlit("2");
        reveal_strlit("3");
        reveal_strlit("4");
        reveal_strlit("5");
        reveal_strlit("6");
        reveal_strlit("7");
        reveal_strlit("8");
        reveal_strlit("9");
    }
    if d == 0 {
        "0"
    } else if d == 1 {
        "1"
    } else if d == 2 {
        "2"
    } else if d == 3 {
        "3"
    } else if d == 4 {
        "4"
    } else if d == 5 {
        "5"
    } else if d == 6 {
        "6"
    } else if d == 7 {
        "7"
    } else if d == 8 {
        "8"
    } else {
        "9"
    }
}

/// Renders a 32-bit integer in decimal, exactly as [`dec_int`] describes.
pub fn int_to_string(n: i32) -> (r: String)
    ensures
        r@ == dec_int(n as int),
{
    if n == 0 {
        proof {
            reveal_strlit("0");
        }
        return String::from_str("0");
    }
    let mut m: u32 = if n >= 0 {
        n as u32
    } else {
        (-(n as i64)) as u32
    };
    let ghost m0: nat = m as nat;
    let mut acc = String::new();
    while m > 0
        invariant
            dec_digits(m0) == dec_digits(m as nat) + acc@,
            m0 > 0,
        decreases m,
    {
        let d: u32 = m % 10;
        let piece = digit_str(d);
        let rest = String::from_str(piece);
        let next = rest.concat(acc.as_str());
        proof {
            assert(dec_digits(m as nat) == dec_digits((m as nat) / 10) + seq![
                digit_char((m as nat) % 10),
            ]);
            assert((m as nat) / 10 == (m / 10) as nat);
            assert((m as nat) % 10 == d as nat);
            assert(dec_digits((m / 10) as nat) + (seq![digit_char(d as nat)] + acc@)
                =~= (dec_digits((m / 10) as nat) + seq![digit_char(d as nat)]) + acc@);
        }
        acc = next;
        m = m / 10;
    }
    assert(acc@ =~= dec_digits(m0));
    if n < 0 {
        proof {
            reveal_strlit("-");
        }
        let sign = String::from_str("-");
        let r = sign.concat(acc.as_str());
        assert(r@ =~= dec_int(n as int));
        r
    } else {
        acc
    }
}

/// Lexicographic order on character sequences, by Unicode scalar value.
/// This matches the order Rust gives UTF-8 encoded strings.
pub open spec fn lex_lt(a: Seq<char>, b: Seq<char>) -> bool
    decreases a.len(),
{
    if b.len() == 0 {
        false
    } else if a.len() == 0 {
        true
    } else if (a[0] as u32) < (b[0] as u32) {
        true
    } else if (b[0] as u32) < (a[0] as u32) {
        false
    } else {
        lex_lt(a.skip(1), b.skip(1))
    }
}

/// Decides [`lex_lt`] on two strings.
pub fn str_lt(a: &str, b: &str) -> (r: bool)
    ensures
        r == lex_lt(a@, b@),
{
    let la = a.unicode_len();
    let lb = b.unicode_len();
    let mut i: usize = 0;
    proof {
        assert(a@.skip(0) =~= a@);
        assert(b@.skip(0) =~= b@);
    }
    loop
        invariant
            i <= la,
            i <= lb,
            la == a@.len(),
            lb == b@.len(),
            lex_lt(a@, b@) == lex_lt(a@.skip(i as int), b@.skip(i as int)),
        decreases la - i,
    {
        if i == lb {
            assert(b@.skip(i as int).len() == 0);
            return false;
        }
        if i == la {
            assert(a@.skip(i as int).len() == 0);
            return true;
        }
        let ca = a.get_char(i);
        let cb = b.get_char(i);
        proof {
            assert(a@.skip(i as int)[0] == a@[i as int]);
            assert(b@.skip(i as int)[0] == b@[i as int]);
        }
        if (ca as u32) < (cb as u32) {
            return true;
        }
        if (cb as u32) < (ca as u32) {
            return false;
        }
        proof {
            assert(a@.skip(i as int).skip(1) =~= a@.skip(i as int + 1));
            assert(b@.skip(i as int).skip(1) =~= b@.skip(i as int + 1));
        }
        i = i + 1;
    }
}

/// What [`strip_bom`] removes: a single leading byte-order mark, if present.
pub open spec fn spec_strip_bom(s: Seq<char>) -> Seq<char> {
    if s.len() > 0 && s[0] == '\u{feff}' {
        s.skip(1)
    } else {
        s
    }
}

/// Drops a leading byte-order mark from decoded source text, so that a
/// program saved with one still parses from its first real character.
pub fn strip_bom(s: &str) -> (r: &str)
    ensures
        r@ == spec_strip_bom(s@),
{
    let n = s.unicode_len();
    if n >= 1 && s.get_char(0) == '\u{feff}' {
        let r = s.substring_char(1, n);
        assert(r@ =~= s@.skip(1));
        r
    } else {
        s
    }
}

} // verus!
