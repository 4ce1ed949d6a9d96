//! Small verified string utilities shared by the rest of the crate.

use vstd::prelude::*;
use vstd::string::StrSliceExecFns;
use vstd::string::StringExecFns;

verus! {

/// Character-wise string equality: true exactly when the two views agree.
pub fn str_eq(a: &str, b: &str) -> (r: bool)
    ensures
        r == (a@ == b@),
{
    let alen = a.unicode_len();
    let blen = b.unicode_len();
    if alen != blen {
        return false;
    }
    let mut i: usize = 0;
    while i < alen
        invariant
            0 <= i <= alen,
            alen == a@.len(),
            alen == b@.len(),
            forall|k: int| 0 <= k < i ==> a@[k] == b@[k],
        decreases alen - i,
    {
        if a.get_char(i) != b.get_char(i) {
            return false;
        }
        i += 1;
    }
    proof {
        assert(a@ =~= b@);
    }
    true
}

/// Lowercase an ASCII letter; any other character is unchanged.
pub open spec fn lower_char(c: char) -> char {
    if 'A' <= c && c <= 'Z' {
        ((c as u32) + 32) as char
    } else {
        c
    }
}

/// `s` with its ASCII letters lowercased.
pub open spec fn lower_spec(s: Seq<char>) -> Seq<char> {
    s.map_values(|c: char| lower_char(c))
}

/// Lowercase one character if it is an ASCII letter.
pub fn lower_char_exec(c: char) -> (r: char)
    ensures
        r == lower_char(c),
{
    if 'A' <= c && c <= 'Z' {
        (((c as u8) + 32) as char)
    } else {
        c
    }
}

/// ASCII-case-insensitive string equality: true exactly when the two views
/// agree after lowercasing their ASCII letters.
pub fn str_eq_ignore_ascii_case(a: &str, b: &str) -> (r: bool)
    ensures
        r == (lower_spec(a@) == lower_spec(b@)),
{
    let alen = a.unicode_len();
    let blen = b.unicode_len();
    if alen != blen {
        proof {
            assert(lower_spec(a@).len() != lower_spec(b@).len());
        }
        return false;
    }
    let mut i: usize = 0;
    while i < alen
        invariant
            0 <= i <= alen,
            alen == a@.len(),
            alen == b@.len(),
            forall|k: int| 0 <= k < i ==> lower_char(a@[k]) == lower_char(b@[k]),
        decreases alen - i,
    {
        if lower_char_exec(a.get_char(i)) != lower_char_exec(b.get_char(i)) {
            proof {
                assert(lower_spec(a@)[i as int] != lower_spec(b@)[i as int]);
            }
            return false;
        }
        i += 1;
    }
    proof {
        assert(lower_spec(a@) =~= lower_spec(b@));
    }
    true
}

/// The character for one decimal digit.
pub open spec fn dec_digit_char(d: nat) -> char {
    if d == 0 {
        '0'
    } else if d == 1 {
        '1'
    } else if d == 2 {
        '2'
    } else if d == 3 {
        '3'
    } else if d == 4 {
        '4'
    } else if d == 5 {
        '5'
    } else if d == 6 {
        '6'
    } else if d == 7 {
        '7'
    } else if d == 8 {
        '8'
    } else {
        '9'
    }
}

/// The decimal digits of `n`, most significant first, without leading zeros
/// (a single `0` for zero itself).
pub open spec fn dec_digits_spec(n: nat) -> Seq<char>
    decreases n,
{
    if n < 10 {
        seq![dec_digit_char(n)]
    } else {
        dec_digits_spec(n / 10) + seq![dec_digit_char(n % 10)]
    }
}

/// Append the character of one decimal digit to `s`.
fn append_dec_digit(d: u16, s: &mut String)
    requires
        d < 10,
    ensures
        final(s)@ == old(s)@ + seq![dec_digit_char(d as nat)],
{
    proof {
        reveal_strlit("0");
        reveal_strlit("1");
        reveal_strlit("2");
        reveal_strlit("3");
        reveal_strlit("4");
        reveal_strlit("5");
        reveal_strlit("6");
        reveal_strlit("7");
        reveal_strlit("8");
        reveal_strlit("9");
    }
    if d == 0 {
        s.append("0");
        proof {
            assert(s@ =~= old(s)@ + seq![dec_digit_char(d as nat)]);
        }
    } else if d == 1 {
        s.append("1");
        proof {
            assert(s@ =~= old(s)@ + seq![dec_digit_char(d as nat)]);
        }
    } else if d == 2 {
        s.append("2");
        proof {
            assert(s@ =~= old(s)@ + seq![dec_digit_char(d as nat)]);
        }
    } else if d == 3 {
        s.append("3");
        proof {
            assert(s@ =~= old(s)@ + seq![dec_digit_char(d as nat)]);
        }
    } else if d == 4 {
        s.append("4");
        proof {
            assert(s@ =~= old(s)@ + seq![dec_digit_char(d as nat)]);
        }
    } else if d == 5 {
        s.append("5");
        proof {
            assert(s@ =~= old(s)@ + seq![dec_digit_char(d as nat)]);
        }
    } else if d == 6 {
        s.append("6");
        proof {
            assert(s@ =~= old(s)@ + seq![dec_digit_char(d as nat)]);
        }
    } else if d == 7 {
        s.append("7");
        proof {
            assert(s@ =~= old(s)@ + seq![dec_digit_char(d as nat)]);
        }
    } else if d == 8 {
        s.append("8");
        proof {
            assert(s@ =~= old(s)@ + seq![dec_digit_char(d as nat)]);
        }
    } else {
        s.append("9");
        proof {
            assert(s@ =~= old(s)@ + seq![dec_digit_char(d as nat)]);
        }
    }
}

/// Append the decimal digits of `n` to `s`, most significant first.
fn append_dec_u16(n: u16, s: &mut String)
    ensures
        final(s)@ == old(s)@ + dec_digits_spec(n as nat),
    decreases n,
{
    if n >= 10 {
        append_dec_u16(n / 10, s);
        append_dec_digit(n % 10, s);
        proof {
            assert(s@ =~= old(s)@ + dec_digits_spec(n as nat));
        }
    } else {
        append_dec_digit(n, s);
    }
}

/// Render `n` in decimal, without leading zeros.
pub fn u16_to_string(n: u16) -> (r: String)
    ensures
        r@ == dec_digits_spec(n as nat),
{
    let mut s = String::new();
    append_dec_u16(n, &mut s);
    proof {
        assert(s@ =~= dec_digits_spec(n as nat));
    }
    s
}

} // verus!
