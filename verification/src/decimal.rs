//! Decimal text for 32-bit integers: a formatter that yields the canonical
//! form, a parser for sign-and-digits text, and the proof that the one reads
//! the other back.

use vstd::arithmetic::div_mod::lemma_fundamental_div_mod;
use vstd::prelude::*;
use vstd::string::StrSliceExecFns;

verus! {

/// The character for one digit value below ten.
pub open spec fn digit_char(d: nat) -> char {
    if d == 0 {
        '0'
    } else if d == 1 {
        '1'
    } else if d == 2 {
        '2'
    } else if d == 3 {
        '3'
    } else if d == 4 {
        '4'
    } else if d == 5 {
        '5'
    } else if d == 6 {
        '6'
    } else if d == 7 {
        '7'
    } else if d == 8 {
        '8'
    } else {
        '9'
    }
}

/// The canonical decimal digits of a natural number, most significant first.
pub open spec fn dec_digits(n: nat) -> Seq<char>
    decreases n,
{
    if n < 10 {
        seq![digit_char(n)]
    } else {
        dec_digits(n / 10).push(digit_char(n % 10))
    }
}

/// The canonical decimal form of an integer: the digits of its magnitude,
/// behind a minus sign when it is negative.
pub open spec fn dec_int(v: int) -> Seq<char> {
    if v < 0 {
        seq!['-'] + dec_digits((-v) as nat)
    } else {
        dec_digits(v as nat)
    }
}

/// Whether a character is a decimal digit.
pub open spec fn is_dec_digit(c: char) -> bool {
    '0' as int <= c as int <= '9' as int
}

/// The value of one digit character.
pub open spec fn digit_val(c: char) -> int {
    c as int - '0' as int
}

/// Whether every character of the text is a decimal digit.
pub open spec fn all_digits(s: Seq<char>) -> bool {
    forall|i: int| 0 <= i < s.len() ==> is_dec_digit(#[trigger] s[i])
}

/// The numeric value of a digit run, most significant first.
pub open spec fn digits_val(s: Seq<char>) -> int
    decreases s.len(),
{
    if s.len() == 0 {
        0
    } else {
        digits_val(s.drop_last()) * 10 + digit_val(s.last())
    }
}

/// What sign-and-digits text reads as: an optional minus sign, then one or
/// more digits spanning the whole text, and a value within the 32-bit range;
/// anything else reads as nothing.
pub open spec fn spec_parse_i32(s: Seq<char>) -> Option<int> {
    if s.len() >= 1 && s[0] == '-' {
        let d = s.subrange(1, s.len() as int);
        if d.len() >= 1 && all_digits(d) && -digits_val(d) >= i32::MIN as int {
            Some(-digits_val(d))
        } else {
            None
        }
    } else if s.len() >= 1 && all_digits(s) && digits_val(s) <= i32::MAX as int {
        Some(digits_val(s))
    } else {
        None
    }
}

/// The one-character text of a digit value.
fn digit_str(d: u64) -> (r: &'static str)
    requires
        d < 10,
    ensures
        r@ == seq![digit_char(d as nat)],
{
    proof {
        reveal_strlit("0");
        reveal_strlit("1");
        reveal_strlit("2");
        reveal_strlit("3");
        reveal_strlit("4");
        reveal_strlit("5");
        reveal_strlit("6");
        reveal_strlit("7");
        reveal_strlit("8");
        reveal_strlit("9");
    }
    let r = if d == 0 {
        "0"
    } else if d == 1 {
        "1"
    } else if d == 2 {
        "2"
    } else if d == 3 {
        "3"
    } else if d == 4 {
        "4"
    } else if d == 5 {
        "5"
    } else if d == 6 {
        "6"
    } else if d == 7 {
        "7"
    } else if d == 8 {
        "8"
    } else {
        "9"
    };
    proof {
        assert(r@ =~= seq![digit_char(d as nat)]);
    }
    r
}

/// The canonical decimal digits of a 64-bit natural number.
pub fn format_u64(n: u64) -> (s: String)
    ensures
        s@ == dec_digits(n as nat),
    decreases n,
{
    if n < 10 {
        digit_str(n).to_owned()
    } else {
        let mut s = format_u64(n / 10);
        s.append(digit_str(n % 10));
        proof {
            assert(s@ =~= dec_digits(n as nat));
        }
        s
    }
}

/// The canonical decimal form of a 32-bit integer.
pub fn format_i32(v: i32) -> (s: String)
    ensures
        s@ == dec_int(v as int),
{
    if v >= 0 {
        format_u64(v as u64)
    } else {
        proof {
            reveal_strlit("-");
        }
        let mut s = "-".to_owned();
        let magnitude = (-(v as i64)) as u64;
        s.append(format_u64(magnitude).as_str());
        proof {
            assert(s@ =~= dec_int(v as int));
        }
        s
    }
}

proof fn lemma_digits_val_nonneg(s: Seq<char>)
    requires
        all_digits(s),
    ensures
        digits_val(s) >= 0,
    decreases s.len(),
{
    if s.len() > 0 {
        assert(forall|i: int| 0 <= i < s.len() - 1 ==> s.drop_last()[i] == s[i]);
        lemma_digits_val_nonneg(s.drop_last());
    }
}

/// A digit run is worth at least any of its prefixes.
proof fn lemma_digits_val_prefix_le(s: Seq<char>, j: int)
    requires
        all_digits(s),
        0 <= j <= s.len(),
    ensures
        digits_val(s.subrange(0, j)) <= digits_val(s),
    decreases s.len() - j,
{
    if j < s.len() {
        let t = s.subrange(0, j + 1);
        assert(t.drop_last() =~= s.subrange(0, j));
        assert(forall|i: int| 0 <= i < t.len() ==> t[i] == s[i]);
        lemma_digits_val_nonneg(s.subrange(0, j));
        assert(digits_val(s.subrange(0, j)) <= digits_val(t));
        lemma_digits_val_prefix_le(s, j + 1);
        assert(s.subrange(0, s.len() as int) =~= s);
    } else {
        assert(s.subrange(0, j) =~= s);
    }
}

/// Reading the canonical digits of a natural number gives the number back.
proof fn lemma_digits_val_of_dec_digits(n: nat)
    ensures
        all_digits(dec_digits(n)),
        digits_val(dec_digits(n)) == n,
        dec_digits(n).len() >= 1,
        is_dec_digit(dec_digits(n)[0]),
    decreases n,
{
    if n < 10 {
        assert(digits_val(seq![digit_char(n)].drop_last()) == 0) by {
            assert(seq![digit_char(n)].drop_last() =~= Seq::<char>::empty());
        }
    } else {
        lemma_digits_val_of_dec_digits(n / 10);
        let s = dec_digits(n);
        assert(s.drop_last() =~= dec_digits(n / 10));
        lemma_fundamental_div_mod(n as int, 10);
    }
}

/// Parses sign-and-digits text as a 32-bit integer: nothing on empty text, a
/// stray character, a bare sign, or a value out of range.
pub fn parse_i32(s: &str) -> (r: Option<i32>)
    ensures
        match r {
            Some(v) => spec_parse_i32(s@) == Some(v as int),
            None => spec_parse_i32(s@) is None,
        },
{
    let len = s.unicode_len();
    if len == 0 {
        return None;
    }
    let negative = s.get_char(0) == '-';
    let start: usize = if negative {
        1
    } else {
        0
    };
    if start == len {
        // a bare minus sign has no digits behind it
        proof {
            assert(s@.subrange(1, s@.len() as int).len() == 0);
        }
        return None;
    }
    let ghost run = s@.subrange(start as int, s@.len() as int);
    let mut i: usize = start;
    let mut acc: i64 = 0;
    while i < len
        invariant
            start <= i <= len,
            len == s@.len(),
            negative <==> start == 1,
            start == 0 || start == 1,
            start == 1 ==> s@[0] == '-',
            start == 0 ==> !(s@.len() >= 1 && s@[0] == '-'),
            run == s@.subrange(start as int, s@.len() as int),
            all_digits(s@.subrange(start as int, i as int)),
            acc == digits_val(s@.subrange(start as int, i as int)),
            0 <= acc <= 2147483648,
        decreases len - i,
    {
        let c = s.get_char(i);
        let code = c as u32;
        if code < 48 || code > 57 {
            // a stray character: the text is not a digit run
            proof {
                assert(run[i - start] == s@[i as int]);
                assert(!all_digits(run));
                assert(s@.subrange(0, s@.len() as int) =~= s@);
            }
            return None;
        }
        let d = (code - 48) as i64;
        let candidate = acc * 10 + d;
        proof {
            let pre = s@.subrange(start as int, i as int);
            let ext = s@.subrange(start as int, i as int + 1);
            assert(ext.drop_last() =~= pre);
            assert(ext.last() == s@[i as int]);
            assert(digit_val(s@[i as int]) == d as int);
            assert(digits_val(ext) == candidate);
        }
        if candidate > 2147483648 {
            // too large for the 32-bit range whatever the sign
            proof {
                let ext = s@.subrange(start as int, i as int + 1);
                if all_digits(run) {
                    assert(ext =~= run.subrange(0, i - start + 1));
                    lemma_digits_val_prefix_le(run, i - start + 1);
                    lemma_digits_val_prefix_le(run, run.len() as int);
                    assert(run.subrange(0, run.len() as int) =~= run);
                }
                assert(s@.subrange(0, s@.len() as int) =~= s@);
            }
            return None;
        }
        acc = candidate;
        i = i + 1;
    }
    proof {
        assert(s@.subrange(start as int, i as int) =~= run);
        assert(s@.subrange(0, s@.len() as int) =~= s@);
        lemma_digits_val_nonneg(run);
    }
    if negative {
        Some((-acc) as i32)
    } else {
        if acc > 2147483647 {
            return None;
        }
        Some(acc as i32)
    }
}

/// The canonical decimal form of an integer reads back as that integer.
pub proof fn lemma_format_parse_round_trip(v: int)
    requires
        i32::MIN <= v <= i32::MAX,
    ensures
        spec_parse_i32(dec_int(v)) == Some(v),
{
    if v < 0 {
        let s = dec_int(v);
        lemma_digits_val_of_dec_digits((-v) as nat);
        assert(s[0] == '-');
        assert(s.subrange(1, s.len() as int) =~= dec_digits((-v) as nat));
    } else {
        let s = dec_int(v);
        lemma_digits_val_of_dec_digits(v as nat);
        assert(!is_dec_digit('-'));
        assert(s[0] != '-');
    }
}

} // verus!
