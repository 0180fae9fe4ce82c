//! Verified text helpers: substring search, prefixing, and decimal rendering
//! of counters and fixed-point hundredths.

use vstd::prelude::*;
use vstd::string::StrSliceExecFns;
use vstd::string::StringExecFns;

verus! {

/// `needle` occurs somewhere in `hay` as a contiguous run of characters.
pub open spec fn contains_seq(hay: Seq<char>, needle: Seq<char>) -> bool {
    exists|i: int|
        0 <= i && i + needle.len() <= hay.len() && #[trigger] hay.subrange(i, i + needle.len())
            == needle
}

/// Case-sensitive substring search, character by character.
pub fn str_contains(hay: &str, needle: &str) -> (found: bool)
    ensures
        found == contains_seq(hay@, needle@),
{
    let n: usize = hay.unicode_len();
    let m: usize = needle.unicode_len();
    if m > n {
        assert(!contains_seq(hay@, needle@));
        return false;
    }
    let mut i: usize = 0;
    while i <= n - m
        invariant
            m <= n,
            n == hay@.len(),
            m == needle@.len(),
            i <= n - m + 1,
            forall|k: int| 0 <= k < i ==> #[trigger] hay@.subrange(k, k + m) != needle@,
        decreases n - m + 1 - i,
    {
        let mut j: usize = 0;
        let mut matching = true;
        while matching && j < m
            invariant
                i + m <= n,
                n == hay@.len(),
                m == needle@.len(),
                j <= m,
                matching ==> forall|t: int| 0 <= t < j ==> hay@[i + t] == needle@[t],
                !matching ==> j < m && hay@[i + j] != needle@[j as int],
            decreases (if matching { 1int } else { 0int }), m - j,
        {
            if hay.get_char(i + j) != needle.get_char(j) {
                matching = false;
            } else {
                j = j + 1;
            }
        }
        if matching {
            assert(hay@.subrange(i as int, i + m) =~= needle@);
            return true;
        }
        assert(hay@.subrange(i as int, i + m) != needle@) by {
            assert(hay@.subrange(i as int, i + m)[j as int] == hay@[i + j]);
        }
        i = i + 1;
    }
    assert(!contains_seq(hay@, needle@));
    false
}

/// A fresh string holding `prefix` followed by `name`.
pub fn prepend(prefix: &str, name: &str) -> (r: String)
    ensures
        r@ == prefix@ + name@,
{
    let mut r: String = prefix.to_owned();
    r.append(name);
    r
}

/// The character for a single decimal digit.
pub open spec fn digit_char(d: int) -> char {
    if d == 0 {
        '0'
    } else if d == 1 {
        '1'
    } else if d == 2 {
        '2'
    } else if d == 3 {
        '3'
    } else if d == 4 {
        '4'
    } else if d == 5 {
        '5'
    } else if d == 6 {
        '6'
    } else if d == 7 {
        '7'
    } else if d == 8 {
        '8'
    } else {
        '9'
    }
}

/// Decimal digits of a nonnegative number, most significant first, no leading
/// zeros (a lone zero for 0).
pub open spec fn dec_digits(n: int) -> Seq<char>
    decreases n,
{
    if n < 10 {
        seq![digit_char(n)]
    } else {
        dec_digits(n / 10) + seq![digit_char(n % 10)]
    }
}

/// The one-character string for a decimal digit.
pub fn digit_str(d: u64) -> (r: &'static str)
    requires
        d < 10,
    ensures
        r@ == seq![digit_char(d as int)],
{
    if d == 0 {
        proof {
            reveal_strlit("0");
            assert("0"@ =~= seq![digit_char(d as int)]);
        }
        "0"
    } else if d == 1 {
        proof {
            reveal_strlit("1");
            assert("1"@ =~= seq![digit_char(d as int)]);
        }
        "1"
    } else if d == 2 {
        proof {
            reveal_strlit("2");
            assert("2"@ =~= seq![digit_char(d as int)]);
        }
        "2"
    } else if d == 3 {
        proof {
            reveal_strlit("3");
            assert("3"@ =~= seq![digit_char(d as int)]);
        }
        "3"
    } else if d == 4 {
        proof {
            reveal_strlit("4");
            assert("4"@ =~= seq![digit_char(d as int)]);
        }
        "4"
    } else if d == 5 {
        proof {
            reveal_strlit("5");
            assert("5"@ =~= seq![digit_char(d as int)]);
        }
        "5"
    } else if d == 6 {
        proof {
            reveal_strlit("6");
            assert("6"@ =~= seq![digit_char(d as int)]);
        }
        "6"
    } else if d == 7 {
        proof {
            reveal_strlit("7");
            assert("7"@ =~= seq![digit_char(d as int)]);
        }
        "7"
    } else if d == 8 {
        proof {
            reveal_strlit("8");
            assert("8"@ =~= seq![digit_char(d as int)]);
        }
        "8"
    } else {
        proof {
            reveal_strlit("9");
            assert("9"@ =~= seq![digit_char(d as int)]);
        }
        "9"
    }
}

/// Renders a counter in decimal.
pub fn u64_to_dec_string(n: u64) -> (r: String)
    ensures
        r@ == dec_digits(n as int),
    decreases n,
{
    if n < 10 {
        let d = digit_str(n);
        d.to_owned()
    } else {
        let mut r = u64_to_dec_string(n / 10);
        let d = digit_str(n % 10);
        r.append(d);
        r
    }
}

/// Digits of a nonnegative fixed-point value in hundredths: the whole part,
/// a point, and exactly two fractional digits.
pub open spec fn centi_digits(m: int) -> Seq<char> {
    dec_digits(m / 100) + seq!['.', digit_char((m % 100) / 10), digit_char(m % 10)]
}

/// Rendering of a fixed-point value in hundredths, with a leading minus sign
/// when it is negative: exactly what `{:.2}` prints for the value it stands
/// for.
pub open spec fn centi_string(e: int) -> Seq<char> {
    if e < 0 {
        seq!['-'] + centi_digits(-e)
    } else {
        centi_digits(e)
    }
}

/// Renders a fixed-point value in hundredths with two decimal places.
pub fn format_centi(e: i64) -> (r: String)
    ensures
        r@ == centi_string(e as int),
{
    let neg: bool = e < 0;
    let mag: u64 = if e < 0 {
        (-(e as i128)) as u64
    } else {
        e as u64
    };
    let mut r: String = if neg {
        proof {
            reveal_strlit("-");
        }
        "-".to_owned()
    } else {
        String::new()
    };
    let whole = u64_to_dec_string(mag / 100);
    r.append(whole.as_str());
    proof {
        reveal_strlit(".");
    }
    r.append(".");
    let tenths = digit_str((mag % 100) / 10);
    r.append(tenths);
    let hundredths = digit_str(mag % 10);
    r.append(hundredths);
    assert(r@ =~= centi_string(e as int));
    r
}

} // verus!
