//! Decimal text: parsing the poll cursor's `ts` marker and rendering
//! identifiers into request parameters, both against an exact model of
//! base-ten notation.

use vstd::prelude::*;
use vstd::string::StrSliceExecFns;
use vstd::string::StringExecFns;

verus! {

/// The ten digit characters, by value.
pub open spec fn digit_char(d: int) -> char {
    if d == 0 {
        '0'
    } else if d == 1 {
        '1'
    } else if d == 2 {
        '2'
    } else if d == 3 {
        '3'
    } else if d == 4 {
        '4'
    } else if d == 5 {
        '5'
    } else if d == 6 {
        '6'
    } else if d == 7 {
        '7'
    } else if d == 8 {
        '8'
    } else {
        '9'
    }
}

pub open spec fn is_digit(c: char) -> bool {
    48 <= c as int && c as int <= 57
}

pub open spec fn digit_val(c: char) -> int {
    c as int - 48
}

/// Every position holds a digit and there is at least one.
pub open spec fn all_digits(s: Seq<char>) -> bool {
    s.len() > 0 && forall|i: int| 0 <= i < s.len() ==> is_digit(#[trigger] s[i])
}

/// The value a digit string denotes.
pub open spec fn dec_val(s: Seq<char>) -> nat
    decreases s.len(),
{
    if s.len() == 0 {
        0
    } else {
        (dec_val(s.drop_last()) * 10 + digit_val(s.last())) as nat
    }
}

/// What a signed decimal text denotes as an `i64`: an optional leading
/// minus sign, then digits; `None` where the shape is wrong or the
/// value does not fit.
pub open spec fn dec_i64_of(s: Seq<char>) -> Option<i64> {
    if s.len() > 0 && s[0] == '-' {
        let mag = s.drop_first();
        if all_digits(mag) && dec_val(mag) <= 0x8000_0000_0000_0000 {
            Some((0 - dec_val(mag) as int) as i64)
        } else {
            None
        }
    } else {
        if all_digits(s) && dec_val(s) <= i64::MAX as nat {
            Some(dec_val(s) as i64)
        } else {
            None
        }
    }
}

proof fn lemma_dec_val_step(s: Seq<char>, i: int)
    requires
        0 <= i < s.len(),
        is_digit(s[i]),
    ensures
        dec_val(s.take(i + 1)) == dec_val(s.take(i)) * 10 + digit_val(s[i]),
{
    assert(s.take(i + 1).drop_last() =~= s.take(i));
    assert(s.take(i + 1).last() == s[i]);
}

proof fn lemma_dec_val_grows(s: Seq<char>, i: int)
    requires
        all_digits(s),
        0 <= i <= s.len(),
    ensures
        dec_val(s.take(i)) <= dec_val(s),
    decreases s.len() - i,
{
    if i < s.len() {
        lemma_dec_val_step(s, i);
        lemma_dec_val_grows(s, i + 1);
    } else {
        assert(s.take(i) =~= s);
    }
}

/// Parses an unsigned decimal digit string; `None` where some position
/// is no digit, the string is empty, or the value exceeds `u64`.
fn parse_dec_mag(s: &str) -> (r: Option<u64>)
    ensures
        match r {
            Some(v) => all_digits(s@) && dec_val(s@) == v,
            None => !all_digits(s@) || dec_val(s@) > u64::MAX as nat,
        },
{
    let n = s.unicode_len();
    if n == 0 {
        return None;
    }
    let mut acc: u64 = 0;
    let mut i: usize = 0;
    while i < n
        invariant
            0 <= i <= n,
            n == s@.len(),
            forall|j: int| 0 <= j < i ==> is_digit(#[trigger] s@[j]),
            acc as nat == dec_val(s@.take(i as int)),
        decreases n - i,
    {
        let c = s.get_char(i);
        let cv = c as u32;
        if cv < 48 || cv > 57 {
            return None;
        }
        let d: u64 = (cv - 48) as u64;
        proof {
            lemma_dec_val_step(s@, i as int);
        }
        let next = match acc.checked_mul(10) {
            Some(m) => m.checked_add(d),
            None => None,
        };
        match next {
            Some(v) => {
                acc = v;
            },
            None => {
                proof {
                    assert(dec_val(s@.take(i + 1)) > u64::MAX as nat);
                    if all_digits(s@) {
                        lemma_dec_val_grows(s@, i + 1);
                    }
                }
                return None;
            },
        }
        i += 1;
    }
    proof {
        assert(s@.take(n as int) =~= s@);
    }
    Some(acc)
}

/// Parses a signed decimal text into an `i64`, exactly the values of
/// `dec_i64_of`.
pub fn parse_dec_i64(s: &str) -> (r: Option<i64>)
    ensures
        r == dec_i64_of(s@),
{
    let n = s.unicode_len();
    if n > 0 && s.get_char(0) == '-' {
        let mag = s.substring_char(1, n);
        proof {
            assert(mag@ =~= s@.drop_first());
        }
        match parse_dec_mag(mag) {
            Some(v) => {
                if v <= 0x8000_0000_0000_0000 {
                    if v == 0x8000_0000_0000_0000 {
                        Some(i64::MIN)
                    } else {
                        Some(-(v as i64))
                    }
                } else {
                    None
                }
            },
            None => None,
        }
    } else {
        match parse_dec_mag(s) {
            Some(v) => {
                if v <= i64::MAX as u64 {
                    Some(v as i64)
                } else {
                    None
                }
            },
            None => None,
        }
    }
}

/// The decimal rendering of an unsigned value: most significant digit
/// first, no sign, no leading zero except for zero itself.
pub open spec fn dec_seq(n: nat) -> Seq<char>
    decreases n,
{
    if n < 10 {
        seq![digit_char(n as int)]
    } else {
        dec_seq(n / 10) + seq![digit_char((n % 10) as int)]
    }
}

/// The decimal rendering of a signed value.
pub open spec fn dec_seq_i64(n: int) -> Seq<char> {
    if n >= 0 {
        dec_seq(n as nat)
    } else {
        seq!['-'] + dec_seq((0 - n) as nat)
    }
}

/// Rendering a value and reading the digits back returns the value:
/// `dec_seq` writes only digits, and they denote what was written.
pub proof fn lemma_dec_print_parse(n: nat)
    ensures
        all_digits(dec_seq(n)),
        dec_val(dec_seq(n)) == n,
    decreases n,
{
    if n < 10 {
        assert(dec_seq(n) =~= seq![digit_char(n as int)]);
        assert(dec_seq(n).drop_last() =~= Seq::<char>::empty());
        assert(dec_val(Seq::<char>::empty()) == 0);
        assert(dec_seq(n).last() == digit_char(n as int));
        assert(dec_val(dec_seq(n)) == digit_val(digit_char(n as int)));
    } else {
        lemma_dec_print_parse(n / 10);
        let s = dec_seq(n);
        assert(s =~= dec_seq(n / 10) + seq![digit_char((n % 10) as int)]);
        assert(s.drop_last() =~= dec_seq(n / 10));
        assert(s.last() == digit_char((n % 10) as int));
        assert(digit_val(digit_char((n % 10) as int)) == n % 10);
        assert(dec_val(s) == dec_val(dec_seq(n / 10)) * 10 + n % 10);
        assert(forall|i: int| 0 <= i < s.len() ==> is_digit(#[trigger] s[i]));
    }
}

/// The signed rendering reads back as the value it was written from.
pub proof fn lemma_dec_i64_print_parse(v: i64)
    ensures
        dec_i64_of(dec_seq_i64(v as int)) == Some(v),
{
    if v >= 0 {
        lemma_dec_print_parse(v as nat);
        let s = dec_seq(v as nat);
        assert(is_digit(s[0]));
        assert(s[0] != '-');
    } else {
        let m = (0 - v as int) as nat;
        lemma_dec_print_parse(m);
        let s = dec_seq_i64(v as int);
        assert(s[0] == '-');
        assert(s.drop_first() =~= dec_seq(m));
        assert(m <= 0x8000_0000_0000_0000);
    }
}

fn digit_str(d: u64) -> (r: &'static str)
    requires
        d < 10,
    ensures
        r@ =~= seq![digit_char(d as int)],
{
    proof {
        reveal_strlit("0");
        reveal_strlit("1");
        reveal_strlit("2");
        reveal_strlit("3");
        reveal_strlit("4");
        reveal_strlit("5");
        reveal_strlit("6");
        reveal_strlit("7");
        reveal_strlit("8");
        reveal_strlit("9");
    }
    match d {
        0 => "0",
        1 => "1",
        2 => "2",
        3 => "3",
        4 => "4",
        5 => "5",
        6 => "6",
        7 => "7",
        8 => "8",
        _ => "9",
    }
}

/// Renders an unsigned value in decimal, exactly `dec_seq`.
pub fn u64_to_dec(n: u64) -> (r: String)
    ensures
        r@ == dec_seq(n as nat),
    decreases n,
{
    if n < 10 {
        digit_str(n).to_owned()
    } else {
        let mut s = u64_to_dec(n / 10);
        s.append(digit_str(n % 10));
        s
    }
}

/// Renders a signed value in decimal, exactly `dec_seq_i64`.
pub fn i64_to_dec(n: i64) -> (r: String)
    ensures
        r@ == dec_seq_i64(n as int),
{
    if n >= 0 {
        u64_to_dec(n as u64)
    } else {
        let mag: u64 = if n == i64::MIN {
            0x8000_0000_0000_0000
        } else {
            (-n) as u64
        };
        proof {
            reveal_strlit("-");
        }
        let mut s = "-".to_owned();
        let m = u64_to_dec(mag);
        s.append(m.as_str());
        proof {
            assert(s@ =~= seq!['-'] + dec_seq(mag as nat));
        }
        s
    }
}

} // verus!
