//! Text: comparing, replacing, and writing numbers in decimal.

use vstd::prelude::*;
use vstd::string::StringExecFns;

verus! {

/// The text with every occurrence of `from` replaced by `to`, found from left
/// to right, none overlapping another. An empty `from` occurs nowhere.
pub open spec fn replaced(text: Seq<char>, from: Seq<char>, to: Seq<char>) -> Seq<char>
    decreases text.len(),
{
    if from.len() == 0 || text.len() < from.len() {
        text
    } else if text.subrange(0, from.len() as int) == from {
        to + replaced(text.subrange(from.len() as int, text.len() as int), from, to)
    } else {
        seq![text[0]] + replaced(text.drop_first(), from, to)
    }
}

/// The character of a decimal digit.
pub open spec fn digit(d: nat) -> char {
    if d == 0 {
        '0'
    } else if d == 1 {
        '1'
    } else if d == 2 {
        '2'
    } else if d == 3 {
        '3'
    } else if d == 4 {
        '4'
    } else if d == 5 {
        '5'
    } else if d == 6 {
        '6'
    } else if d == 7 {
        '7'
    } else if d == 8 {
        '8'
    } else {
        '9'
    }
}

/// A number in decimal, without sign or leading zeros.
pub open spec fn digits(n: nat) -> Seq<char>
    decreases n,
{
    if n < 10 {
        seq![digit(n)]
    } else {
        digits(n / 10).push(digit(n % 10))
    }
}

/// Whether two string slices hold the same characters.
pub fn same(a: &str, b: &str) -> (equal: bool)
    ensures
        equal == (a@ == b@),
{
    a.to_owned() == b.to_owned()
}

/// The text with every occurrence of `from` replaced by `to`.
pub fn replace(text: &str, from: &str, to: &str) -> (out: String)
    ensures
        out@ == replaced(text@, from@, to@),
{
    let n = text.unicode_len();
    let m = from.unicode_len();
    if m == 0 {
        return text.to_owned();
    }
    let mut out = String::new();
    let mut i: usize = 0;
    proof {
        assert(text@.subrange(0, n as int) =~= text@);
        assert(out@ + replaced(text@, from@, to@) =~= replaced(text@, from@, to@));
    }
    while i < n
        invariant
            i <= n,
            n == text@.len(),
            m == from@.len(),
            m > 0,
            replaced(text@, from@, to@) == out@ + replaced(
                text@.subrange(i as int, n as int),
                from@,
                to@,
            ),
        decreases n - i,
    {
        let ghost rest = text@.subrange(i as int, n as int);
        let ghost before = out@;
        if n - i < m {
            out.append(text.substring_char(i, n));
            i = n;
            proof {
                assert(text@.subrange(n as int, n as int) =~= Seq::<char>::empty());
                assert(out@ + replaced(Seq::<char>::empty(), from@, to@) =~= before + rest);
            }
        } else if same(text.substring_char(i, i + m), from) {
            out.append(to);
            proof {
                assert(rest.subrange(0, m as int) =~= text@.subrange(i as int, i + m));
                assert(rest.subrange(m as int, rest.len() as int) =~= text@.subrange(
                    i + m,
                    n as int,
                ));
                let after = replaced(text@.subrange(i + m, n as int), from@, to@);
                assert(before + (to@ + after) =~= (before + to@) + after);
            }
            i = i + m;
        } else {
            out.append(text.substring_char(i, i + 1));
            proof {
                assert(rest.subrange(0, m as int) =~= text@.subrange(i as int, i + m));
                assert(rest.drop_first() =~= text@.subrange(i + 1, n as int));
                assert(text@.subrange(i as int, i + 1) =~= seq![rest[0]]);
                let after = replaced(text@.subrange(i + 1, n as int), from@, to@);
                assert(before + (seq![rest[0]] + after) =~= (before + seq![rest[0]]) + after);
            }
            i = i + 1;
        }
    }
    proof {
        assert(text@.subrange(n as int, n as int) =~= Seq::<char>::empty());
        assert(out@ + Seq::<char>::empty() =~= out@);
    }
    out
}

/// The text of one decimal digit.
fn digit_text(d: u64) -> (out: &'static str)
    requires
        d < 10,
    ensures
        out@ == seq![digit(d as nat)],
{
    proof {
        reveal_strlit("0");
        reveal_strlit("1");
        reveal_strlit("2");
        reveal_strlit("3");
        reveal_strlit("4");
        reveal_strlit("5");
        reveal_strlit("6");
        reveal_strlit("7");
        reveal_strlit("8");
        reveal_strlit("9");
    }
    let out = if d == 0 {
        "0"
    } else if d == 1 {
        "1"
    } else if d == 2 {
        "2"
    } else if d == 3 {
        "3"
    } else if d == 4 {
        "4"
    } else if d == 5 {
        "5"
    } else if d == 6 {
        "6"
    } else if d == 7 {
        "7"
    } else if d == 8 {
        "8"
    } else {
        "9"
    };
    assert(out@ =~= seq![digit(d as nat)]);
    out
}

/// A number in decimal.
pub fn decimal(n: u64) -> (out: String)
    ensures
        out@ == digits(n as nat),
{
    let mut out = digit_text(n % 10).to_owned();
    let mut rest = n / 10;
    while rest > 0
        invariant
            rest > 0 ==> digits(n as nat) == digits(rest as nat) + out@,
            rest == 0 ==> digits(n as nat) == out@,
        decreases rest,
    {
        let ghost before = out@;
        out = digit_text(rest % 10).to_owned().concat(out.as_str());
        proof {
            let d = seq![digit((rest % 10) as nat)];
            if rest >= 10 {
                assert(digits(rest as nat) == digits((rest / 10) as nat).push(
                    digit((rest % 10) as nat),
                ));
                assert(digits((rest / 10) as nat).push(digit((rest % 10) as nat)) + before
                    =~= digits((rest / 10) as nat) + (d + before));
            } else {
                assert(digits(rest as nat) + before =~= d + before);
            }
        }
        rest = rest / 10;
    }
    out
}

} // verus!
