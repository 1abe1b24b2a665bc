//! Rendering the aggregate summary line.
//!
//! The reporter's one output is `"<passed>/<total> cases passed"`, with
//! both counters in plain decimal.  The decimal rendering is verified
//! down to the digit sequence, so the summary's denominator is pinned to
//! the recipe's size by the contract alone.

use vstd::prelude::*;
use vstd::string::StringExecFns;

verus! {

/// The digit character of one decimal digit value.
pub open spec fn digit_char(d: nat) -> char
    recommends
        d < 10,
{
    if d == 0 {
        '0'
    } else if d == 1 {
        '1'
    } else if d == 2 {
        '2'
    } else if d == 3 {
        '3'
    } else if d == 4 {
        '4'
    } else if d == 5 {
        '5'
    } else if d == 6 {
        '6'
    } else if d == 7 {
        '7'
    } else if d == 8 {
        '8'
    } else {
        '9'
    }
}

/// The decimal rendering of a number, most significant digit first, with
/// no leading zero except for the number zero itself.
pub open spec fn dec_rep(n: nat) -> Seq<char>
    decreases n,
{
    if n < 10 {
        seq![digit_char(n)]
    } else {
        dec_rep(n / 10).push(digit_char(n % 10))
    }
}

/// The full summary line for a session: passed count, a slash, the total
/// count, and the fixed suffix.
pub open spec fn summary_chars(passed: nat, total: nat) -> Seq<char> {
    dec_rep(passed) + seq!['/'] + dec_rep(total) + seq![
        ' ',
        'c',
        'a',
        's',
        'e',
        's',
        ' ',
        'p',
        'a',
        's',
        's',
        'e',
        'd',
    ]
}

/// The single digit character of a value below ten.
fn digit_str(d: u64) -> (s: &'static str)
    requires
        d < 10,
    ensures
        s@ == seq![digit_char(d as nat)],
{
    proof {
        reveal_strlit("0");
        reveal_strlit("1");
        reveal_strlit("2");
        reveal_strlit("3");
        reveal_strlit("4");
        reveal_strlit("5");
        reveal_strlit("6");
        reveal_strlit("7");
        reveal_strlit("8");
        reveal_strlit("9");
    }
    if d == 0 {
        "0"
    } else if d == 1 {
        "1"
    } else if d == 2 {
        "2"
    } else if d == 3 {
        "3"
    } else if d == 4 {
        "4"
    } else if d == 5 {
        "5"
    } else if d == 6 {
        "6"
    } else if d == 7 {
        "7"
    } else if d == 8 {
        "8"
    } else {
        "9"
    }
}

/// Render a number in decimal.
pub fn dec_string(n: u64) -> (s: String)
    ensures
        s@ == dec_rep(n as nat),
    decreases n,
{
    if n < 10 {
        String::from_str(digit_str(n))
    } else {
        let mut s = dec_string(n / 10);
        s.append(digit_str(n % 10));
        proof {
            assert(dec_rep((n / 10) as nat) + seq![digit_char((n % 10) as nat)] =~= dec_rep(
                (n / 10) as nat,
            ).push(digit_char((n % 10) as nat)));
        }
        s
    }
}

/// Render the summary line for the given counters.
pub fn summary_line(passed: u64, total: u64) -> (s: String)
    ensures
        s@ == summary_chars(passed as nat, total as nat),
{
    let mut s = dec_string(passed);
    s.append("/");
    let t = dec_string(total);
    s.append(t.as_str());
    s.append(" cases passed");
    proof {
        reveal_strlit("/");
        reveal_strlit(" cases passed");
        assert(("/")@ =~= seq!['/']);
        assert((" cases passed")@ =~= seq![
            ' ',
            'c',
            'a',
            's',
            'e',
            's',
            ' ',
            'p',
            'a',
            's',
            's',
            'e',
            'd',
        ]);
        assert(s@ =~= summary_chars(passed as nat, total as nat));
    }
    s
}

} // verus!
