//! Rendering a decision as the log line the treasury emits.
use vstd::prelude::*;
use vstd::string::StringExecFns;

use crate::decision::TreasuryDecision;

verus! {

/// The character of one decimal digit.
pub open spec fn digit_char(d: int) -> char {
    if d == 0 {
        '0'
    } else if d == 1 {
        '1'
    } else if d == 2 {
        '2'
    } else if d == 3 {
        '3'
    } else if d == 4 {
        '4'
    } else if d == 5 {
        '5'
    } else if d == 6 {
        '6'
    } else if d == 7 {
        '7'
    } else if d == 8 {
        '8'
    } else {
        '9'
    }
}

/// The decimal digits of a number, most significant first.
pub open spec fn dec_digits(n: nat) -> Seq<char>
    decreases n,
{
    if n < 10 {
        seq![digit_char(n as int)]
    } else {
        dec_digits(n / 10) + seq![digit_char((n % 10) as int)]
    }
}

/// The six digits after the point of a micro-unit amount, zero padded.
pub open spec fn frac_digits(f: nat) -> Seq<char> {
    seq![
        digit_char((f / 100_000) as int),
        digit_char(((f / 10_000) % 10) as int),
        digit_char(((f / 1_000) % 10) as int),
        digit_char(((f / 100) % 10) as int),
        digit_char(((f / 10) % 10) as int),
        digit_char((f % 10) as int),
    ]
}

/// A micro-unit amount in whole tokens: the whole part, and the six
/// fractional digits where the fraction is not zero.
pub open spec fn amount_text(a: u128) -> Seq<char> {
    if a % 1_000_000 == 0 {
        dec_digits((a / 1_000_000) as nat)
    } else {
        dec_digits((a / 1_000_000) as nat) + seq!['.'] + frac_digits((a % 1_000_000) as nat)
    }
}

/// The log line of a decision.
pub open spec fn decision_text(d: TreasuryDecision) -> Seq<char> {
    match d {
        TreasuryDecision::Buy(a) => "Treasury decision is to buy $"@ + amount_text(a)
            + " USDT"@,
        TreasuryDecision::Sell(a) => "Treasury decision is to sell $"@ + amount_text(a)
            + " USDT"@,
        TreasuryDecision::DoNothing => "Treasury decision is to do nothing"@,
    }
}

/// Append one digit's character.
fn append_digit(s: &mut String, d: u128)
    requires
        d < 10,
    ensures
        final(s)@ == old(s)@ + seq![digit_char(d as int)],
{
    proof {
        reveal_strlit("0");
        reveal_strlit("1");
        reveal_strlit("2");
        reveal_strlit("3");
        reveal_strlit("4");
        reveal_strlit("5");
        reveal_strlit("6");
        reveal_strlit("7");
        reveal_strlit("8");
        reveal_strlit("9");
    }
    match d {
        0 => s.append("0"),
        1 => s.append("1"),
        2 => s.append("2"),
        3 => s.append("3"),
        4 => s.append("4"),
        5 => s.append("5"),
        6 => s.append("6"),
        7 => s.append("7"),
        8 => s.append("8"),
        _ => s.append("9"),
    }
    proof {
        assert(final(s)@ =~= old(s)@ + seq![digit_char(d as int)]);
    }
}

/// Append a number's decimal digits, most significant first.
fn append_decimal(s: &mut String, n: u128)
    ensures
        final(s)@ == old(s)@ + dec_digits(n as nat),
    decreases n,
{
    if n < 10 {
        append_digit(s, n);
    } else {
        assert(n / 10 < n) by (nonlinear_arith)
            requires
                n >= 10,
        ;
        append_decimal(s, n / 10);
        append_digit(s, n % 10);
        proof {
            assert(final(s)@ =~= old(s)@ + dec_digits(n as nat));
        }
    }
}

/// Append a micro-unit amount in whole tokens.
fn append_amount(s: &mut String, a: u128)
    ensures
        final(s)@ == old(s)@ + amount_text(a),
{
    append_decimal(s, a / 1_000_000);
    let f = a % 1_000_000;
    if f != 0 {
        proof {
            reveal_strlit(".");
        }
        s.append(".");
        append_digit(s, f / 100_000);
        append_digit(s, f / 10_000 % 10);
        append_digit(s, f / 1_000 % 10);
        append_digit(s, f / 100 % 10);
        append_digit(s, f / 10 % 10);
        append_digit(s, f % 10);
        proof {
            assert(final(s)@ =~= old(s)@ + amount_text(a));
        }
    }
}

impl TreasuryDecision {
    /// The structured log line stating this decision.
    pub fn describe(&self) -> (r: String)
        ensures
            r@ == decision_text(*self),
    {
        let mut s = String::new();
        match self {
            TreasuryDecision::Buy(a) => {
                s.append("Treasury decision is to buy $");
                append_amount(&mut s, *a);
                s.append(" USDT");
            },
            TreasuryDecision::Sell(a) => {
                s.append("Treasury decision is to sell $");
                append_amount(&mut s, *a);
                s.append(" USDT");
            },
            TreasuryDecision::DoNothing => {
                s.append("Treasury decision is to do nothing");
            },
        }
        proof {
            assert(s@ =~= decision_text(*self));
        }
        s
    }
}

} // verus!
