//! The wording of what is written on screen.

use crate::draw::Label;
use vstd::prelude::*;
use vstd::string::StringExecFns;

verus! {

/// Width to which the scores are padded with zeros.
pub const SCORE_WIDTH: usize = 6;

/// The character of a decimal digit.
pub open spec fn digit(d: int) -> char {
    if d == 0 {
        '0'
    } else if d == 1 {
        '1'
    } else if d == 2 {
        '2'
    } else if d == 3 {
        '3'
    } else if d == 4 {
        '4'
    } else if d == 5 {
        '5'
    } else if d == 6 {
        '6'
    } else if d == 7 {
        '7'
    } else if d == 8 {
        '8'
    } else {
        '9'
    }
}

/// The decimal digits of `n`, most significant first, without leading zeros.
pub open spec fn decimal(n: nat) -> Seq<char>
    decreases n,
{
    if n < 10 {
        seq![digit(n as int)]
    } else {
        decimal(n / 10).push(digit((n % 10) as int))
    }
}

/// `count` zeros.
pub open spec fn zeros(count: int) -> Seq<char> {
    Seq::new(if count > 0 { count as nat } else { 0 }, |i: int| '0')
}

/// The decimal digits of `n`, with zeros in front up to `width` characters.
pub open spec fn zero_padded(n: nat, width: int) -> Seq<char> {
    zeros(width - decimal(n).len()) + decimal(n)
}

/// `n` in decimal, at least `width` characters wide: filled up with zeros,
/// which follow the minus sign of a negative number.
pub open spec fn padded(n: int, width: int) -> Seq<char> {
    if n >= 0 {
        zero_padded(n as nat, width)
    } else {
        seq!['-'] + zero_padded((-n) as nat, width - 1)
    }
}

/// The score line.
pub open spec fn score_line(score: int, high_score: int) -> Seq<char> {
    "Score: "@ + padded(score, SCORE_WIDTH as int) + "   Hi-Score: "@ + padded(
        high_score,
        SCORE_WIDTH as int,
    )
}

impl Label {
    /// What the label says.
    pub open spec fn content(self) -> Seq<char> {
        match self {
            Label::PressSpace => "Press <space> to begin"@,
            Label::YouSunk => "You sunk. Press <space> to try again"@,
            Label::Score { score, high_score } => score_line(score as int, high_score as int),
        }
    }

    /// What the label says.
    pub fn text(&self) -> (s: String)
        ensures
            s@ == self.content(),
    {
        match self {
            Label::PressSpace => String::from_str("Press <space> to begin"),
            Label::YouSunk => String::from_str("You sunk. Press <space> to try again"),
            Label::Score { score, high_score } => {
                let mut s = String::from_str("Score: ");
                append_padded(&mut s, *score, SCORE_WIDTH);
                s.append("   Hi-Score: ");
                append_padded(&mut s, *high_score, SCORE_WIDTH);
                s
            },
        }
    }
}

/// The one-character string of a decimal digit.
fn digit_str(d: u64) -> (s: &'static str)
    requires
        d < 10,
    ensures
        s@ == seq![digit(d as int)],
{
    proof {
        reveal_strlit("0");
        reveal_strlit("1");
        reveal_strlit("2");
        reveal_strlit("3");
        reveal_strlit("4");
        reveal_strlit("5");
        reveal_strlit("6");
        reveal_strlit("7");
        reveal_strlit("8");
        reveal_strlit("9");
    }
    let s = if d == 0 {
        "0"
    } else if d == 1 {
        "1"
    } else if d == 2 {
        "2"
    } else if d == 3 {
        "3"
    } else if d == 4 {
        "4"
    } else if d == 5 {
        "5"
    } else if d == 6 {
        "6"
    } else if d == 7 {
        "7"
    } else if d == 8 {
        "8"
    } else {
        "9"
    };
    assert(s@ =~= seq![digit(d as int)]);
    s
}

/// Ten to the power `k`.
spec fn tens(k: nat) -> nat
    decreases k,
{
    if k == 0 {
        1
    } else {
        10 * tens((k - 1) as nat)
    }
}

/// A number below ten to the power `k` has at most `k` decimal digits, for `k` from 1 up.
proof fn lemma_decimal_len_bound(n: nat, k: nat)
    requires
        k >= 1,
    ensures
        decimal(n).len() >= 1,
        n < tens(k) ==> decimal(n).len() <= k,
    decreases n,
{
    if n >= 10 {
        if k >= 2 {
            lemma_decimal_len_bound(n / 10, (k - 1) as nat);
        } else {
            lemma_decimal_len_bound(n / 10, 1);
            assert(tens(1) == 10) by {
                reveal_with_fuel(tens, 2);
            }
        }
    }
}

/// A number that fits 64 bits has at most 20 decimal digits.
proof fn lemma_decimal_len(n: nat)
    requires
        n <= u64::MAX,
    ensures
        1 <= decimal(n).len() <= 20,
{
    lemma_decimal_len_bound(n, 20);
    assert(tens(20) == 100_000_000_000_000_000_000nat) by {
        reveal_with_fuel(tens, 21);
    }
}

/// Number of decimal digits of `m`.
fn decimal_len(m: u64) -> (len: usize)
    ensures
        len == decimal(m as nat).len(),
        1 <= len <= 20,
    decreases m,
{
    proof {
        lemma_decimal_len(m as nat);
    }
    if m < 10 {
        1
    } else {
        decimal_len(m / 10) + 1
    }
}

/// Appends the decimal digits of `m`.
fn append_decimal(out: &mut String, m: u64)
    ensures
        final(out)@ == old(out)@ + decimal(m as nat),
    decreases m,
{
    if m >= 10 {
        append_decimal(out, m / 10);
    }
    out.append(digit_str(m % 10));
    assert(final(out)@ =~= old(out)@ + decimal(m as nat)) by {
        if m >= 10 {
            assert(decimal(m as nat) == decimal((m / 10) as nat).push(digit((m % 10) as int)));
        }
    }
}

/// Appends `count` zeros.
fn append_zeros(out: &mut String, count: usize)
    ensures
        final(out)@ == old(out)@ + zeros(count as int),
{
    let mut i: usize = 0;
    while i < count
        invariant
            i <= count,
            out@ == old(out)@ + zeros(i as int),
        decreases count - i,
    {
        proof {
            reveal_strlit("0");
        }
        out.append("0");
        i = i + 1;
        assert(out@ =~= old(out)@ + zeros(i as int));
    }
}

/// Appends `n` in decimal, filled up with zeros to `width` characters.
pub fn append_padded(out: &mut String, n: i64, width: usize)
    ensures
        final(out)@ == old(out)@ + padded(n as int, width as int),
{
    let negative = n < 0;
    let m: u64 = if negative {
        (-(n as i128)) as u64
    } else {
        n as u64
    };
    let len = decimal_len(m);
    let room = if negative {
        if width > 0 {
            width - 1
        } else {
            0
        }
    } else {
        width
    };
    if negative {
        proof {
            reveal_strlit("-");
        }
        out.append("-");
    }
    let ghost head = out@;
    append_zeros(
        out,
        if room > len {
            room - len
        } else {
            0
        },
    );
    append_decimal(out, m);
    proof {
        let fill = zeros(room - len);
        if negative {
            assert(head =~= old(out)@ + seq!['-']);
            assert(zeros(width - 1 - decimal(m as nat).len()) =~= fill);
            assert(out@ =~= old(out)@ + (seq!['-'] + (fill + decimal(m as nat))));
        } else {
            assert(out@ =~= old(out)@ + (fill + decimal(m as nat)));
        }
    }
}

} // verus!
