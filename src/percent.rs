use vstd::prelude::*;
use vstd::string::StringExecFns;

verus! {

/// Percentage of `progress` out of `total`, rounded down; a zero total
/// counts as complete.
pub open spec fn percentage_of(progress: u32, total: u32) -> u32 {
    if total == 0 {
        100
    } else {
        ((progress as int * 100) / (total as int)) as u32
    }
}

/// Percentage of `progress` out of `total`, rounded down; a zero total
/// counts as complete.
pub fn percentage(progress: u32, total: u32) -> (r: u32)
    requires
        progress <= total,
    ensures
        r == percentage_of(progress, total),
        r <= 100,
{
    if total == 0 {
        100
    } else {
        let p = progress as u64 * 100;
        assert(p <= total as u64 * 100) by (nonlinear_arith)
            requires
                p == progress as u64 * 100,
                progress <= total,
        ;
        let q = p / (total as u64);
        assert(q <= 100) by (nonlinear_arith)
            requires
                q == p / (total as u64),
                p <= total as u64 * 100,
                total > 0,
        ;
        q as u32
    }
}

/// The character of a decimal digit.
pub open spec fn digit_char(d: nat) -> char {
    seq!['0', '1', '2', '3', '4', '5', '6', '7', '8', '9'][d as int]
}

/// `n` written in decimal, without leading zeros.
pub open spec fn decimal(n: nat) -> Seq<char>
    decreases n,
{
    if n < 10 {
        seq![digit_char(n)]
    } else {
        decimal(n / 10).push(digit_char(n % 10))
    }
}

/// Appends the digit `d` to `s`.
fn push_digit(s: &mut String, d: u32)
    requires
        d < 10,
    ensures
        final(s)@ == old(s)@.push(digit_char(d as nat)),
{
    proof {
        reveal_strlit("0");
        reveal_strlit("1");
        reveal_strlit("2");
        reveal_strlit("3");
        reveal_strlit("4");
        reveal_strlit("5");
        reveal_strlit("6");
        reveal_strlit("7");
        reveal_strlit("8");
        reveal_strlit("9");
    }
    let t = match d {
        0 => "0",
        1 => "1",
        2 => "2",
        3 => "3",
        4 => "4",
        5 => "5",
        6 => "6",
        7 => "7",
        8 => "8",
        _ => "9",
    };
    s.append(t);
    assert(final(s)@ =~= old(s)@.push(digit_char(d as nat)));
}

/// Appends `n` in decimal to `s`.
fn push_decimal(s: &mut String, n: u32)
    ensures
        final(s)@ == old(s)@ + decimal(n as nat),
    decreases n,
{
    if n >= 10 {
        push_decimal(s, n / 10);
    }
    push_digit(s, n % 10);
    assert(final(s)@ =~= old(s)@ + decimal(n as nat));
}

/// A percentage as text, such as `42%`.
pub fn percent_text(p: u32) -> (r: String)
    ensures
        r@ == decimal(p as nat) + seq!['%'],
{
    let mut s = String::new();
    push_decimal(&mut s, p);
    proof {
        reveal_strlit("%");
    }
    s.append("%");
    assert(s@ =~= decimal(p as nat) + seq!['%']);
    s
}

} // verus!
