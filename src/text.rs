use vstd::prelude::*;
use vstd::string::*;

verus! {

/// The decimal digit `d` as a character.
pub open spec fn digit_char(d: nat) -> char {
    if d == 0 {
        '0'
    } else if d == 1 {
        '1'
    } else if d == 2 {
        '2'
    } else if d == 3 {
        '3'
    } else if d == 4 {
        '4'
    } else if d == 5 {
        '5'
    } else if d == 6 {
        '6'
    } else if d == 7 {
        '7'
    } else if d == 8 {
        '8'
    } else {
        '9'
    }
}

/// `n` written in decimal, without leading zeros.
pub open spec fn decimal_chars(n: nat) -> Seq<char>
    decreases n,
{
    if n < 10 {
        seq![digit_char(n)]
    } else {
        decimal_chars(n / 10).push(digit_char(n % 10))
    }
}

/// A confidence of `p` hundredths written as the shortest decimal fraction:
/// `0.87`, `0.5`, `0`, `1`.
pub open spec fn confidence_chars(p: nat) -> Seq<char> {
    if p >= 100 {
        seq!['1']
    } else if p == 0 {
        seq!['0']
    } else if p % 10 == 0 {
        seq!['0', '.', digit_char(p / 10)]
    } else {
        seq!['0', '.', digit_char(p / 10), digit_char(p % 10)]
    }
}

fn digit_str(d: u64) -> (r: &'static str)
    requires
        d < 10,
    ensures
        r@ == seq![digit_char(d as nat)],
{
    proof {
        reveal_strlit("0");
        reveal_strlit("1");
        reveal_strlit("2");
        reveal_strlit("3");
        reveal_strlit("4");
        reveal_strlit("5");
        reveal_strlit("6");
        reveal_strlit("7");
        reveal_strlit("8");
        reveal_strlit("9");
    }
    let r = match d {
        0 => "0",
        1 => "1",
        2 => "2",
        3 => "3",
        4 => "4",
        5 => "5",
        6 => "6",
        7 => "7",
        8 => "8",
        _ => "9",
    };
    assert(r@ =~= seq![digit_char(d as nat)]);
    r
}

/// Writes `n` in decimal.
pub fn decimal_string(n: u64) -> (r: String)
    ensures
        r@ == decimal_chars(n as nat),
    decreases n,
{
    if n < 10 {
        String::from_str(digit_str(n))
    } else {
        let mut s = decimal_string(n / 10);
        s.append(digit_str(n % 10));
        s
    }
}

/// Writes a confidence given in hundredths as a decimal fraction.
pub fn confidence_string(p: u32) -> (r: String)
    requires
        p <= 100,
    ensures
        r@ == confidence_chars(p as nat),
{
    proof {
        reveal_strlit("1");
        reveal_strlit("0");
        reveal_strlit("0.");
    }
    if p == 100 {
        String::from_str("1")
    } else if p == 0 {
        String::from_str("0")
    } else {
        let mut s = String::from_str("0.");
        s.append(digit_str((p / 10) as u64));
        if p % 10 != 0 {
            s.append(digit_str((p % 10) as u64));
        }
        assert(s@ =~= confidence_chars(p as nat));
        s
    }
}

} // verus!
