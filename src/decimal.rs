use vstd::prelude::*;

verus! {

/// The character of a decimal digit.
pub open spec fn digit_char(d: nat) -> char {
    if d == 0 { '0' }
    else if d == 1 { '1' }
    else if d == 2 { '2' }
    else if d == 3 { '3' }
    else if d == 4 { '4' }
    else if d == 5 { '5' }
    else if d == 6 { '6' }
    else if d == 7 { '7' }
    else if d == 8 { '8' }
    else { '9' }
}

/// The decimal digits of a natural number, most significant first, without
/// leading zeros (zero is the single digit `0`).
pub open spec fn digits(n: nat) -> Seq<char>
    decreases n,
{
    if n < 10 {
        seq![digit_char(n)]
    } else {
        digits(n / 10).push(digit_char(n % 10))
    }
}

/// The decimal text of an integer: its digits, after a minus sign when it is negative.
pub open spec fn decimal(n: int) -> Seq<char> {
    if n < 0 {
        seq!['-'] + digits((-n) as nat)
    } else {
        digits(n as nat)
    }
}

/// The one-character text of a decimal digit.
fn digit_text(d: u32) -> (r: &'static str)
    requires
        d < 10,
    ensures
        r@ == seq![digit_char(d as nat)],
{
    proof {
        reveal_strlit("0");
        reveal_strlit("1");
        reveal_strlit("2");
        reveal_strlit("3");
        reveal_strlit("4");
        reveal_strlit("5");
        reveal_strlit("6");
        reveal_strlit("7");
        reveal_strlit("8");
        reveal_strlit("9");
    }
    let r = if d == 0 { "0" }
    else if d == 1 { "1" }
    else if d == 2 { "2" }
    else if d == 3 { "3" }
    else if d == 4 { "4" }
    else if d == 5 { "5" }
    else if d == 6 { "6" }
    else if d == 7 { "7" }
    else if d == 8 { "8" }
    else { "9" };
    assert(r@ =~= seq![digit_char(d as nat)]);
    r
}

/// The decimal text of `n`, as `format!("{}", n)` writes it.
pub fn decimal_text(n: i32) -> (r: String)
    ensures
        r@ == decimal(n as int),
{
    let mut m: u32 = if n < 0 { (0i64 - n as i64) as u32 } else { n as u32 };
    let ghost whole: nat = m as nat;
    let mut s = String::new();
    while m >= 10
        invariant
            digits(whole) == digits(m as nat) + s@,
        decreases m,
    {
        let d = m % 10;
        let ghost before = s@;
        s = String::from_str(digit_text(d)).concat(s.as_str());
        assert(digits(m as nat) == digits((m / 10) as nat).push(digit_char(d as nat)));
        assert(digits(m as nat) + before =~= digits((m / 10) as nat) + s@);
        m = m / 10;
    }
    let ghost before = s@;
    s = String::from_str(digit_text(m)).concat(s.as_str());
    assert(digits(whole) =~= s@);
    if n < 0 {
        proof {
            reveal_strlit("-");
        }
        let r = String::from_str("-").concat(s.as_str());
        assert(r@ =~= decimal(n as int));
        r
    } else {
        s
    }
}

} // verus!
