use vstd::prelude::*;

verus! {

/// The characters of one decimal digit.
pub open spec fn digit_text(d: nat) -> Seq<char>
    recommends
        d < 10,
{
    "0123456789"@.subrange(d as int, d as int + 1)
}

/// The decimal representation of `n`, without leading zeros.
pub open spec fn decimal_text(n: nat) -> Seq<char>
    decreases n,
{
    if n < 10 {
        digit_text(n)
    } else {
        decimal_text(n / 10) + digit_text(n % 10)
    }
}

/// A hundredths value written with two decimals: `50` is `0.50`, `1234` is `12.34`.
pub open spec fn hundredths_text(n: nat) -> Seq<char> {
    decimal_text(n / 100) + "."@ + digit_text((n / 10) % 10) + digit_text(n % 10)
}

fn digit_str(d: u64) -> (r: &'static str)
    requires
        d < 10,
    ensures
        r@ == digit_text(d as nat),
{
    proof {
        reveal_strlit("0123456789");
    }
    "0123456789".substring_char(d as usize, d as usize + 1)
}

pub fn decimal_string(n: u64) -> (r: String)
    ensures
        r@ == decimal_text(n as nat),
    decreases n,
{
    if n < 10 {
        digit_str(n).to_owned()
    } else {
        let mut s = decimal_string(n / 10);
        s.append(digit_str(n % 10));
        s
    }
}

pub fn hundredths_string(n: u64) -> (r: String)
    ensures
        r@ == hundredths_text(n as nat),
{
    let mut s = decimal_string(n / 100);
    s.append(".");
    s.append(digit_str((n / 10) % 10));
    s.append(digit_str(n % 10));
    s
}

} // verus!
