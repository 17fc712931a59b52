//! Decimal numbers, padding and clock formatting on strings.
use vstd::prelude::*;
use vstd::string::*;

verus! {

/// The character of a single decimal digit.
pub open spec fn digit_char(d: nat) -> char {
    if d == 0 {
        '0'
    } else if d == 1 {
        '1'
    } else if d == 2 {
        '2'
    } else if d == 3 {
        '3'
    } else if d == 4 {
        '4'
    } else if d == 5 {
        '5'
    } else if d == 6 {
        '6'
    } else if d == 7 {
        '7'
    } else if d == 8 {
        '8'
    } else {
        '9'
    }
}

/// The decimal rendering of `n`, without leading zeros ("0" for zero).
pub open spec fn decimal(n: nat) -> Seq<char>
    decreases n,
{
    if n < 10 {
        seq![digit_char(n)]
    } else {
        decimal(n / 10).push(digit_char(n % 10))
    }
}

/// `n` rendered with at least two digits, zero-padded.
pub open spec fn two_digits(n: nat) -> Seq<char> {
    if n < 10 {
        seq!['0'].add(decimal(n))
    } else {
        decimal(n)
    }
}

/// `n` right-aligned in a field of width three, padded with spaces.
pub open spec fn right_aligned3(n: nat) -> Seq<char> {
    if n < 10 {
        seq![' ', ' '].add(decimal(n))
    } else if n < 100 {
        seq![' '].add(decimal(n))
    } else {
        decimal(n)
    }
}

/// Clock form of a duration in whole seconds: `h:mm:ss` when at least one
/// hour is reached, `m:ss` otherwise.
pub open spec fn clock_text(total: nat) -> Seq<char> {
    let h = total / 3600;
    let m = (total / 60) % 60;
    let s = total % 60;
    if h > 0 {
        decimal(h) + seq![':'] + two_digits(m) + seq![':'] + two_digits(s)
    } else {
        decimal(m) + seq![':'] + two_digits(s)
    }
}

fn digit_text(d: u64) -> (r: &'static str)
    requires
        d < 10,
    ensures
        r@ == seq![digit_char(d as nat)],
{
    proof {
        reveal_strlit("0");
        reveal_strlit("1");
        reveal_strlit("2");
        reveal_strlit("3");
        reveal_strlit("4");
        reveal_strlit("5");
        reveal_strlit("6");
        reveal_strlit("7");
        reveal_strlit("8");
        reveal_strlit("9");
    }
    if d == 0 {
        "0"
    } else if d == 1 {
        "1"
    } else if d == 2 {
        "2"
    } else if d == 3 {
        "3"
    } else if d == 4 {
        "4"
    } else if d == 5 {
        "5"
    } else if d == 6 {
        "6"
    } else if d == 7 {
        "7"
    } else if d == 8 {
        "8"
    } else {
        "9"
    }
}

/// Decimal rendering of `n`.
pub fn decimal_string(n: u64) -> (r: String)
    ensures
        r@ == decimal(n as nat),
    decreases n,
{
    if n < 10 {
        String::from_str(digit_text(n))
    } else {
        let mut r = decimal_string(n / 10);
        r.append(digit_text(n % 10));
        r
    }
}

/// `n` with at least two digits, zero-padded.
pub fn two_digit_string(n: u64) -> (r: String)
    ensures
        r@ == two_digits(n as nat),
{
    if n < 10 {
        proof {
            reveal_strlit("0");
        }
        let mut r = String::from_str("0");
        r.append(digit_text(n));
        r
    } else {
        decimal_string(n)
    }
}

/// `n` right-aligned in a field of width three.
pub fn right_aligned3_string(n: u64) -> (r: String)
    ensures
        r@ == right_aligned3(n as nat),
{
    proof {
        reveal_strlit("  ");
        reveal_strlit(" ");
    }
    if n < 10 {
        let mut r = String::from_str("  ");
        r.append(digit_text(n));
        r
    } else if n < 100 {
        let mut r = String::from_str(" ");
        let d = decimal_string(n);
        r.append(d.as_str());
        r
    } else {
        decimal_string(n)
    }
}

/// Renders a duration given in whole seconds as a clock: `h:mm:ss` when
/// it reaches an hour, `m:ss` otherwise.
pub fn duration_clock_format(total_sec: u64) -> (r: String)
    ensures
        r@ == clock_text(total_sec as nat),
{
    let h = total_sec / 3600;
    let m = total_sec / 60 % 60;
    let s = total_sec % 60;
    proof {
        reveal_strlit(":");
        assert(h as nat == total_sec as nat / 3600);
    }
    let mut r;
    if h > 0 {
        r = decimal_string(h);
        r.append(":");
        r.append(two_digit_string(m).as_str());
    } else {
        r = decimal_string(m);
    }
    r.append(":");
    r.append(two_digit_string(s).as_str());
    r
}

} // verus!

verus! {

/// A copy of `s`.
pub fn copy_string(s: &String) -> (r: String)
    ensures
        r@ == s@,
{
    s.clone()
}

/// A copy of a list of strings, in order.
pub fn copy_strings(v: &Vec<String>) -> (r: Vec<String>)
    ensures
        r.deep_view() == v.deep_view(),
{
    let mut r: Vec<String> = Vec::new();
    let mut i: usize = 0;
    while i < v.len()
        invariant
            i <= v.len(),
            r.deep_view() =~= v.deep_view().subrange(0, i as int),
        decreases v.len() - i,
    {
        let ghost prev = r.deep_view();
        r.push(v[i].clone());
        proof {
            assert(r.deep_view() =~= prev.push(v.deep_view()[i as int]));
            assert(v.deep_view().subrange(0, i + 1) =~= v.deep_view().subrange(0, i as int).push(
                v.deep_view()[i as int],
            ));
        }
        i += 1;
    }
    assert(r.deep_view() =~= v.deep_view());
    r
}

} // verus!

verus! {

/// Appends one line to a list of lines.
pub fn push_line(lines: &mut Vec<String>, line: String)
    ensures
        final(lines).deep_view() == old(lines).deep_view().push(line@),
{
    lines.push(line);
    assert(final(lines).deep_view() =~= old(lines).deep_view().push(line@));
}

} // verus!
