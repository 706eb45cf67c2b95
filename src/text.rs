//! Small string builders over `String` views: decimal rendering and joining.

use vstd::prelude::*;
use vstd::string::*;

verus! {

/// The character of a decimal digit.
pub open spec fn digit_char(d: int) -> char {
    if d == 0 { '0' }
    else if d == 1 { '1' }
    else if d == 2 { '2' }
    else if d == 3 { '3' }
    else if d == 4 { '4' }
    else if d == 5 { '5' }
    else if d == 6 { '6' }
    else if d == 7 { '7' }
    else if d == 8 { '8' }
    else { '9' }
}

/// Decimal digits of a natural number, most significant first, no leading zeros.
pub open spec fn nat_text(n: nat) -> Seq<char>
    decreases n,
{
    if n < 10 {
        seq![digit_char(n as int)]
    } else {
        nat_text(n / 10) + seq![digit_char((n % 10) as int)]
    }
}

/// Decimal rendering of an integer, with a leading `-` when negative.
pub open spec fn int_text(n: int) -> Seq<char> {
    if n < 0 {
        seq!['-'] + nat_text((-n) as nat)
    } else {
        nat_text(n as nat)
    }
}

fn digit_str(d: u64) -> (r: &'static str)
    requires
        d < 10,
    ensures
        r@ == seq![digit_char(d as int)],
{
    if d == 0 {
        let r = "0";
        proof { reveal_strlit("0"); assert(r@ =~= seq!['0']); }
        r
    } else if d == 1 {
        let r = "1";
        proof { reveal_strlit("1"); assert(r@ =~= seq!['1']); }
        r
    } else if d == 2 {
        let r = "2";
        proof { reveal_strlit("2"); assert(r@ =~= seq!['2']); }
        r
    } else if d == 3 {
        let r = "3";
        proof { reveal_strlit("3"); assert(r@ =~= seq!['3']); }
        r
    } else if d == 4 {
        let r = "4";
        proof { reveal_strlit("4"); assert(r@ =~= seq!['4']); }
        r
    } else if d == 5 {
        let r = "5";
        proof { reveal_strlit("5"); assert(r@ =~= seq!['5']); }
        r
    } else if d == 6 {
        let r = "6";
        proof { reveal_strlit("6"); assert(r@ =~= seq!['6']); }
        r
    } else if d == 7 {
        let r = "7";
        proof { reveal_strlit("7"); assert(r@ =~= seq!['7']); }
        r
    } else if d == 8 {
        let r = "8";
        proof { reveal_strlit("8"); assert(r@ =~= seq!['8']); }
        r
    } else {
        let r = "9";
        proof { reveal_strlit("9"); assert(r@ =~= seq!['9']); }
        r
    }
}

/// Renders a natural number in decimal.
pub fn nat_to_text(n: u64) -> (r: String)
    ensures
        r@ == nat_text(n as nat),
    decreases n,
{
    if n < 10 {
        String::from_str(digit_str(n))
    } else {
        let mut s = nat_to_text(n / 10);
        s.append(digit_str(n % 10));
        s
    }
}

/// Renders a signed integer in decimal.
pub fn int_to_text(n: i64) -> (r: String)
    ensures
        r@ == int_text(n as int),
{
    if n < 0 {
        let magnitude: u64 = (-(n as i128)) as u64;
        let minus = "-";
        proof { reveal_strlit("-"); assert(minus@ =~= seq!['-']); }
        let digits = nat_to_text(magnitude);
        let mut s = String::from_str(minus);
        s.append(digits.as_str());
        s
    } else {
        nat_to_text(n as u64)
    }
}

/// The concatenation of two strings.
pub fn join2(a: &str, b: &str) -> (r: String)
    ensures
        r@ == a@ + b@,
{
    let mut s = String::from_str(a);
    s.append(b);
    s
}

/// The concatenation of three strings.
pub fn join3(a: &str, b: &str, c: &str) -> (r: String)
    ensures
        r@ == a@ + b@ + c@,
{
    let mut s = String::from_str(a);
    s.append(b);
    s.append(c);
    s
}

/// Whether two strings hold the same characters.
pub fn same_text(a: &str, b: &str) -> (r: bool)
    ensures
        r == (a@ == b@),
{
    let n = a.unicode_len();
    if n != b.unicode_len() {
        return false;
    }
    let mut i: usize = 0;
    while i < n
        invariant
            n == a@.len(),
            n == b@.len(),
            i <= n,
            forall|k: int| 0 <= k < i ==> a@[k] == b@[k],
        decreases n - i,
    {
        if a.get_char(i) != b.get_char(i) {
            return false;
        }
        i = i + 1;
    }
    assert(a@ =~= b@);
    true
}

} // verus!
