//! The texts that name where the service listens.

use vstd::prelude::*;
use vstd::string::*;

verus! {

/// The character that stands for a single decimal digit.
pub open spec fn digit_char(d: nat) -> char
    recommends
        d < 10,
{
    if d == 0 {
        '0'
    } else if d == 1 {
        '1'
    } else if d == 2 {
        '2'
    } else if d == 3 {
        '3'
    } else if d == 4 {
        '4'
    } else if d == 5 {
        '5'
    } else if d == 6 {
        '6'
    } else if d == 7 {
        '7'
    } else if d == 8 {
        '8'
    } else {
        '9'
    }
}

/// The decimal numeral of `n`: most significant digit first, no leading zero,
/// and the single digit `0` for zero.
pub open spec fn decimal(n: nat) -> Seq<char>
    decreases n,
{
    if n < 10 {
        seq![digit_char(n)]
    } else {
        decimal(n / 10).push(digit_char(n % 10))
    }
}

/// The number that a sequence of decimal digits denotes.
pub open spec fn digits_value(s: Seq<char>) -> nat
    decreases s.len(),
{
    if s.len() == 0 {
        0
    } else {
        digits_value(s.drop_last()) * 10 + digit_value(s.last())
    }
}

/// The value of one decimal digit; zero for any other character.
pub open spec fn digit_value(c: char) -> nat {
    if c == '1' {
        1
    } else if c == '2' {
        2
    } else if c == '3' {
        3
    } else if c == '4' {
        4
    } else if c == '5' {
        5
    } else if c == '6' {
        6
    } else if c == '7' {
        7
    } else if c == '8' {
        8
    } else if c == '9' {
        9
    } else {
        0
    }
}

/// The address the listener binds for `port`: every interface, then the port.
pub open spec fn spec_listen_address(port: nat) -> Seq<char> {
    "0.0.0.0:"@ + decimal(port)
}

/// The URL under which the interactive query page is reached.
pub open spec fn spec_ide_url(port: nat) -> Seq<char> {
    "http://"@ + spec_listen_address(port)
}

/// The line that announces a successful startup.
pub open spec fn spec_startup_banner(port: nat) -> Seq<char> {
    "GraphiQL IDE: "@ + spec_ide_url(port)
}

/// A numeral reads back as the number it was written for.
pub proof fn lemma_decimal_reads_back(n: nat)
    ensures
        digits_value(decimal(n)) == n,
        decimal(n).len() >= 1,
    decreases n,
{
    if n < 10 {
        let rest = decimal(n).drop_last();
        assert(rest =~= Seq::<char>::empty());
        assert(digits_value(rest) == 0);
    } else {
        lemma_decimal_reads_back(n / 10);
        assert(decimal(n).drop_last() =~= decimal(n / 10));
    }
}

/// Different numbers have different numerals, so different ports have
/// different listen addresses.
pub proof fn lemma_decimal_injective(a: nat, b: nat)
    requires
        decimal(a) == decimal(b),
    ensures
        a == b,
{
    lemma_decimal_reads_back(a);
    lemma_decimal_reads_back(b);
}

fn digit_str(d: usize) -> (s: &'static str)
    requires
        d < 10,
    ensures
        s@ == seq![digit_char(d as nat)],
{
    proof {
        reveal_strlit("0");
        reveal_strlit("1");
        reveal_strlit("2");
        reveal_strlit("3");
        reveal_strlit("4");
        reveal_strlit("5");
        reveal_strlit("6");
        reveal_strlit("7");
        reveal_strlit("8");
        reveal_strlit("9");
    }
    let s = if d == 0 {
        "0"
    } else if d == 1 {
        "1"
    } else if d == 2 {
        "2"
    } else if d == 3 {
        "3"
    } else if d == 4 {
        "4"
    } else if d == 5 {
        "5"
    } else if d == 6 {
        "6"
    } else if d == 7 {
        "7"
    } else if d == 8 {
        "8"
    } else {
        "9"
    };
    assert(s@ =~= seq![digit_char(d as nat)]);
    s
}

/// Writes `n` as a decimal numeral.
pub fn decimal_string(n: usize) -> (s: String)
    ensures
        s@ == decimal(n as nat),
    decreases n,
{
    if n < 10 {
        String::from_str(digit_str(n))
    } else {
        let mut s = decimal_string(n / 10);
        s.append(digit_str(n % 10));
        s
    }
}

/// The address to bind the listener to: all interfaces, on `port`.
pub fn listen_address(port: usize) -> (addr: String)
    ensures
        addr@ == spec_listen_address(port as nat),
{
    let mut addr = String::from_str("0.0.0.0:");
    let digits = decimal_string(port);
    addr.append(digits.as_str());
    addr
}

/// The URL of the interactive query page of a service that listens on `port`.
pub fn ide_url(port: usize) -> (url: String)
    ensures
        url@ == spec_ide_url(port as nat),
{
    let mut url = String::from_str("http://");
    let addr = listen_address(port);
    url.append(addr.as_str());
    url
}

/// The single line printed once the listener is bound.
pub fn startup_banner(port: usize) -> (line: String)
    ensures
        line@ == spec_startup_banner(port as nat),
{
    let mut line = String::from_str("GraphiQL IDE: ");
    let url = ide_url(port);
    line.append(url.as_str());
    line
}

} // verus!
