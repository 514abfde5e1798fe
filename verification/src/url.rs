use vstd::prelude::*;
use vstd::string::StringExecFns;

verus! {

/// The character that writes the digit `d`.
pub open spec fn digit_char(d: nat) -> char
    recommends
        d < 10,
{
    seq!['0', '1', '2', '3', '4', '5', '6', '7', '8', '9'][d as int]
}

/// `n` written in base ten, most significant digit first, without
/// leading zeros.
pub open spec fn decimal(n: nat) -> Seq<char>
    decreases n,
{
    if n < 10 {
        seq![digit_char(n)]
    } else {
        decimal(n / 10).push(digit_char(n % 10))
    }
}

/// The number that a string of digits writes in base ten; a character
/// that is no digit counts as zero.
pub open spec fn decimal_value(s: Seq<char>) -> nat
    decreases s.len(),
{
    if s.len() == 0 {
        0
    } else {
        10 * decimal_value(s.drop_last()) + digit_value(s.last())
    }
}

/// The digit that `c` writes, zero where it writes none.
pub open spec fn digit_value(c: char) -> nat {
    if exists|d: nat| d < 10 && digit_char(d) == c {
        choose|d: nat| d < 10 && digit_char(d) == c
    } else {
        0
    }
}

/// The address at which a client reaches `port` on `host` over plain HTTP.
pub open spec fn http_url(host: Seq<char>, port: nat) -> Seq<char> {
    "http://"@ + host + ":"@ + decimal(port)
}

/// Reading back what `decimal` wrote gives the number again, and what it
/// wrote starts with a zero only for zero itself.
pub proof fn lemma_decimal_reads_back(n: nat)
    ensures
        decimal_value(decimal(n)) == n,
        decimal(n).len() >= 1,
        decimal(n)[0] == '0' <==> n == 0,
    decreases n,
{
    lemma_digit_value(n % 10);
    if n < 10 {
        assert(decimal(n).drop_last() =~= Seq::<char>::empty());
        assert(decimal_value(Seq::<char>::empty()) == 0);
    } else {
        lemma_decimal_reads_back(n / 10);
        assert(decimal(n).drop_last() =~= decimal(n / 10));
        assert(decimal(n)[0] == decimal(n / 10)[0]);
    }
}

proof fn lemma_digit_value(d: nat)
    requires
        d < 10,
    ensures
        digit_value(digit_char(d)) == d,
{
    let c = digit_char(d);
    let e = choose|e: nat| e < 10 && digit_char(e) == c;
    assert(e < 10 && digit_char(e) == c);
}

/// The one-character string that writes the digit `d`.
fn digit_str(d: u16) -> (s: &'static str)
    requires
        d < 10,
    ensures
        s@ == seq![digit_char(d as nat)],
{
    proof {
        reveal_strlit("0");
        reveal_strlit("1");
        reveal_strlit("2");
        reveal_strlit("3");
        reveal_strlit("4");
        reveal_strlit("5");
        reveal_strlit("6");
        reveal_strlit("7");
        reveal_strlit("8");
        reveal_strlit("9");
    }
    let s = if d == 0 {
        "0"
    } else if d == 1 {
        "1"
    } else if d == 2 {
        "2"
    } else if d == 3 {
        "3"
    } else if d == 4 {
        "4"
    } else if d == 5 {
        "5"
    } else if d == 6 {
        "6"
    } else if d == 7 {
        "7"
    } else if d == 8 {
        "8"
    } else {
        "9"
    };
    assert(s@ =~= seq![digit_char(d as nat)]);
    s
}

/// Writes a port number in base ten.
pub fn port_digits(port: u16) -> (s: String)
    ensures
        s@ == decimal(port as nat),
    decreases port,
{
    if port < 10 {
        String::from_str(digit_str(port))
    } else {
        let mut s = port_digits(port / 10);
        s.append(digit_str(port % 10));
        assert(s@ =~= decimal(port as nat));
        s
    }
}

/// Builds the address at which a client reaches `port` on `host`.
pub fn client_url(host: &str, port: u16) -> (url: String)
    ensures
        url@ == http_url(host@, port as nat),
{
    let mut url = String::from_str("http://");
    url.append(host);
    url.append(":");
    let digits = port_digits(port);
    url.append(digits.as_str());
    url
}

} // verus!
