//! The address the HTTP server listens on.
use vstd::prelude::*;
use vstd::string::StringExecFns;

verus! {

/// The character that writes the decimal digit `d`.
pub open spec fn digit_char(d: nat) -> char {
    (d + 48) as char
}

/// `n` written in decimal, without leading zeros.
pub open spec fn decimal(n: nat) -> Seq<char>
    decreases n,
{
    if n < 10 {
        seq![digit_char(n)]
    } else {
        decimal(n / 10).push(digit_char(n % 10))
    }
}

/// The listening address for a port: every IPv4 interface, then the port.
pub open spec fn spec_listen_address(port: u16) -> Seq<char> {
    "0.0.0.0:"@ + decimal(port as nat)
}

fn digit_text(d: u16) -> (s: &'static str)
    requires
        d < 10,
    ensures
        s@ == seq![digit_char(d as nat)],
{
    proof {
        reveal_strlit("0");
        reveal_strlit("1");
        reveal_strlit("2");
        reveal_strlit("3");
        reveal_strlit("4");
        reveal_strlit("5");
        reveal_strlit("6");
        reveal_strlit("7");
        reveal_strlit("8");
        reveal_strlit("9");
    }
    let s = match d {
        0 => "0",
        1 => "1",
        2 => "2",
        3 => "3",
        4 => "4",
        5 => "5",
        6 => "6",
        7 => "7",
        8 => "8",
        _ => "9",
    };
    assert(s@ =~= seq![digit_char(d as nat)]);
    s
}

fn push_decimal(out: &mut String, n: u16)
    ensures
        final(out)@ == old(out)@ + decimal(n as nat),
    decreases n,
{
    if n >= 10 {
        push_decimal(out, n / 10);
    }
    out.append(digit_text(n % 10));
    assert(out@ =~= old(out)@ + decimal(n as nat));
}

/// The address that the server binds: `0.0.0.0:` followed by the port in decimal.
pub fn listen_address(port: u16) -> (address: String)
    ensures
        address@ == spec_listen_address(port),
{
    let mut address = "0.0.0.0:".to_string();
    push_decimal(&mut address, port);
    address
}

/// The number that a string of decimal digits writes.
pub open spec fn decimal_value(digits: Seq<char>) -> int
    decreases digits.len(),
{
    if digits.len() == 0 {
        0
    } else {
        decimal_value(digits.drop_last()) * 10 + (digits.last() as int - 48)
    }
}

/// Whether `c` is one of the characters `0` to `9`.
pub open spec fn is_digit(c: char) -> bool {
    48 <= c as int <= 57
}

/// A number written in decimal is a non-empty string of digits, with no
/// leading zero unless it is zero itself, and reads back as the number.
pub proof fn lemma_decimal_reads_back(n: nat)
    ensures
        decimal(n).len() > 0,
        forall|i: int| 0 <= i < decimal(n).len() ==> is_digit(#[trigger] decimal(n)[i]),
        decimal(n)[0] == '0' ==> n == 0,
        decimal_value(decimal(n)) == n,
    decreases n,
{
    let d = decimal(n);
    assert(digit_char(n % 10) as int == n % 10 + 48);
    if n >= 10 {
        lemma_decimal_reads_back(n / 10);
        assert(d.drop_last() =~= decimal(n / 10));
        assert(d[0] == decimal(n / 10)[0]);
        assert(d.last() == digit_char(n % 10));
    } else {
        assert(d.drop_last() =~= Seq::<char>::empty());
        assert(decimal_value(d.drop_last()) == 0);
    }
    assert(decimal_value(d) == decimal_value(d.drop_last()) * 10 + (d.last() as int - 48));
}

/// The listening address is `0.0.0.0:` followed by digits that read back as
/// the port.
pub proof fn lemma_listen_address_reads_back(port: u16)
    ensures
        spec_listen_address(port).subrange(0, 8) == "0.0.0.0:"@,
        decimal_value(spec_listen_address(port).subrange(8, spec_listen_address(port).len() as int))
            == port,
{
    reveal_strlit("0.0.0.0:");
    lemma_decimal_reads_back(port as nat);
    let a = spec_listen_address(port);
    assert(a.subrange(0, 8) =~= "0.0.0.0:"@);
    assert(a.subrange(8, a.len() as int) =~= decimal(port as nat));
}

} // verus!
