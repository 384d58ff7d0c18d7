use vstd::prelude::*;
use vstd::string::StringExecFns;

verus! {

/// The digit for a number below 16.
pub open spec fn digit(n: nat) -> char {
    if n < 10 {
        ('0' as u32 + n) as char
    } else {
        ('a' as u32 + (n - 10)) as char
    }
}

/// The digits of a number to some base, at least one.
pub open spec fn digits(n: nat, base: nat) -> Seq<char>
    decreases n,
{
    if n < base || base < 2 {
        seq![digit(n)]
    } else {
        proof {
            assert(n / base < n) by (nonlinear_arith)
                requires
                    n >= base,
                    base >= 2,
            ;
        }
        digits(n / base, base).push(digit(n % base))
    }
}

/// A number in decimal, with a sign if it is negative.
pub open spec fn decimal(n: int) -> Seq<char> {
    if n < 0 {
        seq!['-'] + digits((-n) as nat, 10)
    } else {
        digits(n as nat, 10)
    }
}

/// A number in hexadecimal, marked as such.
pub open spec fn hexadecimal(n: nat) -> Seq<char> {
    "0x"@ + digits(n, 16)
}

/// Appends a digit.
fn append_digit(out: &mut String, n: u64)
    requires
        n < 16,
    ensures
        final(out)@ == old(out)@.push(digit(n as nat)),
{
    let all = "0123456789abcdef";
    proof {
        reveal_strlit("0123456789abcdef");
    }
    assert(all@[n as int] == digit(n as nat));
    assert(all.is_ascii());
    let one = vstd::string::StrSliceExecFns::substring_ascii(all, n as usize, n as usize + 1);
    assert(one@ =~= seq![digit(n as nat)]);
    out.append(one);
    assert(out@ =~= old(out)@.push(digit(n as nat)));
}

/// Appends the digits of a number to some base.
fn append_digits(out: &mut String, n: u64, base: u64)
    requires
        2 <= base <= 16,
    ensures
        final(out)@ == old(out)@ + digits(n as nat, base as nat),
    decreases n,
{
    if n < base {
        append_digit(out, n);
    } else {
        assert(n / base < n && n % base < base) by (nonlinear_arith)
            requires
                n >= base,
                base >= 2,
        ;
        append_digits(out, n / base, base);
        append_digit(out, n % base);
    }
    assert(out@ =~= old(out)@ + digits(n as nat, base as nat));
}

/// Appends a number in decimal, behind some text.
pub(crate) fn append_decimal(out: &mut String, label: &str, n: i64)
    requires
        n > i64::MIN,
    ensures
        final(out)@ == old(out)@ + label@ + decimal(n as int),
{
    out.append(label);
    if n < 0 {
        proof {
            reveal_strlit("-");
        }
        out.append("-");
        append_digits(out, (-n) as u64, 10);
    } else {
        append_digits(out, n as u64, 10);
    }
    assert(out@ =~= old(out)@ + label@ + decimal(n as int));
}

/// Appends a number in hexadecimal, behind some text.
pub(crate) fn append_hexadecimal(out: &mut String, label: &str, n: u64)
    ensures
        final(out)@ == old(out)@ + label@ + hexadecimal(n as nat),
{
    out.append(label);
    out.append("0x");
    append_digits(out, n, 16);
    assert(out@ =~= old(out)@ + label@ + hexadecimal(n as nat));
}

} // verus!
