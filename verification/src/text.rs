//! Texts: comparing them, and writing a number in decimal.

use vstd::prelude::*;
use vstd::string::{StringExecFns, StringSliceAdditionalSpecFns};
use vstd::utf8::encode_utf8_decode_utf8;

verus! {

/// Whether two strings hold the same characters.
pub fn same_text(a: &str, b: &str) -> (same: bool)
    ensures
        same == (a@ == b@),
{
    let x = a.as_bytes();
    let y = b.as_bytes();
    if x.len() != y.len() {
        return false;
    }
    let mut i: usize = 0;
    while i < x.len()
        invariant
            i <= x.len(),
            x.len() == y.len(),
            x@ == a.spec_bytes(),
            y@ == b.spec_bytes(),
            forall|j: int| 0 <= j < i ==> x@[j] == y@[j],
        decreases x.len() - i,
    {
        if x[i] != y[i] {
            return false;
        }
        i = i + 1;
    }
    proof {
        assert(x@ =~= y@);
        encode_utf8_decode_utf8(a@);
        encode_utf8_decode_utf8(b@);
    }
    true
}

/// The text of a decimal digit.
pub open spec fn spec_digit(d: int) -> Seq<char> {
    if d == 0 {
        "0"@
    } else if d == 1 {
        "1"@
    } else if d == 2 {
        "2"@
    } else if d == 3 {
        "3"@
    } else if d == 4 {
        "4"@
    } else if d == 5 {
        "5"@
    } else if d == 6 {
        "6"@
    } else if d == 7 {
        "7"@
    } else if d == 8 {
        "8"@
    } else {
        "9"@
    }
}

/// A number written in decimal, without leading zeros.
pub open spec fn spec_decimal(n: nat) -> Seq<char>
    decreases n,
{
    if n < 10 {
        spec_digit(n as int)
    } else {
        spec_decimal(n / 10) + spec_digit((n % 10) as int)
    }
}

fn digit(d: u8) -> (text: &'static str)
    requires
        d < 10,
    ensures
        text@ == spec_digit(d as int),
{
    if d == 0 {
        "0"
    } else if d == 1 {
        "1"
    } else if d == 2 {
        "2"
    } else if d == 3 {
        "3"
    } else if d == 4 {
        "4"
    } else if d == 5 {
        "5"
    } else if d == 6 {
        "6"
    } else if d == 7 {
        "7"
    } else if d == 8 {
        "8"
    } else {
        "9"
    }
}

/// Writes `n` in decimal behind `text`.
pub fn append_decimal(text: &mut String, n: u8)
    ensures
        final(text)@ == old(text)@ + spec_decimal(n as nat),
{
    let ghost before = text@;
    if n >= 100 {
        text.append(digit(n / 100));
        text.append(digit((n / 10) % 10));
        text.append(digit(n % 10));
        proof {
            let hundreds = spec_digit((n / 100) as int);
            let tens = spec_digit(((n / 10) % 10) as int);
            let units = spec_digit((n % 10) as int);
            assert(spec_decimal((n as nat) / 10) == spec_decimal((n as nat) / 10 / 10) + tens);
            assert((n as nat) / 10 / 10 == (n / 100) as nat);
            assert(spec_decimal((n as nat) / 10 / 10) == hundreds);
            assert(spec_decimal(n as nat) == hundreds + tens + units);
            assert(before + hundreds + tens + units =~= before + (hundreds + tens + units));
        }
    } else if n >= 10 {
        text.append(digit(n / 10));
        text.append(digit(n % 10));
        proof {
            let tens = spec_digit((n / 10) as int);
            let units = spec_digit((n % 10) as int);
            assert(spec_decimal((n as nat) / 10) == tens);
            assert(before + tens + units =~= before + (tens + units));
        }
    } else {
        text.append(digit(n));
    }
}

} // verus!
