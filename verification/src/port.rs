//! Choosing the server's listening port from the first command-line argument:
//! a string of decimal digits naming a port is taken as given, anything absent
//! or unparseable falls back to the default port.

use vstd::prelude::*;

verus! {

/// The port used when no argument names one.
pub const DEFAULT_PORT: u16 = 4321;

/// A decimal digit.
pub open spec fn is_digit(c: char) -> bool {
    '0' <= c <= '9'
}

/// Every character of `s` is a decimal digit.
pub open spec fn all_digits(s: Seq<char>) -> bool {
    forall|i: int| 0 <= i < s.len() ==> is_digit(#[trigger] s[i])
}

/// The number the digit string `s` writes in decimal.
pub open spec fn dec_value(s: Seq<char>) -> int
    decreases s.len(),
{
    if s.len() == 0 {
        0
    } else {
        dec_value(s.drop_last()) * 10 + (s.last() as int - '0' as int)
    }
}

/// A string names a port when it is one or more decimal digits whose value
/// fits a 16-bit port number.
pub open spec fn names_port(s: Seq<char>) -> bool {
    s.len() >= 1 && all_digits(s) && dec_value(s) <= 0xffff
}

/// Once a digit prefix exceeds the largest port, every extension does too.
proof fn lemma_dec_value_grows(s: Seq<char>, i: int)
    requires
        all_digits(s),
        0 <= i <= s.len(),
        dec_value(s.subrange(0, i)) > 0xffff,
    ensures
        dec_value(s) > 0xffff,
    decreases s.len() - i,
{
    if i < s.len() {
        let t = s.subrange(0, i + 1);
        assert(t.drop_last() =~= s.subrange(0, i));
        assert(dec_value(t) == dec_value(s.subrange(0, i)) * 10 + (t.last() as int - '0' as int));
        lemma_dec_value_grows(s, i + 1);
    } else {
        assert(s.subrange(0, i) =~= s);
    }
}

/// Reads `s` as a decimal port number. Returns the number exactly when `s` is
/// one or more decimal digits writing a value of at most 65535; anything else
/// — empty, a stray character, too large a value — is rejected.
pub fn parse_port(s: &str) -> (r: Option<u16>)
    ensures
        r is Some <==> names_port(s@),
        r matches Some(v) ==> v as int == dec_value(s@),
{
    let n = s.unicode_len();
    if n == 0 {
        return None;
    }
    let mut acc: u32 = 0;
    let mut i: usize = 0;
    while i < n
        invariant
            n == s@.len(),
            0 < n,
            i <= n,
            all_digits(s@.subrange(0, i as int)),
            acc as int == dec_value(s@.subrange(0, i as int)),
            acc <= 0xffff,
        decreases n - i,
    {
        let c = s.get_char(i);
        let u = c as u32;
        if u < 48 || u > 57 {
            proof {
                assert(!is_digit(s@[i as int]));
            }
            return None;
        }
        let d: u32 = u - 48;
        let next: u32 = acc * 10 + d;
        proof {
            assert(s@.subrange(0, i as int + 1).drop_last() =~= s@.subrange(0, i as int));
            assert(s@.subrange(0, i as int + 1).last() == s@[i as int]);
        }
        if next > 0xffff {
            proof {
                if names_port(s@) {
                    lemma_dec_value_grows(s@, i as int + 1);
                    assert(false);
                }
            }
            return None;
        }
        acc = next;
        i += 1;
    }
    proof {
        assert(s@.subrange(0, n as int) =~= s@);
    }
    Some(acc as u16)
}

/// The port the server listens on: the one the first argument names, or the
/// default when no argument is given or it names none.
pub fn choose_port(arg: Option<&str>) -> (p: u16)
    ensures
        arg is None ==> p == DEFAULT_PORT,
        arg matches Some(s) ==> (if names_port(s@) {
            p as int == dec_value(s@)
        } else {
            p == DEFAULT_PORT
        }),
{
    match arg {
        None => DEFAULT_PORT,
        Some(s) => match parse_port(s) {
            Some(p) => p,
            None => DEFAULT_PORT,
        },
    }
}

} // verus!
