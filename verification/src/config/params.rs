use vstd::prelude::*;
use vstd::string::StrSliceExecFns;

verus! {

/// The port used when none is configured.
pub const DEFAULT_PORT: u16 = 6969;

/// Whether a character is a decimal digit.
pub open spec fn is_dec_digit(c: char) -> bool {
    48 <= c as u32 <= 57
}

/// The value of one decimal digit character.
pub open spec fn digit_val(c: char) -> nat {
    (c as u32 - 48) as nat
}

/// Whether every character of a sequence is a decimal digit.
pub open spec fn all_digits(s: Seq<char>) -> bool {
    forall|i: int| 0 <= i < s.len() ==> is_dec_digit(#[trigger] s[i])
}

/// The number a sequence of decimal digit characters denotes.
pub open spec fn digits_val(s: Seq<char>) -> nat
    decreases s.len(),
{
    if s.len() == 0 {
        0
    } else {
        digits_val(s.drop_last()) * 10 + digit_val(s.last())
    }
}

/// A number's digits: the string with an optional leading plus sign removed.
pub open spec fn sign_stripped(s: Seq<char>) -> Seq<char> {
    if s.len() > 0 && s[0] == '+' {
        s.drop_first()
    } else {
        s
    }
}

/// What parsing a string as an unsigned 16-bit number yields: an optional
/// leading plus sign, then at least one decimal digit, denoting a value
/// that fits in 16 bits.
pub open spec fn spec_parse_u16(s: Seq<char>) -> Option<u16> {
    let body = sign_stripped(s);
    if body.len() > 0 && all_digits(body) && digits_val(body) <= 0xffff {
        Some(digits_val(body) as u16)
    } else {
        None
    }
}

/// A longer digit string never denotes a smaller number.
proof fn lemma_digits_val_mono(s: Seq<char>, j: int, k: int)
    requires
        0 <= j <= k <= s.len(),
    ensures
        digits_val(s.take(j)) <= digits_val(s.take(k)),
    decreases k - j,
{
    if j < k {
        lemma_digits_val_mono(s, j, k - 1);
        assert(s.take(k).drop_last() =~= s.take(k - 1));
        assert(digits_val(s.take(k)) == digits_val(s.take(k - 1)) * 10 + digit_val(
            s.take(k).last(),
        ));
    } else {
        assert(s.take(j) =~= s.take(k));
    }
}

/// Parses a string as an unsigned 16-bit number, as the configuration
/// collaborator writes one: optional plus sign, then decimal digits.
pub fn parse_u16(s: &str) -> (r: Option<u16>)
    ensures
        r == spec_parse_u16(s@),
{
    let len = s.unicode_len();
    let start: usize = if len > 0 && s.get_char(0) == '+' {
        1
    } else {
        0
    };
    let ghost body = sign_stripped(s@);
    assert(body =~= s@.subrange(start as int, len as int));
    if start == len {
        return None;
    }
    let mut acc: u32 = 0;
    let mut i: usize = start;
    while i < len
        invariant
            start <= i <= len,
            len == s@.len(),
            start <= 1,
            body == sign_stripped(s@),
            body =~= s@.subrange(start as int, len as int),
            all_digits(body.take(i - start)),
            acc == digits_val(body.take(i - start)),
            acc <= 0xffff,
        decreases len - i,
    {
        let c = s.get_char(i);
        let cv = c as u32;
        if cv < 48 || cv > 57 {
            proof {
                assert(body[i - start] == s@[i as int]);
                assert(!is_dec_digit(body[i - start]));
                assert(!all_digits(body));
                assert(spec_parse_u16(s@) is None);
            }
            return None;
        }
        let d: u32 = cv - 48;
        proof {
            let j = i - start;
            assert(body.take(j + 1).drop_last() =~= body.take(j));
            assert(body.take(j + 1).last() == body[j]);
            assert(body[j] == s@[i as int]);
            assert(digits_val(body.take(j + 1)) == digits_val(body.take(j)) * 10 + digit_val(
                body[j],
            ));
        }
        acc = acc * 10 + d;
        i = i + 1;
        if acc > 0xffff {
            proof {
                lemma_digits_val_mono(body, i - start, body.len() as int);
                assert(body.take(body.len() as int) =~= body);
                assert(digits_val(body) > 0xffff);
                assert(spec_parse_u16(s@) is None);
            }
            return None;
        }
    }
    proof {
        assert(body.take(body.len() as int) =~= body);
    }
    Some(acc as u16)
}

/// The configured port: the supplied text parsed as a 16-bit number, or the
/// default port when nothing was supplied or the text does not parse.
pub fn port(raw: Option<&str>) -> (r: u16)
    ensures
        match raw {
            Option::Some(s) => r == match spec_parse_u16(s@) {
                Option::Some(v) => v,
                Option::None => DEFAULT_PORT,
            },
            Option::None => r == DEFAULT_PORT,
        },
{
    match raw {
        Some(s) => match parse_u16(s) {
            Some(v) => v,
            None => DEFAULT_PORT,
        },
        None => DEFAULT_PORT,
    }
}

} // verus!
