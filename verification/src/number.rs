//! Numbers as a text spells them: the grammar of a decimal number with an
//! optional exponent, and the exact value of every token of that grammar.
//!
//! A number is kept as its token. Nothing is rounded and nothing is out of
//! range here: whoever needs a machine number makes it from the token.

use vstd::prelude::*;
use vstd::slice::{slice_subrange, slice_to_vec};
use crate::text::{
    all_digits, digits_value, find_stop, first_stop, is_digit, is_negative, unsigned_part, Stop,
};

verus! {

/// A number: a token of the grammar of [`is_number`].
#[derive(Debug, PartialEq, Eq)]
pub struct Number {
    pub text: Vec<u8>,
}

impl View for Number {
    type V = Seq<u8>;

    open spec fn view(&self) -> Seq<u8> {
        self.text@
    }
}

/// `10^n`.
pub open spec fn pow10(n: nat) -> nat
    decreases n,
{
    if n == 0 {
        1
    } else {
        10 * pow10((n - 1) as nat)
    }
}

/// `magnitude`, negated where `negative`.
pub open spec fn signed(negative: bool, magnitude: int) -> int {
    if negative {
        -magnitude
    } else {
        magnitude
    }
}

/// The part of an unsigned token before the exponent mark, `e` or `E`.
pub open spec fn mantissa_part(body: Seq<u8>) -> Seq<u8> {
    body.subrange(0, first_stop(body, 0, Stop::Either(101, 69)))
}

/// Whether an unsigned token has an exponent mark.
pub open spec fn has_exponent(body: Seq<u8>) -> bool {
    first_stop(body, 0, Stop::Either(101, 69)) < body.len()
}

/// What stands behind the exponent mark of an unsigned token.
pub open spec fn exponent_part(body: Seq<u8>) -> Seq<u8> {
    body.subrange(first_stop(body, 0, Stop::Either(101, 69)) + 1, body.len() as int)
}

/// The part of a mantissa before the point.
pub open spec fn whole_part(mantissa: Seq<u8>) -> Seq<u8> {
    mantissa.subrange(0, first_stop(mantissa, 0, Stop::Byte(46)))
}

/// The part of a mantissa behind the point; empty where there is no point.
pub open spec fn fraction_part(mantissa: Seq<u8>) -> Seq<u8> {
    let dot = first_stop(mantissa, 0, Stop::Byte(46));
    if dot < mantissa.len() {
        mantissa.subrange(dot + 1, mantissa.len() as int)
    } else {
        Seq::empty()
    }
}

/// The digits of a token that count: those before and those behind the
/// point, in one run.
pub open spec fn mantissa_digits(s: Seq<u8>) -> Seq<u8> {
    let mantissa = mantissa_part(unsigned_part(s));
    whole_part(mantissa) + fraction_part(mantissa)
}

/// The grammar of a number: an optional sign; digits with at most one point
/// before, among or behind them, at least one digit in all; and optionally
/// an exponent: `e` or `E`, an optional sign, and at least one digit.
/// There is no bound on the number of digits of either part.
pub open spec fn is_number(s: Seq<u8>) -> bool {
    let body = unsigned_part(s);
    let digits = mantissa_digits(s);
    let exponent = unsigned_part(exponent_part(body));
    &&& digits.len() > 0
    &&& all_digits(digits)
    &&& has_exponent(body) ==> exponent.len() > 0 && all_digits(exponent)
}

/// The power of ten by which the digits of a number are to be multiplied:
/// the exponent that the token gives, 0 where it gives none, less the
/// number of digits behind the point.
pub open spec fn exponent_of(s: Seq<u8>) -> int {
    let body = unsigned_part(s);
    let given = if has_exponent(body) {
        signed(
            is_negative(exponent_part(body)),
            digits_value(unsigned_part(exponent_part(body))) as int,
        )
    } else {
        0
    };
    given - fraction_part(mantissa_part(body)).len()
}

/// The numerator of the value of a number, over [`denominator_of`]. The
/// value of the token `s` is `numerator_of(s) / denominator_of(s)`.
pub open spec fn numerator_of(s: Seq<u8>) -> int {
    let digits = digits_value(mantissa_digits(s)) as int;
    if exponent_of(s) >= 0 {
        signed(is_negative(s), digits * pow10(exponent_of(s) as nat))
    } else {
        signed(is_negative(s), digits)
    }
}

/// The denominator of the value of a number: a power of ten.
pub open spec fn denominator_of(s: Seq<u8>) -> nat {
    if exponent_of(s) >= 0 {
        1
    } else {
        pow10((-exponent_of(s)) as nat)
    }
}

/// Every power of ten is positive.
pub proof fn lemma_pow10_is_positive(n: nat)
    ensures
        pow10(n) > 0,
    decreases n,
{
    if n > 0 {
        lemma_pow10_is_positive((n - 1) as nat);
    }
}

/// The value of a number is a fraction with a positive denominator.
pub proof fn lemma_denominator_is_positive(s: Seq<u8>)
    ensures
        denominator_of(s) > 0,
{
    if exponent_of(s) < 0 {
        lemma_pow10_is_positive((-exponent_of(s)) as nat);
    }
}

/// A run of digits followed by another is a run of digits, and only then.
pub proof fn lemma_all_digits_concat(a: Seq<u8>, b: Seq<u8>)
    ensures
        all_digits(a + b) == (all_digits(a) && all_digits(b)),
{
    let whole = a + b;
    if all_digits(whole) {
        assert forall|i: int| 0 <= i < a.len() implies is_digit(#[trigger] a[i]) by {
            assert(whole[i] == a[i]);
        }
        assert forall|i: int| 0 <= i < b.len() implies is_digit(#[trigger] b[i]) by {
            assert(whole[a.len() + i] == b[i]);
        }
    }
    if all_digits(a) && all_digits(b) {
        assert forall|i: int| 0 <= i < whole.len() implies is_digit(#[trigger] whole[i]) by {
            if i < a.len() {
                assert(whole[i] == a[i]);
            } else {
                assert(whole[i] == b[i - a.len()]);
            }
        }
    }
}

/// Whether the bytes of `s` from `from` to `to` are all digits.
pub fn digits_only(s: &[u8], from: usize, to: usize) -> (res: bool)
    requires
        from <= to <= s@.len(),
    ensures
        res == all_digits(s@.subrange(from as int, to as int)),
{
    let ghost run = s@.subrange(from as int, to as int);
    let mut i: usize = from;
    while i < to
        invariant
            from <= i <= to <= s@.len(),
            run == s@.subrange(from as int, to as int),
            forall|k: int| 0 <= k < i - from ==> is_digit(#[trigger] run[k]),
        decreases to - i,
    {
        let b: u8 = s[i];
        if !(48 <= b && b <= 57) {
            assert(!is_digit(run[i - from]));
            return false;
        }
        i = i + 1;
    }
    true
}

impl Number {
    /// The token is one of the grammar.
    pub open spec fn wf(self) -> bool {
        is_number(self@)
    }

    /// Another number with the same token.
    pub fn duplicate(&self) -> (copy: Number)
        ensures
            copy@ == self@,
            copy.wf() == self.wf(),
    {
        Number { text: slice_to_vec(self.text.as_slice()) }
    }
}

/// Reads a number out of a token: the token itself, if it is one of the
/// grammar of [`is_number`].
pub fn parse_number(token: &[u8]) -> (res: Option<Number>)
    ensures
        match res {
            Some(number) => is_number(token@) && number@ == token@ && number.wf(),
            None => !is_number(token@),
        },
{
    let len: usize = token.len();
    let has_sign: bool = len > 0 && (token[0] == 43 || token[0] == 45);
    let first: usize = if has_sign {
        1
    } else {
        0
    };
    let body: &[u8] = slice_subrange(token, first, len);
    assert(body@ =~= unsigned_part(token@));
    let mark: usize = find_stop(body, 0, Stop::Either(101, 69));
    let mantissa: &[u8] = slice_subrange(body, 0, mark);
    let n: usize = mantissa.len();
    let dot: usize = find_stop(mantissa, 0, Stop::Byte(46));
    let fraction_from: usize = if dot < n {
        dot + 1
    } else {
        n
    };
    proof {
        assert(mantissa@ == mantissa_part(body@));
        assert(mantissa@.subrange(0, dot as int) == whole_part(mantissa@));
        assert(mantissa@.subrange(fraction_from as int, n as int) =~= fraction_part(mantissa@));
        lemma_all_digits_concat(whole_part(mantissa@), fraction_part(mantissa@));
    }
    if dot + (n - fraction_from) == 0 {
        return None;
    }
    if !digits_only(mantissa, 0, dot) {
        return None;
    }
    if !digits_only(mantissa, fraction_from, n) {
        return None;
    }
    if mark < body.len() {
        let exponent: &[u8] = slice_subrange(body, mark + 1, body.len());
        let exponent_len: usize = exponent.len();
        let exponent_has_sign: bool = exponent_len > 0 && (exponent[0] == 43 || exponent[0] == 45);
        let exponent_first: usize = if exponent_has_sign {
            1
        } else {
            0
        };
        proof {
            assert(exponent@ == exponent_part(body@));
            assert(exponent@.subrange(exponent_first as int, exponent_len as int)
                =~= unsigned_part(exponent@));
        }
        if exponent_first == exponent_len {
            return None;
        }
        if !digits_only(exponent, exponent_first, exponent_len) {
            return None;
        }
    }
    Some(Number { text: slice_to_vec(token) })
}

} // verus!
