//! Scanning of text as bytes: words between white space, fields between a
//! separator, and the numbers that a token may spell.

use vstd::prelude::*;
use vstd::slice::slice_subrange;

verus! {

/// What a scan looks for.
#[derive(Clone, Copy, Debug, PartialEq, Eq, Structural)]
pub enum Stop {
    /// A byte of white space.
    Space,
    /// A byte that is not white space.
    NonSpace,
    /// This byte.
    Byte(u8),
    /// One of these two bytes.
    Either(u8, u8),
}

/// White space: the blank, and the control characters from tab to carriage
/// return.
pub open spec fn is_space(b: u8) -> bool {
    b == 32 || 9 <= b <= 13
}

/// A decimal digit.
pub open spec fn is_digit(b: u8) -> bool {
    48 <= b <= 57
}

/// Whether a scan for `stop` ends at the byte `b`.
pub open spec fn stops(stop: Stop, b: u8) -> bool {
    match stop {
        Stop::Space => is_space(b),
        Stop::NonSpace => !is_space(b),
        Stop::Byte(wanted) => b == wanted,
        Stop::Either(first, second) => b == first || b == second,
    }
}

/// The first place at or after `from` where a scan for `stop` ends; the
/// length of `s` where it ends nowhere.
pub open spec fn first_stop(s: Seq<u8>, from: int, stop: Stop) -> int
    decreases s.len() - from,
{
    if 0 <= from < s.len() && !stops(stop, s[from]) {
        first_stop(s, from + 1, stop)
    } else {
        from
    }
}

/// A scan ends inside the text or at its end, on the first byte that it
/// looks for.
pub proof fn lemma_first_stop(s: Seq<u8>, from: int, stop: Stop)
    requires
        0 <= from <= s.len(),
    ensures
        from <= first_stop(s, from, stop) <= s.len(),
        forall|j: int| from <= j < first_stop(s, from, stop) ==> !stops(stop, #[trigger] s[j]),
        first_stop(s, from, stop) < s.len() ==> stops(stop, s[first_stop(s, from, stop)]),
    decreases s.len() - from,
{
    if from < s.len() && !stops(stop, s[from]) {
        lemma_first_stop(s, from + 1, stop);
    }
}

/// The place where a scan ends is the only place that looks like one.
pub proof fn lemma_first_stop_is(s: Seq<u8>, from: int, stop: Stop, at: int)
    requires
        0 <= from <= at <= s.len(),
        forall|j: int| from <= j < at ==> !stops(stop, #[trigger] s[j]),
        at < s.len() ==> stops(stop, s[at]),
    ensures
        first_stop(s, from, stop) == at,
    decreases at - from,
{
    if from < at {
        assert(!stops(stop, s[from]));
        lemma_first_stop_is(s, from + 1, stop, at);
    }
}

/// Whether `b` is white space.
pub fn byte_is_space(b: u8) -> (res: bool)
    ensures
        res == is_space(b),
{
    b == 32 || (9 <= b && b <= 13)
}

/// Whether a scan for `stop` ends at `b`.
pub fn byte_stops(stop: Stop, b: u8) -> (res: bool)
    ensures
        res == stops(stop, b),
{
    match stop {
        Stop::Space => byte_is_space(b),
        Stop::NonSpace => !byte_is_space(b),
        Stop::Byte(wanted) => b == wanted,
        Stop::Either(first, second) => b == first || b == second,
    }
}

/// Scans `s` from `from` for `stop`.
pub fn find_stop(s: &[u8], from: usize, stop: Stop) -> (at: usize)
    requires
        from <= s@.len(),
    ensures
        at == first_stop(s@, from as int, stop),
        from <= at <= s@.len(),
{
    let mut at: usize = from;
    while at < s.len() && !byte_stops(stop, s[at])
        invariant
            from <= at <= s@.len(),
            forall|j: int| from <= j < at ==> !stops(stop, #[trigger] s@[j]),
        decreases s@.len() - at,
    {
        at = at + 1;
    }
    proof {
        lemma_first_stop_is(s@, from as int, stop, at as int);
    }
    at
}

/// Where the next word of `s` at or after `pos` begins and where it ends,
/// if there is another word.
pub open spec fn next_word(s: Seq<u8>, pos: int) -> Option<(int, int)> {
    let start = first_stop(s, pos, Stop::NonSpace);
    if start < s.len() {
        Some((start, first_stop(s, start, Stop::Space)))
    } else {
        None
    }
}

/// The words of a line, one after the other: the runs of bytes between
/// white space.
#[derive(Debug)]
pub struct Words<'a> {
    pub line: &'a [u8],
    pub pos: usize,
}

impl<'a> Words<'a> {
    /// The cursor stands inside the line or at its end.
    pub open spec fn wf(self) -> bool {
        self.pos <= self.line@.len()
    }

    /// The words of `line`, from its start.
    pub fn new(line: &'a [u8]) -> (words: Words<'a>)
        ensures
            words.wf(),
            words.line == line,
            words.pos == 0,
    {
        Words { line, pos: 0 }
    }

    /// The next word, if there is one. The cursor moves behind it, or to the
    /// end of the line where there is none.
    pub fn next(&mut self) -> (word: Option<&'a [u8]>)
        requires
            old(self).wf(),
        ensures
            final(self).wf(),
            final(self).line == old(self).line,
            match next_word(old(self).line@, old(self).pos as int) {
                Some((start, end)) => word is Some && word->Some_0@ == old(self).line@.subrange(
                    start,
                    end,
                ) && final(self).pos == end && start < end,
                None => word is None && final(self).pos == old(self).line@.len(),
            },
    {
        let line: &'a [u8] = self.line;
        let start: usize = find_stop(line, self.pos, Stop::NonSpace);
        if start < line.len() {
            let end: usize = find_stop(line, start, Stop::Space);
            proof {
                lemma_first_stop(line@, start as int, Stop::NonSpace);
                lemma_first_stop(line@, self.pos as int, Stop::NonSpace);
                if end == start {
                    lemma_first_stop(line@, start as int, Stop::Space);
                }
            }
            self.pos = end;
            Some(slice_subrange(line, start, end))
        } else {
            self.pos = start;
            None
        }
    }
}

/// The fields of a text, one after the other: what stands before, between
/// and behind the separators. A text without a separator is one field, and
/// so is the empty text.
#[derive(Debug)]
pub struct CharSplits<'a> {
    pub text: &'a [u8],
    pub sep: u8,
    pub pos: usize,
    pub finished: bool,
}

impl<'a> CharSplits<'a> {
    /// The cursor stands inside the text or at its end.
    pub open spec fn wf(self) -> bool {
        self.pos <= self.text@.len()
    }

    /// The fields of `text` between the bytes `sep`, from its start.
    pub fn new(text: &'a [u8], sep: u8) -> (splits: CharSplits<'a>)
        ensures
            splits.wf(),
            splits.text == text,
            splits.sep == sep,
            splits.pos == 0,
            !splits.finished,
    {
        CharSplits { text, sep, pos: 0, finished: false }
    }

    /// The next field, if there is one: the bytes from the cursor to the
    /// next separator or to the end. The cursor moves behind the separator;
    /// the field that reaches the end is the last.
    pub fn next(&mut self) -> (field: Option<&'a [u8]>)
        requires
            old(self).wf(),
        ensures
            final(self).wf(),
            final(self).text == old(self).text,
            final(self).sep == old(self).sep,
            old(self).finished ==> field is None && *final(self) == *old(self),
            !old(self).finished ==> ({
                let end = first_stop(old(self).text@, old(self).pos as int, Stop::Byte(old(self).sep));
                &&& field is Some
                &&& field->Some_0@ == old(self).text@.subrange(old(self).pos as int, end)
                &&& final(self).finished == (end == old(self).text@.len())
                &&& final(self).pos == if end == old(self).text@.len() {
                    end
                } else {
                    end + 1
                }
            }),
    {
        if self.finished {
            return None;
        }
        let text: &'a [u8] = self.text;
        let start: usize = self.pos;
        let end: usize = find_stop(text, start, Stop::Byte(self.sep));
        if end == text.len() {
            self.finished = true;
            self.pos = end;
        } else {
            self.pos = end + 1;
        }
        Some(slice_subrange(text, start, end))
    }
}

/// The digit that a byte spells; 0 for a byte that is no digit.
pub open spec fn digit_of(b: u8) -> nat {
    if is_digit(b) {
        (b - 48) as nat
    } else {
        0
    }
}

/// The number that a run of digits spells.
pub open spec fn digits_value(s: Seq<u8>) -> nat
    decreases s.len(),
{
    if s.len() == 0 {
        0
    } else {
        10 * digits_value(s.drop_last()) + digit_of(s.last())
    }
}

/// Every byte is a digit.
pub open spec fn all_digits(s: Seq<u8>) -> bool {
    forall|i: int| 0 <= i < s.len() ==> is_digit(#[trigger] s[i])
}

/// A longer run of digits spells no smaller a number.
pub proof fn lemma_digits_value_grows(s: Seq<u8>, n: int)
    requires
        0 <= n <= s.len(),
    ensures
        digits_value(s.subrange(0, n)) <= digits_value(s),
    decreases s.len() - n,
{
    if n == s.len() {
        assert(s.subrange(0, n) =~= s);
    } else {
        let longer = s.subrange(0, n + 1);
        assert(longer.drop_last() =~= s.subrange(0, n));
        lemma_digits_value_grows(s, n + 1);
    }
}

/// A token begins with a sign.
pub open spec fn has_sign(s: Seq<u8>) -> bool {
    s.len() > 0 && (s[0] == 43 || s[0] == 45)
}

/// A token begins with a minus sign.
pub open spec fn is_negative(s: Seq<u8>) -> bool {
    s.len() > 0 && s[0] == 45
}

/// A token without its sign.
pub open spec fn unsigned_part(s: Seq<u8>) -> Seq<u8> {
    if has_sign(s) {
        s.subrange(1, s.len() as int)
    } else {
        s
    }
}

/// The integer that a token spells: an optional sign and then one digit or
/// more, with a value that a 32-bit integer holds. `None` for every other
/// token.
pub open spec fn int_token(s: Seq<u8>) -> Option<i32> {
    let body = unsigned_part(s);
    let value = if is_negative(s) {
        -(digits_value(body) as int)
    } else {
        digits_value(body) as int
    };
    if body.len() > 0 && all_digits(body) && i32::MIN <= value <= i32::MAX {
        Some(value as i32)
    } else {
        None
    }
}

/// Reads an integer out of a token.
pub fn parse_int(token: &[u8]) -> (res: Option<i32>)
    ensures
        res == int_token(token@),
{
    let len: usize = token.len();
    let signed: bool = len > 0 && (token[0] == 43 || token[0] == 45);
    let negative: bool = len > 0 && token[0] == 45;
    let first: usize = if signed {
        1
    } else {
        0
    };
    let ghost body = unsigned_part(token@);
    assert(body =~= token@.subrange(first as int, len as int));
    if first == len {
        return None;
    }
    let mut acc: i64 = 0;
    let mut i: usize = first;
    while i < len
        invariant
            first <= i <= len,
            len == token@.len(),
            body == unsigned_part(token@),
            body == token@.subrange(first as int, len as int),
            all_digits(body.subrange(0, i - first)),
            acc == digits_value(body.subrange(0, i - first)),
            0 <= acc <= 0x8000_0000,
        decreases len - i,
    {
        let b: u8 = token[i];
        if !(48 <= b && b <= 57) {
            assert(!is_digit(body[i - first]));
            return None;
        }
        let ghost before = body.subrange(0, i - first);
        let ghost after = body.subrange(0, i - first + 1);
        proof {
            assert(after.drop_last() =~= before);
            assert(after.last() == b);
        }
        acc = acc * 10 + (b - 48) as i64;
        if acc > 0x8000_0000 {
            proof {
                lemma_digits_value_grows(body, i - first + 1);
            }
            return None;
        }
        i = i + 1;
    }
    proof {
        assert(body.subrange(0, len - first) =~= body);
    }
    if negative {
        Some((-acc) as i32)
    } else if acc > 0x7fff_ffff {
        None
    } else {
        Some(acc as i32)
    }
}

} // verus!
