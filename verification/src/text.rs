//! Text building on character sequences: decimal rendering and placeholder substitution.

use vstd::prelude::*;
use vstd::std_specs::iter::IteratorSpec;

verus! {

/// `String::push`: the text afterwards is the text before followed by `c`.
pub assume_specification[ String::push ](s: &mut String, c: char)
    ensures
        final(s)@ == old(s)@.push(c),
;

/// The characters of `text`, in order.
pub fn chars_of(text: &str) -> (out: Vec<char>)
    ensures
        out@ == text@,
{
    let mut out: Vec<char> = Vec::new();
    for c in it: text.chars()
        invariant
            out@ == it.seq().take(it.index() as int),
            it.seq() == text@,
    {
        out.push(c);
    }
    out
}

/// Appends every character of `chars` to `out`.
pub fn push_all(out: &mut String, chars: &Vec<char>)
    ensures
        final(out)@ == old(out)@ + chars@,
{
    let mut i: usize = 0;
    while i < chars.len()
        invariant
            i <= chars.len(),
            out@ == old(out)@ + chars@.take(i as int),
        decreases chars.len() - i,
    {
        out.push(chars[i]);
        i += 1;
    }
}

/// The text whose characters are `chars`.
pub fn string_of(chars: &Vec<char>) -> (out: String)
    ensures
        out@ == chars@,
{
    let mut out = String::new();
    push_all(&mut out, chars);
    out
}

/// The character that writes the digit `d`.
pub open spec fn digit_char(d: int) -> char {
    if d == 0 {
        '0'
    } else if d == 1 {
        '1'
    } else if d == 2 {
        '2'
    } else if d == 3 {
        '3'
    } else if d == 4 {
        '4'
    } else if d == 5 {
        '5'
    } else if d == 6 {
        '6'
    } else if d == 7 {
        '7'
    } else if d == 8 {
        '8'
    } else {
        '9'
    }
}

/// The decimal digits of `n`, most significant first, without leading zeros.
pub open spec fn digits(n: nat) -> Seq<char>
    decreases n,
{
    if n < 10 {
        seq![digit_char(n as int)]
    } else {
        digits(n / 10).push(digit_char((n % 10) as int))
    }
}

/// The decimal writing of `n`: a minus sign for a negative number, then the digits of its magnitude.
pub open spec fn decimal(n: int) -> Seq<char> {
    if n < 0 {
        seq!['-'] + digits((-n) as nat)
    } else {
        digits(n as nat)
    }
}

fn digit_of(d: u64) -> (c: char)
    requires
        d < 10,
    ensures
        c == digit_char(d as int),
{
    if d == 0 {
        '0'
    } else if d == 1 {
        '1'
    } else if d == 2 {
        '2'
    } else if d == 3 {
        '3'
    } else if d == 4 {
        '4'
    } else if d == 5 {
        '5'
    } else if d == 6 {
        '6'
    } else if d == 7 {
        '7'
    } else if d == 8 {
        '8'
    } else {
        '9'
    }
}

/// The digits of `n`, most significant first.
pub fn digits_of(n: u64) -> (out: Vec<char>)
    ensures
        out@ == digits(n as nat),
{
    let mut reversed: Vec<char> = Vec::new();
    let mut rest: u64 = n;
    while rest >= 10
        invariant
            digits(n as nat) == digits(rest as nat) + reversed@.reverse(),
        decreases rest,
    {
        let ghost before = reversed@;
        reversed.push(digit_of(rest % 10));
        proof {
            assert(reversed@.reverse() == seq![digit_char((rest % 10) as int)] + before.reverse());
            assert(digits(rest as nat) == digits((rest / 10) as nat).push(
                digit_char((rest % 10) as int),
            ));
            assert(digits(rest as nat) + before.reverse() == digits((rest / 10) as nat)
                + reversed@.reverse());
        }
        rest = rest / 10;
    }
    let ghost before = reversed@;
    reversed.push(digit_of(rest));
    proof {
        assert(reversed@.reverse() == seq![digit_char(rest as int)] + before.reverse());
        assert(digits(rest as nat) == seq![digit_char(rest as int)]);
    }
    let mut out: Vec<char> = Vec::new();
    let mut i: usize = reversed.len();
    while i > 0
        invariant
            i <= reversed.len(),
            out@ == reversed@.reverse().take(reversed.len() - i),
        decreases i,
    {
        i -= 1;
        out.push(reversed[i]);
    }
    assert(out@ == reversed@.reverse());
    out
}

/// The magnitude of `n`.
pub fn magnitude(n: i64) -> (m: u64)
    ensures
        m as int == if n < 0 {
            -(n as int)
        } else {
            n as int
        },
{
    if n < 0 {
        let above: i64 = -(n + 1);
        let m: u64 = above as u64;
        m + 1
    } else {
        n as u64
    }
}

/// The decimal writing of `n`.
pub fn decimal_of(n: i64) -> (out: Vec<char>)
    ensures
        out@ == decimal(n as int),
{
    let body = digits_of(magnitude(n));
    if n < 0 {
        let mut out: Vec<char> = Vec::new();
        out.push('-');
        let mut i: usize = 0;
        while i < body.len()
            invariant
                i <= body.len(),
                out@ == seq!['-'] + body@.take(i as int),
            decreases body.len() - i,
        {
            out.push(body[i]);
            i += 1;
        }
        assert(body@.take(body.len() as int) == body@);
        out
    } else {
        body
    }
}

/// `value` before every character of `text` and after the last.
pub open spec fn interleaved(text: Seq<char>, value: Seq<char>) -> Seq<char>
    decreases text.len(),
{
    if text.len() == 0 {
        value
    } else {
        value + seq![text[0]] + interleaved(text.skip(1), value)
    }
}

/// `text` with every occurrence of `pattern` replaced by `value`, reading left to right; an
/// occurrence begins only after the end of the one before it. The empty pattern occurs
/// before every character and after the last.
pub open spec fn substituted(text: Seq<char>, pattern: Seq<char>, value: Seq<char>) -> Seq<char>
    decreases text.len(),
{
    if pattern.len() == 0 {
        interleaved(text, value)
    } else if text.len() < pattern.len() {
        text
    } else if text.take(pattern.len() as int) == pattern {
        value + substituted(text.skip(pattern.len() as int), pattern, value)
    } else {
        seq![text[0]] + substituted(text.skip(1), pattern, value)
    }
}

/// Whether `pattern` stands in `text` at position `at`.
pub fn occurs_at(text: &Vec<char>, at: usize, pattern: &Vec<char>) -> (found: bool)
    requires
        at <= text.len(),
    ensures
        found == (text.len() - at >= pattern.len() && text@.skip(at as int).take(
            pattern.len() as int,
        ) == pattern@),
{
    if text.len() - at < pattern.len() {
        return false;
    }
    let mut k: usize = 0;
    while k < pattern.len()
        invariant
            at <= text.len(),
            text.len() - at >= pattern.len(),
            k <= pattern.len(),
            forall|j: int| 0 <= j < k ==> text@[at + j] == pattern@[j],
        decreases pattern.len() - k,
    {
        if text[at + k] != pattern[k] {
            assert(text@.skip(at as int).take(pattern.len() as int)[k as int] != pattern@[k as int]);
            return false;
        }
        k += 1;
    }
    assert(text@.skip(at as int).take(pattern.len() as int) =~= pattern@);
    true
}

/// Puts `value` before every character of `text` and after the last.
fn interleave(source: &Vec<char>, filling: &Vec<char>) -> (out: String)
    ensures
        out@ == interleaved(source@, filling@),
{
    let mut out = String::new();
    let mut at: usize = 0;
    assert(source@.skip(0) == source@);
    assert(out@ + interleaved(source@, filling@) == interleaved(source@, filling@));
    while at < source.len()
        invariant
            at <= source.len(),
            out@ + interleaved(source@.skip(at as int), filling@) == interleaved(
                source@,
                filling@,
            ),
        decreases source.len() - at,
    {
        let ghost rest = source@.skip(at as int);
        let ghost before = out@;
        push_all(&mut out, filling);
        out.push(source[at]);
        proof {
            assert(rest.skip(1) == source@.skip(at + 1));
            assert(out@ == before + (filling@ + seq![rest[0]]));
            assert(out@ + interleaved(rest.skip(1), filling@) == before + interleaved(
                rest,
                filling@,
            ));
        }
        at += 1;
    }
    push_all(&mut out, filling);
    assert(source@.skip(at as int) == Seq::<char>::empty());
    out
}

/// Replaces every occurrence of `pattern` in `text` by `value`.
pub fn substitute(text: &str, pattern: &str, value: &str) -> (out: String)
    ensures
        out@ == substituted(text@, pattern@, value@),
{
    let source = chars_of(text);
    let wanted = chars_of(pattern);
    let filling = chars_of(value);
    if wanted.len() == 0 {
        return interleave(&source, &filling);
    }
    let mut out = String::new();
    let mut at: usize = 0;
    assert(source@.skip(0) == source@);
    assert(out@ + substituted(source@, wanted@, filling@) == substituted(
        source@,
        wanted@,
        filling@,
    ));
    while at < source.len()
        invariant
            at <= source.len(),
            wanted@.len() > 0,
            out@ + substituted(source@.skip(at as int), wanted@, filling@) == substituted(
                source@,
                wanted@,
                filling@,
            ),
        decreases source.len() - at,
    {
        let ghost rest = source@.skip(at as int);
        if occurs_at(&source, at, &wanted) {
            push_all(&mut out, &filling);
            proof {
                assert(rest.skip(wanted.len() as int) == source@.skip(at + wanted.len()));
            }
            at += wanted.len();
        } else {
            out.push(source[at]);
            proof {
                assert(rest.skip(1) == source@.skip(at + 1));
                if rest.len() < wanted@.len() {
                    assert(substituted(rest.skip(1), wanted@, filling@) == rest.skip(1));
                    assert(rest == seq![rest[0]] + rest.skip(1));
                }
            }
            at += 1;
        }
    }
    assert(source@.skip(at as int) == Seq::<char>::empty());
    out
}

/// Whether two texts are the same, character by character.
pub fn same_text(a: &str, b: &str) -> (same: bool)
    ensures
        same == (a@ == b@),
{
    let left = chars_of(a);
    let right = chars_of(b);
    if left.len() != right.len() {
        assert(a@.len() != b@.len());
        return false;
    }
    let mut i: usize = 0;
    while i < left.len()
        invariant
            i <= left.len(),
            left.len() == right.len(),
            left@ == a@,
            right@ == b@,
            forall|j: int| 0 <= j < i ==> left@[j] == right@[j],
        decreases left.len() - i,
    {
        if left[i] != right[i] {
            assert(a@[i as int] != b@[i as int]);
            return false;
        }
        i += 1;
    }
    assert(left@ =~= right@);
    true
}

/// Appends `text` to `out`.
pub fn push_text(out: &mut String, text: &str)
    ensures
        final(out)@ == old(out)@ + text@,
{
    let chars = chars_of(text);
    push_all(out, &chars);
}

} // verus!
