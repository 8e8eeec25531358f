//! Text helpers shared by the topic grammar, the payload readers and the
//! query builders: character-wise comparison, decimal numerals in both
//! directions, and splitting at a separator.

use vstd::prelude::*;
use vstd::std_specs::iter::IteratorSpec;

verus! {

broadcast use vstd::string::group_string_axioms;

/// The lower-case form of an ASCII capital; every other character unchanged.
pub open spec fn ascii_lower(c: char) -> char {
    if 'A' <= c && c <= 'Z' {
        ((c as int) + 32) as char
    } else {
        c
    }
}

/// `s` with every ASCII capital replaced by its lower-case form.
pub open spec fn ascii_lowercase(s: Seq<char>) -> Seq<char> {
    Seq::new(s.len(), |i: int| ascii_lower(s[i]))
}

pub open spec fn is_digit(c: char) -> bool {
    '0' <= c && c <= '9'
}

pub open spec fn digit_value(c: char) -> nat {
    ((c as int) - ('0' as int)) as nat
}

pub open spec fn digit_char(d: int) -> char {
    (('0' as int) + d) as char
}

pub open spec fn all_digits(s: Seq<char>) -> bool {
    forall|i: int| 0 <= i < s.len() ==> is_digit(#[trigger] s[i])
}

/// The number that a run of decimal digits denotes, most significant first.
pub open spec fn digits_value(s: Seq<char>) -> nat
    decreases s.len(),
{
    if s.len() == 0 {
        0
    } else {
        digits_value(s.drop_last()) * 10 + digit_value(s.last())
    }
}

/// The decimal numeral of `n`, without leading zeros.
pub open spec fn decimal(n: nat) -> Seq<char>
    decreases n,
{
    if n < 10 {
        seq![digit_char(n as int)]
    } else {
        decimal(n / 10).push(digit_char((n % 10) as int))
    }
}

/// The decimal numeral of `i`, with a minus sign in front of a negative one.
pub open spec fn signed_decimal(i: int) -> Seq<char> {
    if i < 0 {
        seq!['-'] + decimal((-i) as nat)
    } else {
        decimal(i as nat)
    }
}

/// The decimal numeral of `n`, padded with one zero to a width of two.
pub open spec fn two_digit_decimal(n: nat) -> Seq<char> {
    if n < 10 {
        seq!['0'] + decimal(n)
    } else {
        decimal(n)
    }
}

/// What is left of a numeral once an optional leading plus sign is taken off.
pub open spec fn unsigned_body(s: Seq<char>) -> Seq<char> {
    if s.len() > 0 && s[0] == '+' {
        s.drop_first()
    } else {
        s
    }
}

/// The value of an unsigned decimal numeral: an optional plus sign, then at
/// least one digit and nothing else, denoting a number that fits in 64 bits.
pub open spec fn parse_unsigned(s: Seq<char>) -> Option<u64> {
    let body = unsigned_body(s);
    if body.len() > 0 && all_digits(body) && digits_value(body) <= u64::MAX {
        Some(digits_value(body) as u64)
    } else {
        None
    }
}

/// The views of the strings of `v`.
pub open spec fn texts(v: Seq<String>) -> Seq<Seq<char>> {
    Seq::new(v.len(), |i: int| v[i]@)
}

/// The characters of `s`, one element per Unicode scalar value.
pub fn chars_of(s: &str) -> (out: Vec<char>)
    ensures
        out@ == s@,
{
    let mut out: Vec<char> = Vec::new();
    for c in it: s.chars()
        invariant
            out@ == it.seq().take(it.index() as int),
            it.seq() == s@,
    {
        out.push(c);
    }
    out
}

/// Whether `a` and `b` hold the same characters.
pub fn same_text(a: &str, b: &str) -> (same: bool)
    ensures
        same == (a@ == b@),
{
    let mut left = a.chars();
    let mut right = b.chars();
    let ghost mut seen: Seq<char> = Seq::empty();
    loop
        invariant
            a@ == seen + left.remaining(),
            b@ == seen + right.remaining(),
            left.obeys_prophetic_iter_laws(),
            right.obeys_prophetic_iter_laws(),
            left.decrease() is Some,
        decreases left.decrease()->0,
    {
        let x = left.next();
        let y = right.next();
        match (x, y) {
            (Some(c), Some(d)) => {
                if c != d {
                    assert(a@[seen.len() as int] == c);
                    assert(b@[seen.len() as int] == d);
                    return false;
                }
                proof {
                    seen = seen.push(c);
                }
                assert(a@ =~= seen + left.remaining());
                assert(b@ =~= seen + right.remaining());
            },
            (None, None) => {
                assert(a@ =~= seen);
                assert(b@ =~= seen);
                return true;
            },
            _ => {
                assert(a@.len() != b@.len());
                return false;
            },
        }
    }
}

fn lower(c: char) -> (r: char)
    ensures
        r == ascii_lower(c),
{
    if c >= 'A' && c <= 'Z' {
        ((c as u8) + 32u8) as char
    } else {
        c
    }
}

/// Whether `a` and `b` hold the same characters once ASCII capitals are
/// read as their lower-case forms.
pub fn same_text_ignoring_case(a: &str, b: &str) -> (same: bool)
    ensures
        same == (ascii_lowercase(a@) == ascii_lowercase(b@)),
{
    let mut left = a.chars();
    let mut right = b.chars();
    let ghost mut seen_a: Seq<char> = Seq::empty();
    let ghost mut seen_b: Seq<char> = Seq::empty();
    loop
        invariant
            a@ == seen_a + left.remaining(),
            b@ == seen_b + right.remaining(),
            seen_a.len() == seen_b.len(),
            ascii_lowercase(seen_a) == ascii_lowercase(seen_b),
            left.obeys_prophetic_iter_laws(),
            right.obeys_prophetic_iter_laws(),
            left.decrease() is Some,
        decreases left.decrease()->0,
    {
        let x = left.next();
        let y = right.next();
        match (x, y) {
            (Some(c), Some(d)) => {
                if lower(c) != lower(d) {
                    assert(ascii_lowercase(a@)[seen_a.len() as int] == ascii_lower(c));
                    assert(ascii_lowercase(b@)[seen_a.len() as int] == ascii_lower(d));
                    return false;
                }
                proof {
                    let before_a = seen_a;
                    let before_b = seen_b;
                    seen_a = seen_a.push(c);
                    seen_b = seen_b.push(d);
                    assert(ascii_lowercase(seen_a) =~= ascii_lowercase(before_a).push(
                        ascii_lower(c),
                    ));
                    assert(ascii_lowercase(seen_b) =~= ascii_lowercase(before_b).push(
                        ascii_lower(d),
                    ));
                }
                assert(a@ =~= seen_a + left.remaining());
                assert(b@ =~= seen_b + right.remaining());
            },
            (None, None) => {
                assert(a@ =~= seen_a);
                assert(b@ =~= seen_b);
                return true;
            },
            _ => {
                assert(ascii_lowercase(a@).len() != ascii_lowercase(b@).len());
                return false;
            },
        }
    }
}

fn digit_text(d: u64) -> (t: &'static str)
    requires
        d < 10,
    ensures
        t@ == seq![digit_char(d as int)],
{
    proof {
        reveal_strlit("0");
        reveal_strlit("1");
        reveal_strlit("2");
        reveal_strlit("3");
        reveal_strlit("4");
        reveal_strlit("5");
        reveal_strlit("6");
        reveal_strlit("7");
        reveal_strlit("8");
        reveal_strlit("9");
    }
    let t = if d == 0 {
        "0"
    } else if d == 1 {
        "1"
    } else if d == 2 {
        "2"
    } else if d == 3 {
        "3"
    } else if d == 4 {
        "4"
    } else if d == 5 {
        "5"
    } else if d == 6 {
        "6"
    } else if d == 7 {
        "7"
    } else if d == 8 {
        "8"
    } else {
        "9"
    };
    assert(t@ =~= seq![digit_char(d as int)]);
    t
}

/// Appends the decimal numeral of `n` to `out`.
pub fn push_decimal(out: &mut String, n: u64)
    ensures
        final(out)@ == old(out)@ + decimal(n as nat),
    decreases n,
{
    if n >= 10 {
        push_decimal(out, n / 10);
    }
    out.append(digit_text(n % 10));
    assert(out@ =~= old(out)@ + decimal(n as nat));
}

/// Appends the decimal numeral of `i`, with its sign if it is negative.
pub fn push_signed_decimal(out: &mut String, i: i64)
    ensures
        final(out)@ == old(out)@ + signed_decimal(i as int),
{
    if i < 0 {
        proof {
            reveal_strlit("-");
        }
        out.append("-");
        let magnitude: u64 = if i == i64::MIN {
            9223372036854775808u64
        } else {
            (-i) as u64
        };
        push_decimal(out, magnitude);
        assert(out@ =~= old(out)@ + signed_decimal(i as int));
    } else {
        push_decimal(out, i as u64);
    }
}

/// Appends the decimal numeral of `n`, padded with one zero to a width of two.
pub fn push_two_digit_decimal(out: &mut String, n: u64)
    ensures
        final(out)@ == old(out)@ + two_digit_decimal(n as nat),
{
    if n < 10 {
        proof {
            reveal_strlit("0");
        }
        out.append("0");
    }
    push_decimal(out, n);
    assert(out@ =~= old(out)@ + two_digit_decimal(n as nat));
}

/// The decimal numeral of `n` as a string of its own.
pub fn decimal_string(n: u64) -> (out: String)
    ensures
        out@ == decimal(n as nat),
{
    let mut out = String::new();
    push_decimal(&mut out, n);
    assert(out@ =~= decimal(n as nat));
    out
}

/// A prefix of a run of digits denotes no more than the whole run.
pub proof fn digits_value_of_prefix(s: Seq<char>, k: int)
    requires
        0 <= k <= s.len(),
    ensures
        digits_value(s.take(k)) <= digits_value(s),
    decreases s.len(),
{
    if k == s.len() {
        assert(s.take(k) =~= s);
    } else {
        digits_value_of_prefix(s.drop_last(), k);
        assert(s.drop_last().take(k) =~= s.take(k));
    }
}

/// Reads an unsigned decimal numeral.
pub fn parse_u64(s: &str) -> (value: Option<u64>)
    ensures
        value == parse_unsigned(s@),
{
    let chars = chars_of(s);
    let start: usize = if chars.len() > 0 && chars[0] == '+' {
        1
    } else {
        0
    };
    let ghost body = unsigned_body(s@);
    assert(body =~= s@.subrange(start as int, s@.len() as int));
    if start == chars.len() {
        return None;
    }
    let mut acc: u64 = 0;
    let mut i: usize = start;
    while i < chars.len()
        invariant
            start <= i <= chars.len(),
            chars@ == s@,
            body == unsigned_body(s@),
            body == s@.subrange(start as int, s@.len() as int),
            all_digits(body.take(i - start)),
            acc == digits_value(body.take(i - start)),
        decreases chars.len() - i,
    {
        let c = chars[i];
        let ghost upto = body.take(i - start + 1);
        assert(upto.drop_last() =~= body.take(i - start));
        assert(upto.last() == c);
        if !(c >= '0' && c <= '9') {
            assert(!is_digit(body[i - start]));
            return None;
        }
        let d: u64 = ((c as u8) - 48u8) as u64;
        assert(d == digit_value(c));
        if acc > (u64::MAX - d) / 10 {
            proof {
                assert(digits_value(upto) > u64::MAX);
                digits_value_of_prefix(body, i - start + 1);
            }
            return None;
        }
        acc = acc * 10 + d;
        i = i + 1;
        assert(all_digits(upto)) by {
            assert forall|j: int| 0 <= j < upto.len() implies is_digit(#[trigger] upto[j]) by {
                if j < upto.len() - 1 {
                    assert(upto[j] == body.take(i - 1 - start)[j]);
                }
            }
        }
    }
    assert(body.take(i - start) =~= body);
    Some(acc)
}

/// The pieces of `s` between the occurrences of `sep`: one more than there
/// are occurrences, some of them empty where two occurrences touch or one
/// stands at an end.
pub open spec fn segments(s: Seq<char>, sep: char) -> Seq<Seq<char>>
    decreases s.len(),
{
    if s.len() == 0 {
        seq![Seq::<char>::empty()]
    } else {
        let before = segments(s.drop_last(), sep);
        if s.last() == sep {
            before.push(Seq::<char>::empty())
        } else {
            before.drop_last().push(before.last().push(s.last()))
        }
    }
}

/// The position of the first `c` in `s`; the length of `s` if there is none.
pub open spec fn first_index(s: Seq<char>, c: char) -> int
    decreases s.len(),
{
    if s.len() == 0 {
        0
    } else if s[0] == c {
        0
    } else {
        1 + first_index(s.drop_first(), c)
    }
}

/// `s` starts with `prefix`.
pub open spec fn has_prefix(s: Seq<char>, prefix: Seq<char>) -> bool {
    prefix.len() <= s.len() && s.take(prefix.len() as int) == prefix
}

/// The thousandths that the first three digits of a fraction stand for.
pub open spec fn thousandths(frac: Seq<char>) -> nat {
    (if frac.len() > 0 {
        digit_value(frac[0]) * 100
    } else {
        0
    }) + (if frac.len() > 1 {
        digit_value(frac[1]) * 10
    } else {
        0
    }) + (if frac.len() > 2 {
        digit_value(frac[2])
    } else {
        0
    })
}

/// The value in thousandths of a decimal numeral without sign or exponent:
/// digits, then optionally a point and more digits, with at least one
/// digit in all. Digits beyond the third after the point are dropped.
/// `None` for anything else, and for a value that does not fit in 64 bits.
pub open spec fn parse_thousandths(s: Seq<char>) -> Option<u64> {
    let dot = first_index(s, '.');
    let whole = s.take(dot);
    let frac = if dot < s.len() {
        s.skip(dot + 1)
    } else {
        Seq::<char>::empty()
    };
    let value = digits_value(whole) * 1000 + thousandths(frac);
    if all_digits(whole) && all_digits(frac) && whole.len() + frac.len() > 0 && value <= u64::MAX {
        Some(value as u64)
    } else {
        None
    }
}

/// The first position of `c` lies within `s` or at its end; `c` stands
/// there and nowhere before.
pub proof fn first_index_is_first(s: Seq<char>, c: char)
    ensures
        0 <= first_index(s, c) <= s.len(),
        first_index(s, c) < s.len() ==> s[first_index(s, c)] == c,
        forall|i: int| 0 <= i < first_index(s, c) ==> s[i] != c,
    decreases s.len(),
{
    if s.len() > 0 && s[0] != c {
        first_index_is_first(s.drop_first(), c);
        assert forall|i: int| 0 <= i < first_index(s, c) implies s[i] != c by {
            if i > 0 {
                assert(s[i] == s.drop_first()[i - 1]);
            }
        }
    }
}

/// A position at which `c` stands, with no `c` before it, is the first.
pub proof fn first_index_found(s: Seq<char>, c: char, k: int)
    requires
        0 <= k <= s.len(),
        forall|i: int| 0 <= i < k ==> s[i] != c,
        k < s.len() ==> s[k] == c,
    ensures
        first_index(s, c) == k,
{
    first_index_is_first(s, c);
    let f = first_index(s, c);
    if f < k {
        assert(s[f] == c);
    } else if f > k {
        assert(s[k] != c);
    }
}

/// Splits `s` at every `sep`.
pub fn split(s: &str, sep: char) -> (parts: Vec<String>)
    ensures
        parts@.len() == segments(s@, sep).len(),
        forall|i: int| 0 <= i < parts@.len() ==> (#[trigger] parts@[i])@ == segments(s@, sep)[i],
{
    let chars = chars_of(s);
    let mut parts: Vec<String> = Vec::new();
    let mut start: usize = 0;
    let mut i: usize = 0;
    assert(s@.take(0) =~= Seq::<char>::empty());
    while i < chars.len()
        invariant
            start <= i <= chars.len(),
            chars@ == s@,
            segments(s@.take(i as int), sep).len() == parts@.len() + 1,
            forall|k: int|
                0 <= k < parts@.len() ==> (#[trigger] parts@[k])@ == segments(
                    s@.take(i as int),
                    sep,
                )[k],
            segments(s@.take(i as int), sep).last() == s@.subrange(start as int, i as int),
        decreases chars.len() - i,
    {
        let ghost before = segments(s@.take(i as int), sep);
        assert(s@.take(i + 1).drop_last() =~= s@.take(i as int));
        assert(s@.take(i + 1).last() == chars@[i as int]);
        if chars[i] == sep {
            let piece = String::from_str(s.substring_char(start, i));
            parts.push(piece);
            start = i + 1;
            assert(s@.subrange(start as int, i + 1) =~= Seq::<char>::empty());
        } else {
            assert(s@.subrange(start as int, i + 1) =~= s@.subrange(start as int, i as int).push(
                chars@[i as int],
            ));
        }
        i = i + 1;
    }
    assert(s@.take(i as int) =~= s@);
    let piece = String::from_str(s.substring_char(start, i));
    parts.push(piece);
    parts
}

/// Reads the digits of `chars` from `from` up to `to` as a number, if
/// they are digits and the number, times `scale`, fits in 64 bits.
fn read_digits(chars: &Vec<char>, from: usize, to: usize) -> (value: Option<u64>)
    requires
        from <= to <= chars.len(),
    ensures
        match value {
            Some(v) => all_digits(chars@.subrange(from as int, to as int)) && v == digits_value(
                chars@.subrange(from as int, to as int),
            ),
            None => !all_digits(chars@.subrange(from as int, to as int)) || digits_value(
                chars@.subrange(from as int, to as int),
            ) > u64::MAX,
        },
{
    let ghost body = chars@.subrange(from as int, to as int);
    let mut acc: u64 = 0;
    let mut i: usize = from;
    while i < to
        invariant
            from <= i <= to <= chars.len(),
            body == chars@.subrange(from as int, to as int),
            all_digits(body.take(i - from)),
            acc == digits_value(body.take(i - from)),
        decreases to - i,
    {
        let c = chars[i];
        let ghost upto = body.take(i - from + 1);
        assert(upto.drop_last() =~= body.take(i - from));
        assert(upto.last() == c);
        if !(c >= '0' && c <= '9') {
            assert(!is_digit(body[i - from]));
            return None;
        }
        let d: u64 = ((c as u8) - 48u8) as u64;
        assert(d == digit_value(c));
        if acc > (u64::MAX - d) / 10 {
            proof {
                assert(digits_value(upto) > u64::MAX);
                digits_value_of_prefix(body, i - from + 1);
            }
            if all_digits_from(chars, i, to) {
                assert(all_digits(body)) by {
                    assert forall|j: int| 0 <= j < body.len() implies is_digit(#[trigger] body[j]) by {
                        if j < i - from {
                            assert(body[j] == body.take(i - from)[j]);
                        } else {
                            assert(body[j] == chars@.subrange(i as int, to as int)[j - (i - from)]);
                        }
                    }
                }
            } else {
                assert(!all_digits(body)) by {
                    let rest = chars@.subrange(i as int, to as int);
                    let j = choose|j: int| 0 <= j < rest.len() && !is_digit(#[trigger] rest[j]);
                    assert(body[j + (i - from)] == rest[j]);
                }
            }
            return None;
        }
        acc = acc * 10 + d;
        i = i + 1;
        assert(all_digits(upto)) by {
            assert forall|j: int| 0 <= j < upto.len() implies is_digit(#[trigger] upto[j]) by {
                if j < upto.len() - 1 {
                    assert(upto[j] == body.take(i - 1 - from)[j]);
                }
            }
        }
    }
    assert(body.take(i - from) =~= body);
    Some(acc)
}

fn all_digits_from(chars: &Vec<char>, from: usize, to: usize) -> (r: bool)
    requires
        from <= to <= chars.len(),
    ensures
        r == all_digits(chars@.subrange(from as int, to as int)),
{
    let ghost body = chars@.subrange(from as int, to as int);
    let mut i: usize = from;
    while i < to
        invariant
            from <= i <= to <= chars.len(),
            body == chars@.subrange(from as int, to as int),
            forall|j: int| 0 <= j < i - from ==> is_digit(#[trigger] body[j]),
        decreases to - i,
    {
        let c = chars[i];
        if !(c >= '0' && c <= '9') {
            assert(!is_digit(body[i - from]));
            return false;
        }
        i = i + 1;
    }
    true
}

fn digit_at(chars: &Vec<char>, i: usize) -> (d: u64)
    requires
        i < chars.len(),
        is_digit(chars@[i as int]),
    ensures
        d == digit_value(chars@[i as int]),
        d <= 9,
{
    ((chars[i] as u8) - 48u8) as u64
}

/// Reads a decimal numeral without sign or exponent as thousandths.
pub fn parse_milli(s: &str) -> (value: Option<u64>)
    ensures
        value == parse_thousandths(s@),
{
    let chars = chars_of(s);
    let mut dot: usize = 0;
    while dot < chars.len() && chars[dot] != '.'
        invariant
            dot <= chars.len(),
            forall|i: int| 0 <= i < dot ==> chars@[i] != '.',
        decreases chars.len() - dot,
    {
        dot = dot + 1;
    }
    proof {
        first_index_found(s@, '.', dot as int);
    }
    let frac_from: usize = if dot < chars.len() {
        dot + 1
    } else {
        dot
    };
    let ghost whole = s@.take(dot as int);
    let ghost frac = if dot < s@.len() {
        s@.skip(dot + 1)
    } else {
        Seq::<char>::empty()
    };
    assert(whole =~= chars@.subrange(0, dot as int));
    assert(frac =~= chars@.subrange(frac_from as int, chars@.len() as int));
    let w = read_digits(&chars, 0, dot);
    let frac_ok = all_digits_from(&chars, frac_from, chars.len());
    if !frac_ok || dot + (chars.len() - frac_from) == 0 {
        return None;
    }
    let w = match w {
        Some(w) => w,
        None => {
            return None;
        },
    };
    let n: usize = chars.len() - frac_from;
    let mut t: u64 = 0;
    if n > 0 {
        assert(frac[0] == chars@[frac_from as int]);
        t = t + digit_at(&chars, frac_from) * 100;
    }
    if n > 1 {
        assert(frac[1] == chars@[frac_from + 1]);
        t = t + digit_at(&chars, frac_from + 1) * 10;
    }
    if n > 2 {
        assert(frac[2] == chars@[frac_from + 2]);
        t = t + digit_at(&chars, frac_from + 2);
    }
    assert(t == thousandths(frac));
    if w > (u64::MAX - t) / 1000 {
        return None;
    }
    Some(w * 1000 + t)
}

/// A decimal numeral is made of digits and denotes the number it was
/// written for.
pub proof fn decimal_denotes_its_number(n: nat)
    ensures
        decimal(n).len() >= 1,
        all_digits(decimal(n)),
        digits_value(decimal(n)) == n,
    decreases n,
{
    if n < 10 {
        let s = decimal(n);
        assert(s.drop_last() =~= Seq::<char>::empty());
        assert(digits_value(s.drop_last()) == 0);
    } else {
        decimal_denotes_its_number(n / 10);
        let s = decimal(n);
        assert(s.drop_last() =~= decimal(n / 10));
        assert forall|i: int| 0 <= i < s.len() implies is_digit(#[trigger] s[i]) by {
            if i < s.len() - 1 {
                assert(s[i] == decimal(n / 10)[i]);
            }
        }
    }
}

/// What `push_decimal` writes, `parse_u64` reads back.
pub proof fn written_number_reads_back(n: u64)
    ensures
        parse_unsigned(decimal(n as nat)) == Some(n),
{
    decimal_denotes_its_number(n as nat);
    assert(is_digit(decimal(n as nat)[0]));
}

} // verus!
