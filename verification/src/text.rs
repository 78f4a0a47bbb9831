//! Lines as sequences of characters: splitting into fields and reading
//! unsigned numbers.

use vstd::prelude::*;

verus! {

/// The number of characters of `s` before the first `sep`; the length of `s`
/// if it holds none.
pub open spec fn find(s: Seq<char>, sep: char) -> nat
    decreases s.len(),
{
    if s.len() == 0 || s[0] == sep {
        0
    } else {
        1 + find(s.skip(1), sep)
    }
}

/// The fields of `s`: the pieces between one `sep` and the next. There is
/// always at least one field, and a field is empty where two separators
/// touch or one stands at either end.
pub open spec fn split(s: Seq<char>, sep: char) -> Seq<Seq<char>>
    decreases s.len(),
{
    let n = find(s, sep);
    if n >= s.len() {
        seq![s]
    } else {
        seq![s.take(n as int)] + split(s.skip(n as int + 1), sep)
    }
}

/// The fields `fields` put together again with a `sep` between each two.
pub open spec fn join(fields: Seq<Seq<char>>, sep: char) -> Seq<char>
    decreases fields.len(),
{
    if fields.len() == 0 {
        Seq::empty()
    } else if fields.len() == 1 {
        fields[0]
    } else {
        fields[0] + seq![sep] + join(fields.skip(1), sep)
    }
}

/// The fields held by `fields`, each as a sequence of characters.
pub open spec fn views(fields: Seq<Vec<char>>) -> Seq<Seq<char>> {
    Seq::new(fields.len(), |i: int| fields[i]@)
}

/// The value of `c` as a digit: 0 to 9 for `'0'..='9'`, 10 to 35 for a letter
/// of either case; `None` if that is not below `radix`.
pub open spec fn digit(c: char, radix: nat) -> Option<nat> {
    let d: int = if '0' <= c <= '9' {
        c as u32 - '0' as u32
    } else if 'a' <= c <= 'z' {
        c as u32 - 'a' as u32 + 10
    } else if 'A' <= c <= 'Z' {
        c as u32 - 'A' as u32 + 10
    } else {
        36
    };
    if d < radix {
        Some(d as nat)
    } else {
        None
    }
}

/// Every character of `s` is a digit of base `radix`.
pub open spec fn all_digits(s: Seq<char>, radix: nat) -> bool {
    forall|i: int| 0 <= i < s.len() ==> (#[trigger] digit(s[i], radix)) is Some
}

/// The number that the digits `s` denote in base `radix`, most significant
/// digit first.
pub open spec fn number(s: Seq<char>, radix: nat) -> nat
    decreases s.len(),
{
    if s.len() == 0 {
        0
    } else {
        number(s.drop_last(), radix) * radix + digit(s.last(), radix).unwrap_or(0)
    }
}

/// The 16-bit number that the text `s` denotes in base `radix`: an optional
/// `+`, then one or more digits and nothing else, with a value of at most
/// 65535. `None` for any other text.
pub open spec fn parse_u16(s: Seq<char>, radix: nat) -> Option<u16> {
    let digits = if s.len() > 0 && s[0] == '+' {
        s.skip(1)
    } else {
        s
    };
    if digits.len() > 0 && all_digits(digits, radix) && number(digits, radix) <= 65535 {
        Some(number(digits, radix) as u16)
    } else {
        None
    }
}

/// No character before the first `sep` is a `sep`, and the character at that
/// place, if there is one, is.
pub proof fn lemma_find_is_first(s: Seq<char>, sep: char)
    ensures
        find(s, sep) <= s.len(),
        forall|i: int| 0 <= i < find(s, sep) ==> s[i] != sep,
        find(s, sep) < s.len() ==> s[find(s, sep) as int] == sep,
    decreases s.len(),
{
    if s.len() > 0 && s[0] != sep {
        let rest = s.skip(1);
        lemma_find_is_first(rest, sep);
        assert forall|i: int| 0 <= i < find(s, sep) implies s[i] != sep by {
            if i > 0 {
                assert(s[i] == rest[i - 1]);
            }
        }
    }
}

/// Splitting loses nothing: there is at least one field, no field holds a
/// separator, and the fields joined by the separator are the text that was
/// split.
pub proof fn law_split_then_join(s: Seq<char>, sep: char)
    ensures
        split(s, sep).len() >= 1,
        forall|k: int| 0 <= k < split(s, sep).len() ==> !(#[trigger] split(s, sep)[k]).contains(sep),
        join(split(s, sep), sep) == s,
    decreases s.len(),
{
    lemma_find_is_first(s, sep);
    let n = find(s, sep) as int;
    if n < s.len() {
        let head = s.take(n);
        let rest = s.skip(n + 1);
        let tail = split(rest, sep);
        law_split_then_join(rest, sep);
        let all = split(s, sep);
        assert(all.skip(1) =~= tail);
        assert forall|k: int| 0 <= k < all.len() implies !(#[trigger] all[k]).contains(sep) by {}
    }
}

/// The number denoted by a prefix of a digit string is at most the number
/// denoted by the whole string.
pub proof fn lemma_number_grows(s: Seq<char>, radix: nat, n: int)
    requires
        0 <= n <= s.len(),
        radix >= 1,
    ensures
        number(s.take(n), radix) <= number(s, radix),
    decreases s.len() - n,
{
    if n == s.len() {
        assert(s.take(n) =~= s);
    } else {
        lemma_number_grows(s.drop_last(), radix, n);
        assert(s.drop_last().take(n) =~= s.take(n));
        assert(number(s.drop_last(), radix) <= number(s.drop_last(), radix) * radix)
            by (nonlinear_arith)
            requires
                radix >= 1,
        ;
    }
}

/// Returns the characters of `s`.
pub fn chars_of(s: &str) -> (v: Vec<char>)
    ensures
        v@ == s@,
{
    broadcast use vstd::string::group_string_axioms;

    let mut v: Vec<char> = Vec::new();
    for c in it: s.chars()
        invariant
            it.seq() == s@,
            v@ == s@.take(it.index()),
    {
        v.push(c);
    }
    v
}

/// Returns the index of the first `sep` in `line` at or after `start`, or
/// the length of `line` if there is none.
pub fn find_from(line: &Vec<char>, start: usize, sep: char) -> (j: usize)
    requires
        start <= line.len(),
    ensures
        start <= j <= line.len(),
        j - start == find(line@.skip(start as int), sep),
{
    let mut j: usize = start;
    while j < line.len() && line[j] != sep
        invariant
            start <= j <= line.len(),
            find(line@.skip(start as int), sep) == (j - start) + find(line@.skip(j as int), sep),
        decreases line.len() - j,
    {
        assert(line@.skip(j as int).skip(1) =~= line@.skip(j + 1));
        j += 1;
    }
    j
}

/// Returns a copy of the characters of `line` from `from` up to `to`.
pub fn slice_of(line: &Vec<char>, from: usize, to: usize) -> (v: Vec<char>)
    requires
        from <= to <= line.len(),
    ensures
        v@ == line@.subrange(from as int, to as int),
{
    let mut v: Vec<char> = Vec::new();
    let mut i: usize = from;
    while i < to
        invariant
            from <= i <= to <= line.len(),
            v@ == line@.subrange(from as int, i as int),
        decreases to - i,
    {
        v.push(line[i]);
        i += 1;
    }
    v
}

/// Splits the part of `line` from `from` on into its fields.
pub fn split_fields(line: &Vec<char>, from: usize, sep: char) -> (fields: Vec<Vec<char>>)
    requires
        from <= line.len(),
    ensures
        views(fields@) == split(line@.skip(from as int), sep),
        fields.len() >= 1,
{
    let mut fields: Vec<Vec<char>> = Vec::new();
    let mut start: usize = from;
    loop
        invariant_except_break
            from <= start <= line.len(),
            split(line@.skip(from as int), sep) == views(fields@) + split(
                line@.skip(start as int),
                sep,
            ),
        ensures
            views(fields@) == split(line@.skip(from as int), sep),
            fields.len() >= 1,
        decreases line.len() - start,
    {
        let ghost rest = line@.skip(start as int);
        let j = find_from(line, start, sep);
        fields.push(slice_of(line, start, j));
        assert(line@.subrange(start as int, j as int) =~= rest.take(j - start));
        if j >= line.len() {
            break ;
        }
        assert(rest.skip(j - start + 1) =~= line@.skip(j + 1));
        start = j + 1;
    }
    fields
}

/// Returns the value of `c` as a digit of base `radix`.
pub fn digit_of(c: char, radix: u32) -> (r: Option<u32>)
    ensures
        match r {
            Some(d) => digit(c, radix as nat) == Some(d as nat),
            None => digit(c, radix as nat) is None,
        },
{
    let code: u32 = c as u32;
    let d: u32 = if '0' as u32 <= code && code <= '9' as u32 {
        code - '0' as u32
    } else if 'a' as u32 <= code && code <= 'z' as u32 {
        code - 'a' as u32 + 10
    } else if 'A' as u32 <= code && code <= 'Z' as u32 {
        code - 'A' as u32 + 10
    } else {
        36
    };
    if d < radix {
        Some(d)
    } else {
        None
    }
}

/// Reads `text` as a 16-bit number in base `radix`.
pub fn read_u16(text: &Vec<char>, radix: u32) -> (r: Option<u16>)
    requires
        2 <= radix <= 36,
    ensures
        r == parse_u16(text@, radix as nat),
{
    let start: usize = if text.len() > 0 && text[0] == '+' {
        1
    } else {
        0
    };
    let ghost digits = text@.skip(start as int);
    if start >= text.len() {
        return None;
    }
    let mut acc: u32 = 0;
    let mut i: usize = start;
    while i < text.len()
        invariant
            2 <= radix <= 36,
            start <= i <= text.len(),
            start < text.len(),
            start == if text@.len() > 0 && text@[0] == '+' {
                1usize
            } else {
                0usize
            },
            digits == text@.skip(start as int),
            start == 0 ==> digits == text@,
            all_digits(digits.take(i - start), radix as nat),
            acc == number(digits.take(i - start), radix as nat),
            acc <= 65535,
        decreases text.len() - i,
    {
        let ghost seen = digits.take(i - start);
        let ghost next = digits.take(i - start + 1);
        assert(next.drop_last() =~= seen);
        match digit_of(text[i], radix) {
            Some(d) => {
                assert(acc * radix + d <= 65535 * 36 + 36) by (nonlinear_arith)
                    requires
                        acc <= 65535,
                        radix <= 36,
                        d < radix,
                ;
                let grown: u32 = acc * radix + d;
                assert forall|k: int| 0 <= k < next.len() implies (#[trigger] digit(
                    next[k],
                    radix as nat,
                )) is Some by {}
                if grown > 65535 {
                    proof {
                        lemma_number_grows(digits, radix as nat, i - start + 1);
                    }
                    return None;
                }
                acc = grown;
            },
            None => {
                return None;
            },
        }
        i += 1;
    }
    assert(digits.take(i - start) =~= digits);
    Some(acc as u16)
}

} // verus!
