//! Text handling shared by the configuration and the message model: blank
//! trimming, splitting on a separator, and decimal numbers.
//!
//! Every function is specified over the characters of its input, so the
//! callers' contracts can speak of `Seq<char>` values alone.

use vstd::prelude::*;

verus! {

/// Whether `c` is blank: a code point with the Unicode property White_Space.
pub open spec fn is_whitespace(c: char) -> bool {
    let code = c as u32;
    ||| 0x09 <= code <= 0x0D
    ||| code == 0x20
    ||| code == 0x85
    ||| code == 0xA0
    ||| code == 0x1680
    ||| 0x2000 <= code <= 0x200A
    ||| code == 0x2028
    ||| code == 0x2029
    ||| code == 0x202F
    ||| code == 0x205F
    ||| code == 0x3000
}

/// `s` without its leading blanks.
pub open spec fn trim_start(s: Seq<char>) -> Seq<char>
    decreases s.len(),
{
    if s.len() > 0 && is_whitespace(s[0]) {
        trim_start(s.drop_first())
    } else {
        s
    }
}

/// `s` without its trailing blanks.
pub open spec fn trim_end(s: Seq<char>) -> Seq<char>
    decreases s.len(),
{
    if s.len() > 0 && is_whitespace(s.last()) {
        trim_end(s.drop_last())
    } else {
        s
    }
}

/// `s` without leading and trailing blanks.
pub open spec fn trim(s: Seq<char>) -> Seq<char> {
    trim_end(trim_start(s))
}

/// The pieces of `s` between occurrences of `sep`. There is always at least
/// one piece, and a separator at either end yields an empty piece.
pub open spec fn split(s: Seq<char>, sep: char) -> Seq<Seq<char>>
    decreases s.len(),
{
    if s.len() == 0 {
        seq![Seq::<char>::empty()]
    } else {
        let before = split(s.drop_last(), sep);
        if s.last() == sep {
            before.push(Seq::<char>::empty())
        } else {
            before.update(before.len() - 1, before.last().push(s.last()))
        }
    }
}

/// The trimmed pieces that are not empty, in order.
pub open spec fn trimmed_nonempty(pieces: Seq<Seq<char>>) -> Seq<Seq<char>>
    decreases pieces.len(),
{
    if pieces.len() == 0 {
        Seq::<Seq<char>>::empty()
    } else {
        let before = trimmed_nonempty(pieces.drop_last());
        let piece = trim(pieces.last());
        if piece.len() == 0 {
            before
        } else {
            before.push(piece)
        }
    }
}

/// The parts in order, with `sep` between neighbours.
pub open spec fn join(parts: Seq<Seq<char>>, sep: Seq<char>) -> Seq<char>
    decreases parts.len(),
{
    if parts.len() == 0 {
        Seq::<char>::empty()
    } else if parts.len() == 1 {
        parts[0]
    } else {
        join(parts.drop_last(), sep) + sep + parts.last()
    }
}

/// The character that writes the digit `d`.
pub open spec fn digit_char(d: nat) -> char
    recommends
        d < 10,
{
    if d == 0 {
        '0'
    } else if d == 1 {
        '1'
    } else if d == 2 {
        '2'
    } else if d == 3 {
        '3'
    } else if d == 4 {
        '4'
    } else if d == 5 {
        '5'
    } else if d == 6 {
        '6'
    } else if d == 7 {
        '7'
    } else if d == 8 {
        '8'
    } else {
        '9'
    }
}

/// The digit that `c` writes, if it is one of `0` to `9`.
pub open spec fn digit_value(c: char) -> Option<nat> {
    if '0' <= c <= '9' {
        Some((c as u32 - '0' as u32) as nat)
    } else {
        None
    }
}

/// `n` in decimal, without leading zeros.
pub open spec fn decimal(n: nat) -> Seq<char>
    decreases n,
{
    if n < 10 {
        seq![digit_char(n)]
    } else {
        decimal(n / 10).push(digit_char(n % 10))
    }
}

/// The number that a non-empty run of decimal digits writes.
pub open spec fn decimal_value(s: Seq<char>) -> Option<nat>
    decreases s.len(),
{
    if s.len() == 0 {
        None
    } else if s.len() == 1 {
        digit_value(s[0])
    } else {
        match (decimal_value(s.drop_last()), digit_value(s.last())) {
            (Some(high), Some(low)) => Some(10 * high + low),
            _ => None,
        }
    }
}

/// The 32-bit integer that `s` writes: an optional `+` or `-`, then decimal
/// digits, with a value in range. Nothing else is accepted.
pub open spec fn parse_i32(s: Seq<char>) -> Option<i32> {
    let negative = s.len() > 0 && s[0] == '-';
    let signed = s.len() > 0 && (s[0] == '-' || s[0] == '+');
    let digits = if signed {
        s.drop_first()
    } else {
        s
    };
    match decimal_value(digits) {
        Some(magnitude) => {
            let value = if negative {
                -(magnitude as int)
            } else {
                magnitude as int
            };
            if i32::MIN <= value <= i32::MAX {
                Some(value as i32)
            } else {
                None
            }
        },
        None => None,
    }
}

/// A longer run of digits never writes a smaller number than its prefix.
proof fn lemma_decimal_value_prefix(s: Seq<char>, k: int)
    requires
        0 < k <= s.len(),
        decimal_value(s) is Some,
    ensures
        decimal_value(s.take(k)) is Some,
        decimal_value(s.take(k))->0 <= decimal_value(s)->0,
    decreases s.len(),
{
    if k == s.len() {
        assert(s.take(k) =~= s);
    } else {
        assert(s.len() > 1);
        assert(s.drop_last().take(k) =~= s.take(k));
        lemma_decimal_value_prefix(s.drop_last(), k);
    }
}

/// Whether `c` is blank.
pub fn char_is_whitespace(c: char) -> (blank: bool)
    ensures
        blank == is_whitespace(c),
{
    let code: u32 = c as u32;
    (0x09 <= code && code <= 0x0D) || code == 0x20 || code == 0x85 || code == 0xA0 || code
        == 0x1680 || (0x2000 <= code && code <= 0x200A) || code == 0x2028 || code == 0x2029
        || code == 0x202F || code == 0x205F || code == 0x3000
}

/// The characters of `s`, one by one.
pub fn to_chars(s: &str) -> (chars: Vec<char>)
    ensures
        chars@ == s@,
{
    let mut chars: Vec<char> = Vec::new();
    for c in it: s.chars()
        invariant
            it.seq() == s@,
            chars@ == s@.take(it.index() as int),
    {
        chars.push(c);
    }
    chars
}

/// Whether two texts hold the same characters.
pub fn text_eq(a: &str, b: &str) -> (same: bool)
    ensures
        same == (a@ == b@),
{
    let left = a.to_owned();
    let right = b.to_owned();
    left == right
}

/// Where `chars[from..to]` starts and ends once its blanks are trimmed.
pub fn trim_bounds(chars: &Vec<char>, from: usize, to: usize) -> (bounds: (usize, usize))
    requires
        from <= to <= chars.len(),
    ensures
        from <= bounds.0 <= bounds.1 <= to,
        chars@.subrange(bounds.0 as int, bounds.1 as int) == trim(
            chars@.subrange(from as int, to as int),
        ),
{
    let mut start: usize = from;
    while start < to && char_is_whitespace(chars[start])
        invariant
            from <= start <= to <= chars.len(),
            trim_start(chars@.subrange(start as int, to as int)) == trim_start(
                chars@.subrange(from as int, to as int),
            ),
        decreases to - start,
    {
        assert(chars@.subrange(start as int, to as int).drop_first() =~= chars@.subrange(
            start as int + 1,
            to as int,
        ));
        start = start + 1;
    }
    let mut end: usize = to;
    while end > start && char_is_whitespace(chars[end - 1])
        invariant
            start <= end <= to <= chars.len(),
            trim_end(chars@.subrange(start as int, end as int)) == trim_end(
                chars@.subrange(start as int, to as int),
            ),
        decreases end - start,
    {
        assert(chars@.subrange(start as int, end as int).drop_last() =~= chars@.subrange(
            start as int,
            end as int - 1,
        ));
        end = end - 1;
    }
    (start, end)
}

/// Whether `s` holds nothing but blanks.
pub fn is_blank(s: &str) -> (blank: bool)
    ensures
        blank == (trim(s@).len() == 0),
{
    let chars = to_chars(s);
    let bounds = trim_bounds(&chars, 0, chars.len());
    assert(chars@.subrange(0, chars@.len() as int) =~= chars@);
    bounds.0 == bounds.1
}

/// The texts that a list of index pairs cuts out of `chars`.
pub open spec fn cut(chars: Seq<char>, ranges: Seq<(usize, usize)>) -> Seq<Seq<char>> {
    Seq::new(ranges.len(), |i: int| chars.subrange(ranges[i].0 as int, ranges[i].1 as int))
}

/// Where the pieces of `chars` between separators start and end.
pub fn split_ranges(chars: &Vec<char>, sep: char) -> (ranges: Vec<(usize, usize)>)
    ensures
        cut(chars@, ranges@) == split(chars@, sep),
        forall|i: int|
            0 <= i < ranges@.len() ==> (#[trigger] ranges@[i]).0 <= ranges@[i].1 <= chars@.len(),
{
    let mut ranges: Vec<(usize, usize)> = Vec::new();
    let mut start: usize = 0;
    let mut i: usize = 0;
    assert(chars@.take(0) =~= Seq::<char>::empty());
    assert(cut(chars@, ranges@).push(chars@.subrange(0, 0)) =~= split(chars@.take(0), sep));
    while i < chars.len()
        invariant
            start <= i <= chars.len(),
            cut(chars@, ranges@).push(chars@.subrange(start as int, i as int)) == split(
                chars@.take(i as int),
                sep,
            ),
            forall|k: int|
                0 <= k < ranges@.len() ==> (#[trigger] ranges@[k]).0 <= ranges@[k].1
                    <= chars@.len(),
        decreases chars.len() - i,
    {
        let ghost seen = chars@.take(i as int);
        let ghost next = chars@.take(i as int + 1);
        let ghost before = cut(chars@, ranges@);
        assert(next.drop_last() =~= seen);
        assert(next.last() == chars@[i as int]);
        if chars[i] == sep {
            ranges.push((start, i));
            start = i + 1;
            assert(cut(chars@, ranges@) =~= before.push(
                chars@.subrange(ranges@.last().0 as int, i as int),
            ));
            assert(chars@.subrange(start as int, i as int + 1) =~= Seq::<char>::empty());
        } else {
            assert(chars@.subrange(start as int, i as int + 1) =~= chars@.subrange(
                start as int,
                i as int,
            ).push(chars@[i as int]));
            let ghost pieces = split(seen, sep);
            assert(before.push(chars@.subrange(start as int, i as int + 1)) =~= pieces.update(
                pieces.len() - 1,
                pieces.last().push(chars@[i as int]),
            ));
        }
        i = i + 1;
    }
    assert(chars@.take(chars@.len() as int) =~= chars@);
    ranges.push((start, i));
    assert(cut(chars@, ranges@) =~= split(chars@, sep));
    ranges
}

/// The pieces of `s` between occurrences of `sep`, each trimmed, without the
/// ones that trimming leaves empty.
pub fn split_trimmed(s: &str, sep: char) -> (pieces: Vec<String>)
    ensures
        pieces.deep_view() == trimmed_nonempty(split(s@, sep)),
{
    let chars = to_chars(s);
    let ranges = split_ranges(&chars, sep);
    let mut pieces: Vec<String> = Vec::new();
    let mut i: usize = 0;
    assert(cut(chars@, ranges@).take(0) =~= Seq::<Seq<char>>::empty());
    assert(pieces.deep_view() =~= trimmed_nonempty(cut(chars@, ranges@).take(0)));
    while i < ranges.len()
        invariant
            i <= ranges.len(),
            chars@ == s@,
            cut(chars@, ranges@) == split(s@, sep),
            forall|k: int|
                0 <= k < ranges@.len() ==> (#[trigger] ranges@[k]).0 <= ranges@[k].1
                    <= chars@.len(),
            pieces.deep_view() == trimmed_nonempty(cut(chars@, ranges@).take(i as int)),
        decreases ranges.len() - i,
    {
        let ghost all = cut(chars@, ranges@);
        let ghost before = pieces.deep_view();
        let range = ranges[i];
        let bounds = trim_bounds(&chars, range.0, range.1);
        assert(all.take(i as int + 1).drop_last() =~= all.take(i as int));
        assert(all.take(i as int + 1).last() == chars@.subrange(range.0 as int, range.1 as int));
        if bounds.0 < bounds.1 {
            let piece = s.substring_char(bounds.0, bounds.1).to_owned();
            pieces.push(piece);
            assert(pieces.deep_view() =~= before.push(piece@));
        }
        i = i + 1;
    }
    assert(cut(chars@, ranges@).take(ranges@.len() as int) =~= cut(chars@, ranges@));
    pieces
}

/// Writes the parts in order, with `sep` between neighbours.
pub fn join_text(parts: &Vec<String>, sep: &str) -> (text: String)
    ensures
        text@ == join(parts.deep_view(), sep@),
{
    let mut text = String::new();
    let mut i: usize = 0;
    assert(parts.deep_view().take(0) =~= Seq::<Seq<char>>::empty());
    while i < parts.len()
        invariant
            i <= parts.len(),
            text@ == join(parts.deep_view().take(i as int), sep@),
        decreases parts.len() - i,
    {
        let ghost all = parts.deep_view();
        assert(all.take(i as int + 1).drop_last() =~= all.take(i as int));
        assert(all.take(i as int + 1).last() == parts@[i as int]@);
        if i > 0 {
            text.append(sep);
        }
        text.append(parts[i].as_str());
        assert(text@ =~= join(all.take(i as int + 1), sep@));
        i = i + 1;
    }
    assert(parts.deep_view().take(parts.len() as int) =~= parts.deep_view());
    text
}

/// The text of one decimal digit.
fn digit_text(d: u8) -> (text: &'static str)
    requires
        d < 10,
    ensures
        text@ == seq![digit_char(d as nat)],
{
    proof {
        reveal_strlit("0");
        reveal_strlit("1");
        reveal_strlit("2");
        reveal_strlit("3");
        reveal_strlit("4");
        reveal_strlit("5");
        reveal_strlit("6");
        reveal_strlit("7");
        reveal_strlit("8");
        reveal_strlit("9");
    }
    let text = if d == 0 {
        "0"
    } else if d == 1 {
        "1"
    } else if d == 2 {
        "2"
    } else if d == 3 {
        "3"
    } else if d == 4 {
        "4"
    } else if d == 5 {
        "5"
    } else if d == 6 {
        "6"
    } else if d == 7 {
        "7"
    } else if d == 8 {
        "8"
    } else {
        "9"
    };
    assert(text@ =~= seq![digit_char(d as nat)]);
    text
}

/// Writes `n` in decimal.
pub fn to_decimal(n: u128) -> (text: String)
    ensures
        text@ == decimal(n as nat),
    decreases n,
{
    if n < 10 {
        digit_text(n as u8).to_owned()
    } else {
        let mut text = to_decimal(n / 10);
        text.append(digit_text((n % 10) as u8));
        assert(text@ =~= decimal((n / 10) as nat).push(digit_char((n % 10) as nat)));
        text
    }
}

/// Reads a 32-bit integer out of `chars[from..to]`, as `parse_i32` defines it.
pub fn parse_i32_range(chars: &Vec<char>, from: usize, to: usize) -> (value: Option<i32>)
    requires
        from <= to <= chars.len(),
    ensures
        value == parse_i32(chars@.subrange(from as int, to as int)),
{
    let ghost s = chars@.subrange(from as int, to as int);
    if from == to {
        return None;
    }
    let negative = chars[from] == '-';
    let signed = negative || chars[from] == '+';
    let first: usize = if signed {
        from + 1
    } else {
        from
    };
    let ghost digits = chars@.subrange(first as int, to as int);
    assert(digits =~= if signed {
        s.drop_first()
    } else {
        s
    });
    if first == to {
        return None;
    }
    let mut magnitude: u64 = 0;
    let mut i: usize = first;
    while i < to
        invariant
            from <= first <= i <= to <= chars.len(),
            first < to,
            s == chars@.subrange(from as int, to as int),
            digits == chars@.subrange(first as int, to as int),
            digits == if signed {
                s.drop_first()
            } else {
                s
            },
            negative == (s[0] == '-'),
            signed == (s[0] == '-' || s[0] == '+'),
            magnitude <= 0x8000_0000,
            i > first ==> decimal_value(digits.take(i - first)) == Some(magnitude as nat),
            i == first ==> magnitude == 0,
        decreases to - i,
    {
        let c = chars[i];
        let ghost seen = digits.take(i - first);
        let ghost next = digits.take(i - first + 1);
        assert(next.drop_last() =~= seen);
        assert(next.last() == c);
        if !('0' <= c && c <= '9') {
            proof {
                assert(digit_value(c) is None);
                assert(decimal_value(next) is None);
                if decimal_value(digits) is Some {
                    lemma_decimal_value_prefix(digits, i - first + 1);
                }
            }
            return None;
        }
        let low: u64 = (c as u32 - '0' as u32) as u64;
        let grown: u64 = magnitude * 10 + low;
        assert(decimal_value(next) == Some(grown as nat));
        if grown > 0x8000_0000 {
            proof {
                if decimal_value(digits) is Some {
                    lemma_decimal_value_prefix(digits, i - first + 1);
                }
            }
            return None;
        }
        magnitude = grown;
        i = i + 1;
    }
    assert(digits.take(to - first) =~= digits);
    if negative {
        if magnitude == 0x8000_0000 {
            Some(i32::MIN)
        } else {
            Some(-(magnitude as i32))
        }
    } else if magnitude == 0x8000_0000 {
        None
    } else {
        Some(magnitude as i32)
    }
}

} // verus!
