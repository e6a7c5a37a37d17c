//! Text building and scanning, stated over sequences of characters.

use vstd::prelude::*;

verus! {

/// The decimal digit `d` as a character.
pub open spec fn digit_char(d: nat) -> char {
    (('0' as nat) + d) as char
}

/// The usual decimal notation of `n`, without leading zeros.
pub open spec fn decimal(n: nat) -> Seq<char>
    decreases n,
{
    if n < 10 {
        seq![digit_char(n)]
    } else {
        decimal(n / 10).push(digit_char(n % 10))
    }
}

fn digit_text(d: usize) -> (text: &'static str)
    requires
        d < 10,
    ensures
        text@ == seq![digit_char(d as nat)],
{
    proof {
        reveal_strlit("0");
        reveal_strlit("1");
        reveal_strlit("2");
        reveal_strlit("3");
        reveal_strlit("4");
        reveal_strlit("5");
        reveal_strlit("6");
        reveal_strlit("7");
        reveal_strlit("8");
        reveal_strlit("9");
    }
    let text: &'static str = match d {
        0 => "0",
        1 => "1",
        2 => "2",
        3 => "3",
        4 => "4",
        5 => "5",
        6 => "6",
        7 => "7",
        8 => "8",
        _ => "9",
    };
    assert(text@ =~= seq![digit_char(d as nat)]);
    text
}

/// Appends the decimal notation of `n`.
pub fn push_decimal(out: &mut String, n: usize)
    ensures
        final(out)@ == old(out)@ + decimal(n as nat),
    decreases n,
{
    let ghost before = out@;
    if n >= 10 {
        push_decimal(out, n / 10);
    }
    out.append(digit_text(n % 10));
    assert(out@ =~= before + decimal(n as nat));
}

/// Appends the decimal notation of `n`.
pub fn push_decimal_u64(out: &mut String, n: u64)
    ensures
        final(out)@ == old(out)@ + decimal(n as nat),
    decreases n,
{
    let ghost before = out@;
    if n >= 10 {
        push_decimal_u64(out, n / 10);
    }
    out.append(digit_text((n % 10) as usize));
    assert(out@ =~= before + decimal(n as nat));
}

/// The characters of `s` in order.
pub fn chars_of(s: &str) -> (chars: Vec<char>)
    ensures
        chars@ == s@,
{
    let mut chars: Vec<char> = Vec::new();
    for c in iter: s.chars()
        invariant
            iter.seq() == s@,
            chars@ == s@.take(iter.index()),
    {
        chars.push(c);
    }
    chars
}

/// Whether two texts hold the same characters.
pub fn same_text(a: &str, b: &str) -> (same: bool)
    ensures
        same == (a@ == b@),
{
    let left = chars_of(a);
    let right = chars_of(b);
    if left.len() != right.len() {
        return false;
    }
    let mut i: usize = 0;
    while i < left.len()
        invariant
            i <= left.len(),
            left.len() == right.len(),
            left@ == a@,
            right@ == b@,
            forall|k: int| 0 <= k < i ==> a@[k] == b@[k],
        decreases left.len() - i,
    {
        if left[i] != right[i] {
            assert(a@[i as int] != b@[i as int]);
            return false;
        }
        i += 1;
    }
    assert(a@ =~= b@);
    true
}

/// `c` with an ASCII capital letter made small.
pub open spec fn ascii_lower(c: char) -> char {
    if 'A' <= c && c <= 'Z' {
        ((c as u32) + 32) as char
    } else {
        c
    }
}

/// `s` with every ASCII capital letter made small.
pub open spec fn lowered(s: Seq<char>) -> Seq<char> {
    s.map_values(|c: char| ascii_lower(c))
}

fn lower_char(c: char) -> (l: char)
    ensures
        l == ascii_lower(c),
{
    if 'A' <= c && c <= 'Z' {
        ((c as u8) + 32) as char
    } else {
        c
    }
}

/// Whether `s`, with ASCII capitals made small, reads `word`.
pub fn reads_as(s: &str, word: &str) -> (same: bool)
    ensures
        same == (lowered(s@) == word@),
{
    let left = chars_of(s);
    let right = chars_of(word);
    if left.len() != right.len() {
        assert(lowered(s@).len() != word@.len());
        return false;
    }
    let mut i: usize = 0;
    while i < left.len()
        invariant
            i <= left.len(),
            left.len() == right.len(),
            left@ == s@,
            right@ == word@,
            forall|k: int| 0 <= k < i ==> lowered(s@)[k] == word@[k],
        decreases left.len() - i,
    {
        if lower_char(left[i]) != right[i] {
            assert(lowered(s@)[i as int] != word@[i as int]);
            return false;
        }
        i += 1;
    }
    assert(lowered(s@) =~= word@);
    true
}

/// Unicode white space, as trimming understands it.
pub open spec fn is_space(c: char) -> bool {
    let u = c as u32;
    ||| 0x09 <= u <= 0x0d
    ||| u == 0x20
    ||| u == 0x85
    ||| u == 0xa0
    ||| u == 0x1680
    ||| 0x2000 <= u <= 0x200a
    ||| u == 0x2028
    ||| u == 0x2029
    ||| u == 0x202f
    ||| u == 0x205f
    ||| u == 0x3000
}

fn space_char(c: char) -> (space: bool)
    ensures
        space == is_space(c),
{
    let u: u32 = c as u32;
    (0x09 <= u && u <= 0x0d) || u == 0x20 || u == 0x85 || u == 0xa0 || u == 0x1680 || (0x2000 <= u
        && u <= 0x200a) || u == 0x2028 || u == 0x2029 || u == 0x202f || u == 0x205f || u == 0x3000
}

/// `s` without white space at either end.
pub open spec fn trimmed(s: Seq<char>) -> Seq<char>
    decreases s.len(),
{
    if s.len() == 0 {
        s
    } else if is_space(s[0]) {
        trimmed(s.drop_first())
    } else if is_space(s.last()) {
        trimmed(s.drop_last())
    } else {
        s
    }
}

/// The bounds of what trimming leaves of `chars[from..to]`.
pub fn trim_range(chars: &Vec<char>, from: usize, to: usize) -> (kept: (usize, usize))
    requires
        from <= to <= chars@.len(),
    ensures
        from <= kept.0 <= kept.1 <= to,
        chars@.subrange(kept.0 as int, kept.1 as int) == trimmed(
            chars@.subrange(from as int, to as int),
        ),
{
    let ghost whole = chars@.subrange(from as int, to as int);
    let mut a: usize = from;
    let mut b: usize = to;
    while a < b && space_char(chars[a])
        invariant
            from <= a <= b,
            b == to,
            to <= chars@.len(),
            trimmed(whole) == trimmed(chars@.subrange(a as int, b as int)),
        decreases b - a,
    {
        assert(chars@.subrange(a as int, b as int).drop_first() =~= chars@.subrange(
            a + 1,
            b as int,
        ));
        a += 1;
    }
    while a < b && space_char(chars[b - 1])
        invariant
            from <= a <= b <= to,
            to <= chars@.len(),
            a < b ==> !is_space(chars@[a as int]),
            trimmed(whole) == trimmed(chars@.subrange(a as int, b as int)),
        decreases b - a,
    {
        assert(chars@.subrange(a as int, b as int).drop_last() =~= chars@.subrange(
            a as int,
            b - 1,
        ));
        b -= 1;
    }
    (a, b)
}

/// Whether trimming leaves nothing of `s`.
pub fn is_blank(s: &str) -> (blank: bool)
    ensures
        blank == (trimmed(s@).len() == 0),
{
    let chars = chars_of(s);
    let (from, to) = trim_range(&chars, 0, chars.len());
    proof {
        assert(chars@.subrange(0, chars@.len() as int) =~= s@);
    }
    from == to
}

/// What trimming leaves of `s`.
pub fn trim_text<'a>(s: &'a str) -> (kept: &'a str)
    ensures
        kept@ == trimmed(s@),
{
    let chars = chars_of(s);
    let (from, to) = trim_range(&chars, 0, chars.len());
    proof {
        assert(chars@.subrange(0, chars@.len() as int) =~= s@);
    }
    s.substring_char(from, to)
}

/// The value of a run of decimal digits; `None` where another character occurs.
pub open spec fn digits_value(s: Seq<char>) -> Option<nat>
    decreases s.len(),
{
    if s.len() == 0 {
        Some(0)
    } else {
        match digits_value(s.drop_last()) {
            Some(value) if '0' <= s.last() && s.last() <= '9' => Some(
                value * 10 + ((s.last() as nat) - ('0' as nat)) as nat,
            ),
            _ => None,
        }
    }
}

/// The number that `s` spells: decimal digits, at least one, after an optional
/// plus sign, with a value that fits in a `usize`.
pub open spec fn parsed_usize(s: Seq<char>) -> Option<usize> {
    let digits = if s.len() > 0 && s[0] == '+' {
        s.drop_first()
    } else {
        s
    };
    match digits_value(digits) {
        Some(value) if digits.len() > 0 && value <= usize::MAX => Some(value as usize),
        _ => None,
    }
}

proof fn lemma_digits_prefix(s: Seq<char>, i: int)
    requires
        0 <= i <= s.len(),
    ensures
        digits_value(s.take(i)) is None ==> digits_value(s) is None,
        digits_value(s) is Some ==> digits_value(s)->0 >= digits_value(s.take(i))->0,
    decreases s.len(),
{
    if i < s.len() {
        lemma_digits_prefix(s.drop_last(), i);
        assert(s.drop_last().take(i) =~= s.take(i));
    } else {
        assert(s.take(i) =~= s);
    }
}

/// Reads `chars[from..to]` as a number.
pub fn parse_usize(chars: &Vec<char>, from: usize, to: usize) -> (number: Option<usize>)
    requires
        from <= to <= chars@.len(),
    ensures
        number == parsed_usize(chars@.subrange(from as int, to as int)),
{
    let ghost text = chars@.subrange(from as int, to as int);
    let start: usize = if from < to && chars[from] == '+' {
        from + 1
    } else {
        from
    };
    let ghost digits = chars@.subrange(start as int, to as int);
    proof {
        if start != from {
            assert(digits =~= text.drop_first());
        }
    }
    if start == to {
        return None;
    }
    let mut value: usize = 0;
    let mut i: usize = start;
    assert(digits.take(0) =~= Seq::<char>::empty());
    while i < to
        invariant
            start <= i <= to <= chars@.len(),
            start < to,
            text == chars@.subrange(from as int, to as int),
            digits == chars@.subrange(start as int, to as int),
            digits == (if text.len() > 0 && text[0] == '+' {
                text.drop_first()
            } else {
                text
            }),
            digits_value(digits.take(i - start)) == Some(value as nat),
        decreases to - i,
    {
        let c = chars[i];
        proof {
            assert(digits.take(i + 1 - start).drop_last() =~= digits.take(i - start));
            assert(digits.take(i + 1 - start).last() == c);
            lemma_digits_prefix(digits, i + 1 - start);
        }
        if c < '0' || c > '9' {
            return None;
        }
        let d: usize = (c as u32 - '0' as u32) as usize;
        match value.checked_mul(10) {
            None => return None,
            Some(tenfold) => match tenfold.checked_add(d) {
                None => return None,
                Some(sum) => {
                    value = sum;
                },
            },
        }
        i += 1;
    }
    assert(digits.take(to - start) =~= digits);
    Some(value)
}

/// The pieces of `s` between separators, in order; there is always one more
/// piece than there are separators.
pub open spec fn pieces(s: Seq<char>, separator: char) -> Seq<Seq<char>>
    decreases s.len(),
{
    if s.len() == 0 {
        seq![s]
    } else {
        let before = pieces(s.drop_last(), separator);
        if s.last() == separator {
            before.push(Seq::empty())
        } else {
            before.drop_last().push(before.last().push(s.last()))
        }
    }
}

/// The pieces of `chars` that the bounds in `ranges` delimit.
pub open spec fn slices_of(chars: Seq<char>, ranges: Seq<(usize, usize)>) -> Seq<Seq<char>> {
    Seq::new(ranges.len(), |k: int| chars.subrange(ranges[k].0 as int, ranges[k].1 as int))
}

/// The bounds of the pieces of `chars`.
pub fn split_ranges(chars: &Vec<char>, separator: char) -> (ranges: Vec<(usize, usize)>)
    ensures
        ranges@.len() > 0,
        forall|k: int|
            0 <= k < ranges@.len() ==> (#[trigger] ranges@[k]).0 <= ranges@[k].1
                && ranges@[k].1 <= chars@.len(),
        slices_of(chars@, ranges@) == pieces(chars@, separator),
{
    let mut ranges: Vec<(usize, usize)> = Vec::new();
    let mut start: usize = 0;
    let mut i: usize = 0;
    assert(slices_of(chars@, ranges@).push(chars@.subrange(0, 0)) =~= pieces(
        chars@.take(0),
        separator,
    ));
    while i < chars.len()
        invariant
            start <= i <= chars@.len(),
            forall|k: int|
                0 <= k < ranges@.len() ==> (#[trigger] ranges@[k]).0 <= ranges@[k].1
                    && ranges@[k].1 <= chars@.len(),
            slices_of(chars@, ranges@).push(chars@.subrange(start as int, i as int)) == pieces(
                chars@.take(i as int),
                separator,
            ),
        decreases chars@.len() - i,
    {
        let ghost done = slices_of(chars@, ranges@);
        let ghost open = chars@.subrange(start as int, i as int);
        assert(chars@.take(i + 1).drop_last() =~= chars@.take(i as int));
        assert(done.push(open).drop_last() =~= done);
        if chars[i] == separator {
            ranges.push((start, i));
            start = i + 1;
            assert(slices_of(chars@, ranges@) =~= done.push(open));
            assert(chars@.subrange(start as int, i + 1) =~= Seq::<char>::empty());
        } else {
            assert(chars@.subrange(start as int, i + 1) =~= open.push(chars@[i as int]));
        }
        i += 1;
    }
    let ghost done = slices_of(chars@, ranges@);
    ranges.push((start, i));
    assert(chars@.take(i as int) =~= chars@);
    assert(slices_of(chars@, ranges@) =~= done.push(chars@.subrange(start as int, i as int)));
    ranges
}

/// Whether `s` begins with `prefix`.
pub open spec fn begins_with(s: Seq<char>, prefix: Seq<char>) -> bool {
    prefix.len() <= s.len() && s.take(prefix.len() as int) == prefix
}

pub fn starts_with(s: &str, prefix: &str) -> (yes: bool)
    ensures
        yes == begins_with(s@, prefix@),
{
    let text: Vec<char> = chars_of(s);
    let start: Vec<char> = chars_of(prefix);
    if start.len() > text.len() {
        return false;
    }
    let mut i: usize = 0;
    while i < start.len()
        invariant
            i <= start@.len() <= text@.len(),
            text@ == s@,
            start@ == prefix@,
            forall|k: int| 0 <= k < i ==> text@[k] == start@[k],
        decreases start@.len() - i,
    {
        if text[i] != start[i] {
            assert(s@.take(prefix@.len() as int)[i as int] != prefix@[i as int]);
            return false;
        }
        i += 1;
    }
    assert(s@.take(prefix@.len() as int) =~= prefix@);
    true
}

/// Decimal notation: one digit for a number below ten, and one digit more for ten times a
/// number and a rest below ten. It holds digits only, at least one.
pub proof fn law_decimal_notation(n: nat, d: nat)
    requires
        d < 10,
    ensures
        n > 0 ==> decimal(n * 10 + d) == decimal(n).push(((('0' as nat) + d) as char)),
        decimal(d) == seq![((('0' as nat) + d) as char)],
        decimal(n).len() > 0,
        forall|k: int| 0 <= k < decimal(n).len() ==> '0' <= #[trigger] decimal(n)[k] <= '9',
    decreases n,
{
    assert(n > 0 ==> (n * 10 + d) / 10 == n && (n * 10 + d) % 10 == d);
    if n >= 10 {
        law_decimal_notation(n / 10, 0);
        assert forall|k: int| 0 <= k < decimal(n).len() implies '0' <= #[trigger] decimal(n)[k]
            <= '9' by {
            if k < decimal(n / 10).len() {
                assert(decimal(n)[k] == decimal(n / 10)[k]);
            }
        }
    }
}

/// What is written in decimal notation is read back, with or without a plus sign in front.
pub proof fn law_numbers_are_read_back(n: usize)
    ensures
        parsed_usize(decimal(n as nat)) == Some(n),
        parsed_usize(seq!['+'] + decimal(n as nat)) == Some(n),
{
    lemma_digits_of_decimal(n as nat);
    law_decimal_notation(n as nat, 0);
    let signed = seq!['+'] + decimal(n as nat);
    assert(signed.drop_first() =~= decimal(n as nat));
    assert(decimal(n as nat)[0] != '+');
}

proof fn lemma_digits_of_decimal(n: nat)
    ensures
        digits_value(decimal(n)) == Some(n),
    decreases n,
{
    if n < 10 {
        let s = decimal(n);
        assert(s.drop_last() =~= Seq::<char>::empty());
        assert(digits_value(s.drop_last()) == Some(0nat));
        assert(s.last() == digit_char(n));
    } else {
        lemma_digits_of_decimal(n / 10);
        assert(decimal(n).drop_last() =~= decimal(n / 10));
        assert(decimal(n).last() == digit_char(n % 10));
    }
}

/// A text that holds anything but digits behind an optional plus sign spells no number, and
/// neither does one without a digit.
pub proof fn law_only_digits_spell_numbers(s: Seq<char>)
    ensures
        parsed_usize(s) is Some ==> s.len() > 0 && s.last() != '+' && forall|k: int|
            1 <= k < s.len() ==> '0' <= #[trigger] s[k] <= '9',
        parsed_usize(s) is Some ==> s[0] == '+' || '0' <= s[0] <= '9',
{
    let digits = if s.len() > 0 && s[0] == '+' {
        s.drop_first()
    } else {
        s
    };
    lemma_digits_only(digits);
    if parsed_usize(s) is Some {
        assert forall|k: int| 1 <= k < s.len() implies '0' <= #[trigger] s[k] <= '9' by {
            if s[0] == '+' {
                assert(digits[k - 1] == s[k]);
            }
        }
        assert(s.last() == digits.last());
        assert(digits.last() == digits[digits.len() - 1]);
    }
}

proof fn lemma_digits_only(s: Seq<char>)
    ensures
        digits_value(s) is Some ==> forall|k: int| 0 <= k < s.len() ==> '0' <= #[trigger] s[k] <= '9',
    decreases s.len(),
{
    if s.len() > 0 {
        lemma_digits_only(s.drop_last());
        if digits_value(s) is Some {
            assert forall|k: int| 0 <= k < s.len() implies '0' <= #[trigger] s[k] <= '9' by {
                if k < s.len() - 1 {
                    assert(s.drop_last()[k] == s[k]);
                }
            }
        }
    }
}

proof fn lemma_trim_bounds(s: Seq<char>) -> (bounds: (int, int))
    ensures
        0 <= bounds.0 <= bounds.1 <= s.len(),
        trimmed(s) == s.subrange(bounds.0, bounds.1),
        forall|k: int| 0 <= k < bounds.0 ==> is_space(#[trigger] s[k]),
        forall|k: int| bounds.1 <= k < s.len() ==> is_space(#[trigger] s[k]),
        bounds.0 < bounds.1 ==> !is_space(s[bounds.0]) && !is_space(s[bounds.1 - 1]),
    decreases s.len(),
{
    if s.len() == 0 {
        assert(s.subrange(0, 0) =~= s);
        (0, 0)
    } else if is_space(s[0]) {
        let rest = s.drop_first();
        let (a, b) = lemma_trim_bounds(rest);
        assert(s.subrange(a + 1, b + 1) =~= rest.subrange(a, b));
        assert(forall|k: int| 0 < k < s.len() ==> #[trigger] s[k] == rest[k - 1]);
        (a + 1, b + 1)
    } else if is_space(s.last()) {
        let rest = s.drop_last();
        let (a, b) = lemma_trim_bounds(rest);
        assert(s.subrange(a, b) =~= rest.subrange(a, b));
        assert(forall|k: int| 0 <= k < rest.len() ==> #[trigger] s[k] == rest[k]);
        (a, b)
    } else {
        assert(s.subrange(0, s.len() as int) =~= s);
        (0, s.len() as int)
    }
}

/// Trimming leaves a stretch of the text: white space only before and behind it, and none
/// at its ends.
pub proof fn law_trimming_removes_white_space_at_the_ends(s: Seq<char>)
    ensures
        exists|a: int, b: int|
            0 <= a <= b <= s.len() && trimmed(s) == #[trigger] s.subrange(a, b) && (forall|k: int|
                (0 <= k < a || b <= k < s.len()) ==> is_space(#[trigger] s[k])),
        trimmed(s).len() > 0 ==> !is_space(trimmed(s)[0]) && !is_space(trimmed(s).last()),
        trimmed(s).len() == 0 <==> forall|k: int| 0 <= k < s.len() ==> is_space(#[trigger] s[k]),
{
    let (a, b) = lemma_trim_bounds(s);
    assert(trimmed(s) == s.subrange(a, b));
    if a < b {
        assert(!is_space(s[a]));
        assert(trimmed(s)[0] == s[a]);
        assert(trimmed(s).last() == s[b - 1]);
    }
}

/// Of the ASCII characters, the space and those from the tab to the carriage return are
/// white space.
pub proof fn law_ascii_white_space(c: char)
    requires
        c <= '\u{7f}',
    ensures
        is_space(c) <==> c == ' ' || '\t' <= c <= '\r',
{
}

/// Text without a separator is one piece; text with one has the pieces of what stands
/// before it and then those of what stands behind it.
pub proof fn law_pieces_lie_between_separators(a: Seq<char>, b: Seq<char>, separator: char)
    ensures
        !a.contains(separator) ==> pieces(a, separator) == seq![a],
        pieces(a.push(separator) + b, separator) == pieces(a, separator) + pieces(b, separator),
    decreases b.len(), a.len(),
{
    lemma_pieces_len(a, separator);
    lemma_pieces_len(b, separator);
    if !a.contains(separator) && a.len() > 0 {
        let less = a.drop_last();
        assert(!less.contains(separator)) by {
            if less.contains(separator) {
                let k = choose|k: int| 0 <= k < less.len() && less[k] == separator;
                assert(a[k] == separator);
            }
        }
        law_pieces_lie_between_separators(less, Seq::empty(), separator);
        assert(a.last() != separator) by {
            assert(a[a.len() - 1] == a.last());
        }
        assert(pieces(less, separator).drop_last() =~= Seq::<Seq<char>>::empty());
        assert(less.push(a.last()) =~= a);
        assert(pieces(a, separator) =~= seq![a]);
    }
    let whole = a.push(separator) + b;
    if b.len() == 0 {
        assert(whole =~= a.push(separator));
        assert(whole.drop_last() =~= a);
        assert(b =~= Seq::<char>::empty());
        assert(pieces(whole, separator) =~= pieces(a, separator) + pieces(b, separator));
    } else {
        law_pieces_lie_between_separators(a, b.drop_last(), separator);
        assert(whole.drop_last() =~= a.push(separator) + b.drop_last());
        let before = pieces(b.drop_last(), separator);
        lemma_pieces_len(b.drop_last(), separator);
        let all = pieces(a, separator) + before;
        assert(all.last() == before.last());
        assert(all.drop_last() =~= pieces(a, separator) + before.drop_last());
        assert(pieces(whole, separator) =~= pieces(a, separator) + pieces(b, separator));
    }
}

proof fn lemma_pieces_len(s: Seq<char>, separator: char)
    ensures
        pieces(s, separator).len() > 0,
    decreases s.len(),
{
    if s.len() > 0 {
        lemma_pieces_len(s.drop_last(), separator);
    }
}

/// Making capitals small changes the ASCII capitals only, each into its own small letter,
/// and nothing more the second time.
pub proof fn law_capitals_are_made_small(s: Seq<char>)
    ensures
        lowered(s).len() == s.len(),
        forall|k: int|
            0 <= k < s.len() ==> if 'A' <= s[k] <= 'Z' {
                (#[trigger] lowered(s)[k]) as u32 - 'a' as u32 == s[k] as u32 - 'A' as u32
            } else {
                lowered(s)[k] == s[k]
            },
        lowered(lowered(s)) == lowered(s),
{
    assert(lowered(lowered(s)) =~= lowered(s));
}

/// A text begins with a prefix exactly if it is the prefix and something behind it.
pub proof fn law_a_text_is_its_prefix_and_the_rest(s: Seq<char>, prefix: Seq<char>, rest: Seq<char>)
    ensures
        begins_with(prefix + rest, prefix),
        begins_with(s, prefix) ==> prefix + s.skip(prefix.len() as int) == s,
{
    assert((prefix + rest).take(prefix.len() as int) =~= prefix);
    if begins_with(s, prefix) {
        assert(prefix + s.skip(prefix.len() as int) =~= s);
    }
}

/// Whether `line` says `value` directly behind `name`.
pub open spec fn says(line: Seq<char>, name: Seq<char>, value: Seq<char>) -> bool {
    exists|at: int|
        #![trigger line.subrange(at, at + name.len())]
        {
            &&& 0 <= at && at + name.len() + value.len() <= line.len()
            &&& line.subrange(at, at + name.len()) == name
            &&& line.subrange(at + name.len(), at + name.len() + value.len()) == value
        }
}

/// A value that is appended behind its name is said.
pub proof fn lemma_says(before: Seq<char>, name: Seq<char>, value: Seq<char>)
    ensures
        says(before + name + value, name, value),
{
    let line = before + name + value;
    let at = before.len() as int;
    assert(line.subrange(at, at + name.len()) =~= name);
    assert(line.subrange(at + name.len(), at + name.len() + value.len()) =~= value);
}

/// What a line says it says with more behind it.
pub proof fn lemma_says_more(line: Seq<char>, name: Seq<char>, value: Seq<char>, more: Seq<char>)
    requires
        says(line, name, value),
    ensures
        says(line + more, name, value),
{
    let at = choose|at: int|
        #![trigger line.subrange(at, at + name.len())]
        {
            &&& 0 <= at && at + name.len() + value.len() <= line.len()
            &&& line.subrange(at, at + name.len()) == name
            &&& line.subrange(at + name.len(), at + name.len() + value.len()) == value
        };
    assert((line + more).subrange(at, at + name.len()) =~= line.subrange(at, at + name.len()));
    assert((line + more).subrange(at + name.len(), at + name.len() + value.len())
        =~= line.subrange(at + name.len(), at + name.len() + value.len()));
}

/// Texts that are put behind another can be joined first.
pub proof fn lemma_joined(before: Seq<char>, a: Seq<char>, b: Seq<char>)
    ensures
        before + a + b == before + (a + b),
{
    assert(before + a + b =~= before + (a + b));
}

/// A line begins with itself.
pub proof fn lemma_begins_with_itself(line: Seq<char>)
    ensures
        begins_with(line, line),
{
    assert(line.take(line.len() as int) =~= line);
}

/// A line that begins with a name and a value says the value.
pub proof fn lemma_says_at_the_start(line: Seq<char>, name: Seq<char>, value: Seq<char>)
    requires
        begins_with(line, name + value),
    ensures
        says(line, name, value),
{
    assert(Seq::<char>::empty() + name + value =~= name + value);
    lemma_says_at_the_end(line, Seq::empty(), name, value);
}

/// A line that begins with a text, a name and a value says the value, and begins with the
/// text.
pub proof fn lemma_says_at_the_end(
    line: Seq<char>,
    before: Seq<char>,
    name: Seq<char>,
    value: Seq<char>,
)
    requires
        begins_with(line, before + name + value),
    ensures
        says(line, name, value),
        begins_with(line, before),
{
    let part = before + name + value;
    let rest = line.skip(part.len() as int);
    assert(line =~= part + rest);
    lemma_says(before, name, value);
    lemma_says_more(part, name, value, rest);
    assert(line.take(before.len() as int) =~= before);
}

} // verus!
