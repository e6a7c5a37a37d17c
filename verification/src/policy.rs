//! How runtime switches and layer lists are read.

use crate::text::{
    chars_of, decimal, law_capitals_are_made_small, law_decimal_notation,
    law_numbers_are_read_back, law_pieces_lie_between_separators, lowered, parse_usize, parsed_usize, pieces, reads_as, same_text, slices_of,
    split_ranges, trim_range, trimmed,
};
use vstd::prelude::*;

verus! {

/// The words that switch something off, in any ASCII case.
pub open spec fn is_falsey(value: Seq<char>) -> bool {
    ||| lowered(value) == "0"@
    ||| lowered(value) == "false"@
    ||| lowered(value) == "off"@
    ||| lowered(value) == "no"@
}

/// The words that switch something on, in any ASCII case.
pub open spec fn is_truthy(value: Seq<char>) -> bool {
    ||| lowered(value) == "1"@
    ||| lowered(value) == "true"@
    ||| lowered(value) == "on"@
    ||| lowered(value) == "yes"@
}

pub fn falsey(value: &str) -> (off: bool)
    ensures
        off == is_falsey(value@),
{
    reads_as(value, "0") || reads_as(value, "false") || reads_as(value, "off") || reads_as(
        value,
        "no",
    )
}

pub fn truthy(value: &str) -> (on: bool)
    ensures
        on == is_truthy(value@),
{
    reads_as(value, "1") || reads_as(value, "true") || reads_as(value, "on") || reads_as(
        value,
        "yes",
    )
}

/// A switch that is set to one of the words that switch off.
pub open spec fn switched_off(value: Option<&str>) -> bool {
    value matches Some(text) && is_falsey(text@)
}

/// A switch that is set to one of the words that switch on.
pub open spec fn switched_on(value: Option<&str>) -> bool {
    value matches Some(text) && is_truthy(text@)
}

/// A switch that holds exactly the text `word`.
pub open spec fn set_to(value: Option<&str>, word: Seq<char>) -> bool {
    value matches Some(text) && text@ == word
}

/// Whether a switch is set to a word that switches off.
pub fn env_falsey(value: Option<&str>) -> (off: bool)
    ensures
        off == switched_off(value),
{
    match value {
        Some(text) => falsey(text),
        None => false,
    }
}

/// Whether a switch is set to a word that switches on.
pub fn env_truthy(value: Option<&str>) -> (on: bool)
    ensures
        on == switched_on(value),
{
    match value {
        Some(text) => truthy(text),
        None => false,
    }
}

/// Whether a switch holds exactly `word`.
pub fn env_is(value: Option<&str>, word: &str) -> (same: bool)
    ensures
        same == set_to(value, word@),
{
    match value {
        Some(text) => same_text(text, word),
        None => false,
    }
}

/// A switch that any value but a falsey one turns on, and that holds `default`
/// where it is not set.
pub open spec fn unless_falsey(value: Option<&str>, default: bool) -> bool {
    match value {
        Some(text) => !is_falsey(text@),
        None => default,
    }
}

pub fn env_unless_falsey(value: Option<&str>, default: bool) -> (on: bool)
    ensures
        on == unless_falsey(value, default),
{
    match value {
        Some(text) => !falsey(text),
        None => default,
    }
}

/// Whether one entry of a layer list names `layer`: a number, or two numbers
/// with a hyphen between them for every layer from the first to the second.
pub open spec fn entry_names(entry: Seq<char>, layer: usize) -> bool {
    let bounds = pieces(trimmed(entry), '-');
    if bounds.len() == 1 {
        parsed_usize(bounds[0]) == Some(layer)
    } else {
        &&& bounds.len() == 2
        &&& parsed_usize(trimmed(bounds[0])) matches Some(first)
        &&& parsed_usize(trimmed(bounds[1])) matches Some(last)
        &&& first <= layer <= last
    }
}

/// Whether a comma-separated layer list names `layer`.
pub open spec fn list_names(list: Seq<char>, layer: usize) -> bool {
    exists|k: int|
        0 <= k < pieces(list, ',').len() && entry_names(#[trigger] pieces(list, ',')[k], layer)
}

fn entry_matches(entry: &Vec<char>, layer: usize) -> (named: bool)
    ensures
        named == entry_names(entry@, layer),
{
    let (from, to) = trim_range(entry, 0, entry.len());
    assert(entry@.subrange(0, entry@.len() as int) =~= entry@);
    let kept = copy_range(entry, from, to);
    let bounds = split_ranges(&kept, '-');
    let ghost parts = pieces(kept@, '-');
    assert(parts.len() == bounds@.len());
    if bounds.len() == 1 {
        let (a, b) = bounds[0];
        assert(parts[0] == kept@.subrange(a as int, b as int));
        match parse_usize(&kept, a, b) {
            Some(number) => number == layer,
            None => false,
        }
    } else if bounds.len() == 2 {
        let (a, b) = bounds[0];
        let (c, d) = bounds[1];
        assert(parts[0] == kept@.subrange(a as int, b as int));
        assert(parts[1] == kept@.subrange(c as int, d as int));
        let (a, b) = trim_range(&kept, a, b);
        let (c, d) = trim_range(&kept, c, d);
        match (parse_usize(&kept, a, b), parse_usize(&kept, c, d)) {
            (Some(first), Some(last)) => first <= layer && layer <= last,
            _ => false,
        }
    } else {
        false
    }
}

/// A copy of `chars[from..to]`.
pub(crate) fn copy_range(chars: &Vec<char>, from: usize, to: usize) -> (copy: Vec<char>)
    requires
        from <= to <= chars@.len(),
    ensures
        copy@ == chars@.subrange(from as int, to as int),
{
    let mut copy: Vec<char> = Vec::new();
    let mut i: usize = from;
    while i < to
        invariant
            from <= i <= to <= chars@.len(),
            copy@ == chars@.subrange(from as int, i as int),
        decreases to - i,
    {
        copy.push(chars[i]);
        i += 1;
        assert(copy@ =~= chars@.subrange(from as int, i as int));
    }
    copy
}

/// Whether the layer list `spec` names `layer`.
///
/// A list holds numbers and ranges such as `1,3-5,8`; an entry that is neither
/// names nothing, and neither does a range whose bounds are the wrong way round.
pub fn layer_matches_spec(spec: &str, layer: usize) -> (named: bool)
    ensures
        named == list_names(spec@, layer),
{
    let chars = chars_of(spec);
    let ranges = split_ranges(&chars, ',');
    let ghost parts = pieces(spec@, ',');
    let mut k: usize = 0;
    while k < ranges.len()
        invariant
            chars@ == spec@,
            parts == pieces(spec@, ','),
            parts == slices_of(chars@, ranges@),
            k <= ranges@.len(),
            forall|j: int|
                0 <= j < ranges@.len() ==> (#[trigger] ranges@[j]).0 <= ranges@[j].1
                    && ranges@[j].1 <= chars@.len(),
            forall|j: int| 0 <= j < k ==> !entry_names(#[trigger] parts[j], layer),
        decreases ranges@.len() - k,
    {
        let (from, to) = ranges[k];
        let entry = copy_range(&chars, from, to);
        assert(entry@ == parts[k as int]);
        if entry_matches(&entry, layer) {
            return true;
        }
        k += 1;
    }
    false
}

/// The case of letters makes no difference to a switch.
pub proof fn law_switches_ignore_case(value: Seq<char>)
    ensures
        is_falsey(value) <==> is_falsey(lowered(value)),
        is_truthy(value) <==> is_truthy(lowered(value)),
{
    law_capitals_are_made_small(value);
}

/// The words that switch off are `0`, `false`, `off` and `no`; those that switch on are
/// `1`, `true`, `on` and `yes`. A switch that is not set is neither on nor off.
pub proof fn law_the_words_of_a_switch(value: Option<&str>)
    ensures
        switched_off(value) <==> value is Some && (lowered(value->0@) == "0"@ || lowered(value->0@)
            == "false"@ || lowered(value->0@) == "off"@ || lowered(value->0@) == "no"@),
        switched_on(value) <==> value is Some && (lowered(value->0@) == "1"@ || lowered(value->0@)
            == "true"@ || lowered(value->0@) == "on"@ || lowered(value->0@) == "yes"@),
        switched_on(value) ==> !switched_off(value),
        unless_falsey(value, true) <==> !switched_off(value),
        unless_falsey(value, false) <==> value is Some && !switched_off(value),
        forall|word: Seq<char>| #[trigger] set_to(value, word) <==> value is Some && value->0@ == word,
{
    reveal_strlit("0");
    reveal_strlit("false");
    reveal_strlit("off");
    reveal_strlit("no");
    reveal_strlit("1");
    reveal_strlit("true");
    reveal_strlit("on");
    reveal_strlit("yes");
    if let Some(text) = value {
        let read = lowered(text@);
        if read == "on"@ {
            assert(read[1] == 'n');
            assert("no"@[0] == 'n');
        }
        if read == "1"@ {
            assert(read[0] == '1');
        }
        if read == "yes"@ {
            assert(read[0] == 'y');
        }
        if read == "true"@ {
            assert(read.len() == 4);
        }
        if read == "on"@ {
            assert(read[0] == 'o');
        }
    }
}

proof fn lemma_decimal_is_plain(n: usize)
    ensures
        trimmed(decimal(n as nat)) == decimal(n as nat),
        !decimal(n as nat).contains('-'),
        !decimal(n as nat).contains(','),
{
    let digits = decimal(n as nat);
    law_decimal_notation(n as nat, 0);
    assert('0' <= digits[0] <= '9');
    assert('0' <= digits[digits.len() - 1] <= '9');
    if digits.contains('-') {
        let k = choose|k: int| 0 <= k < digits.len() && digits[k] == '-';
        assert('0' <= digits[k] <= '9');
    }
    if digits.contains(',') {
        let k = choose|k: int| 0 <= k < digits.len() && digits[k] == ',';
        assert('0' <= digits[k] <= '9');
    }
}

/// A list of one number names that layer and no other.
pub proof fn law_a_number_names_its_layer(n: usize, layer: usize)
    ensures
        list_names(decimal(n as nat), layer) <==> layer == n,
{
    lemma_decimal_is_plain(n);
    law_numbers_are_read_back(n);
    law_pieces_lie_between_separators(decimal(n as nat), Seq::empty(), ',');
    law_pieces_lie_between_separators(decimal(n as nat), Seq::empty(), '-');
    let parts = pieces(decimal(n as nat), ',');
    assert(parts[0] == decimal(n as nat));
    assert(entry_names(parts[0], layer) <==> layer == n);
}

/// A list of one range names the layers from its first to its last, both among them.
pub proof fn law_a_range_names_its_layers(first: usize, last: usize, layer: usize)
    ensures
        list_names(decimal(first as nat).push('-') + decimal(last as nat), layer) <==> first <= layer
            <= last,
{
    let a = decimal(first as nat);
    let b = decimal(last as nat);
    let text = a.push('-') + b;
    lemma_decimal_is_plain(first);
    lemma_decimal_is_plain(last);
    law_numbers_are_read_back(first);
    law_numbers_are_read_back(last);
    law_decimal_notation(first as nat, 0);
    law_decimal_notation(last as nat, 0);
    law_pieces_lie_between_separators(a, b, '-');
    law_pieces_lie_between_separators(b, a, '-');
    assert(!text.contains(',')) by {
        if text.contains(',') {
            let k = choose|k: int| 0 <= k < text.len() && text[k] == ',';
            if k < a.len() {
                assert(a[k] == ',');
            } else if k > a.len() {
                assert(b[k - a.len() - 1] == ',');
            }
        }
    }
    law_pieces_lie_between_separators(text, Seq::empty(), ',');
    assert(text[0] == a[0] && text.last() == b.last());
    assert('0' <= a[0] <= '9');
    assert('0' <= b[b.len() - 1] <= '9');
    assert(trimmed(text) == text);
    let parts = pieces(text, ',');
    assert(parts[0] == text);
    let bounds = pieces(text, '-');
    assert(bounds =~= seq![a, b]);
    assert(entry_names(parts[0], layer) <==> first <= layer <= last);
}

/// A list with a comma names what the list before it or the list behind it names.
pub proof fn law_a_list_names_what_its_parts_name(a: Seq<char>, b: Seq<char>, layer: usize)
    ensures
        list_names(a.push(',') + b, layer) <==> list_names(a, layer) || list_names(b, layer),
{
    law_pieces_lie_between_separators(a, b, ',');
    let left = pieces(a, ',');
    let right = pieces(b, ',');
    let all = pieces(a.push(',') + b, ',');
    if list_names(a, layer) {
        let k = choose|k: int| 0 <= k < left.len() && entry_names(#[trigger] left[k], layer);
        assert(all[k] == left[k]);
    }
    if list_names(b, layer) {
        let k = choose|k: int| 0 <= k < right.len() && entry_names(#[trigger] right[k], layer);
        assert(all[left.len() + k] == right[k]);
    }
    if list_names(a.push(',') + b, layer) {
        let k = choose|k: int| 0 <= k < all.len() && entry_names(#[trigger] all[k], layer);
        if k < left.len() {
            assert(left[k] == all[k]);
        } else {
            assert(right[k - left.len()] == all[k]);
        }
    }
}

} // verus!
