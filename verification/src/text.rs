//! Text primitives over sequences of characters: searching, prefixes,
//! digit runs and decimal rendering.

use vstd::prelude::*;
use vstd::string::StringExecFns;
use vstd::string::StrSliceExecFns;

verus! {

/// `needle` stands in `hay` at position `at`.
pub open spec fn occurs_at(hay: Seq<char>, needle: Seq<char>, at: int) -> bool {
    &&& 0 <= at
    &&& at + needle.len() <= hay.len()
    &&& hay.subrange(at, at + needle.len()) == needle
}

/// `needle` stands somewhere in `hay`.
pub open spec fn contains(hay: Seq<char>, needle: Seq<char>) -> bool {
    exists|at: int| occurs_at(hay, needle, at)
}

/// `hay` begins with `prefix`.
pub open spec fn starts_with(hay: Seq<char>, prefix: Seq<char>) -> bool {
    occurs_at(hay, prefix, 0)
}

/// `at` is the first position at which `needle` stands in `hay`.
pub open spec fn first_occurrence(hay: Seq<char>, needle: Seq<char>, at: int) -> bool {
    &&& occurs_at(hay, needle, at)
    &&& forall|earlier: int| 0 <= earlier < at ==> !occurs_at(hay, needle, earlier)
}

/// The characters of a string, in order.
pub fn to_chars(s: &str) -> (chars: Vec<char>)
    ensures
        chars@ == s@,
{
    let mut chars: Vec<char> = Vec::new();
    for c in it: s.chars()
        invariant
            chars@ == it.seq().take(it.index() as int),
    {
        chars.push(c);
    }
    chars
}

/// Whether `needle` stands in `hay` at `at`.
pub fn matches_at(hay: &Vec<char>, needle: &Vec<char>, at: usize) -> (found: bool)
    ensures
        found == occurs_at(hay@, needle@, at as int),
{
    if needle.len() > hay.len() || at > hay.len() - needle.len() {
        return false;
    }
    let mut k: usize = 0;
    while k < needle.len()
        invariant
            k <= needle.len(),
            at + needle.len() <= hay.len(),
            forall|j: int| 0 <= j < k ==> hay@[at + j] == needle@[j],
        decreases needle.len() - k,
    {
        if hay[at + k] != needle[k] {
            proof {
                let window = hay@.subrange(at as int, at + needle.len());
                assert(window[k as int] == hay@[at + k]);
            }
            return false;
        }
        k += 1;
    }
    assert(hay@.subrange(at as int, at + needle.len()) =~= needle@);
    true
}

/// The first position at which `needle` stands in `hay`, if it stands there
/// at all.
pub fn find(hay: &Vec<char>, needle: &Vec<char>) -> (position: Option<usize>)
    ensures
        match position {
            Some(at) => first_occurrence(hay@, needle@, at as int),
            None => !contains(hay@, needle@),
        },
{
    if needle.len() > hay.len() {
        return None;
    }
    let last: usize = hay.len() - needle.len();
    let mut at: usize = 0;
    loop
        invariant
            at <= last,
            last == hay.len() - needle.len(),
            needle.len() <= hay.len(),
            forall|earlier: int| 0 <= earlier < at ==> !occurs_at(hay@, needle@, earlier),
        decreases last - at,
    {
        if matches_at(hay, needle, at) {
            return Some(at);
        }
        if at == last {
            return None;
        }
        at += 1;
    }
}

/// Whether `needle` stands somewhere in `hay`.
pub fn contains_text(hay: &str, needle: &str) -> (found: bool)
    ensures
        found == contains(hay@, needle@),
{
    let hay_chars = to_chars(hay);
    let needle_chars = to_chars(needle);
    find(&hay_chars, &needle_chars).is_some()
}

/// Whether `hay` begins with `prefix`.
pub fn has_prefix(hay: &str, prefix: &str) -> (found: bool)
    ensures
        found == starts_with(hay@, prefix@),
{
    let hay_chars = to_chars(hay);
    let prefix_chars = to_chars(prefix);
    matches_at(&hay_chars, &prefix_chars, 0)
}

/// `text` without `prefix` at its start, where it begins with it; else `text`.
pub open spec fn without_prefix(text: Seq<char>, prefix: Seq<char>) -> Seq<char> {
    if starts_with(text, prefix) {
        text.skip(prefix.len() as int)
    } else {
        text
    }
}

/// Removes `prefix` from the start of `text`, once, where it stands there.
pub fn strip_prefix(text: &str, prefix: &str) -> (rest: String)
    ensures
        rest@ == without_prefix(text@, prefix@),
{
    let text_chars = to_chars(text);
    let prefix_chars = to_chars(prefix);
    if matches_at(&text_chars, &prefix_chars, 0) {
        let tail = text.substring_char(prefix_chars.len(), text_chars.len());
        assert(text@.subrange(prefix@.len() as int, text@.len() as int) =~= text@.skip(
            prefix@.len() as int,
        ));
        String::from_str(tail)
    } else {
        String::from_str(text)
    }
}

/// A decimal digit.
pub open spec fn is_digit(c: char) -> bool {
    '0' <= c && c <= '9'
}

/// The number that a decimal digit stands for.
pub open spec fn digit_value(c: char) -> nat {
    (c as u32 - '0' as u32) as nat
}

/// What is left of `s` from its first `=` on; nothing where it has none.
pub open spec fn from_equals(s: Seq<char>) -> Seq<char>
    decreases s.len(),
{
    if s.len() == 0 || s[0] == '=' {
        s
    } else {
        from_equals(s.drop_first())
    }
}

/// What is left of `s` from its first digit on; nothing where it has none.
pub open spec fn from_digit(s: Seq<char>) -> Seq<char>
    decreases s.len(),
{
    if s.len() == 0 || is_digit(s[0]) {
        s
    } else {
        from_digit(s.drop_first())
    }
}

/// The length of the run of digits with which `s` begins.
pub open spec fn digit_run_len(s: Seq<char>) -> nat
    decreases s.len(),
{
    if s.len() == 0 || !is_digit(s[0]) {
        0
    } else {
        1 + digit_run_len(s.drop_first())
    }
}

/// The run of digits with which `s` begins.
pub open spec fn leading_digits(s: Seq<char>) -> Seq<char> {
    s.take(digit_run_len(s) as int)
}

/// The number that a run of digits writes in base ten; 0 for the empty run.
pub open spec fn digits_value(digits: Seq<char>) -> nat
    decreases digits.len(),
{
    if digits.len() == 0 {
        0
    } else {
        digits_value(digits.drop_last()) * 10 + digit_value(digits.last())
    }
}

/// The first run of digits that follows the first `=` of `s`.
pub open spec fn first_digit_run(s: Seq<char>) -> Seq<char> {
    leading_digits(from_digit(from_equals(s)))
}

/// The number written by the first run of digits after the first `=`,
/// if there is such a run.
pub open spec fn first_int(s: Seq<char>) -> Option<nat> {
    let run = first_digit_run(s);
    if run.len() == 0 {
        None
    } else {
        Some(digits_value(run))
    }
}

/// The number of `first_int`, where there is one, fits in 32 bits.
pub open spec fn first_int_fits(s: Seq<char>) -> bool {
    digits_value(first_digit_run(s)) <= u32::MAX
}

/// A run of digits whose first `k` characters are digits is at least `k` long,
/// and it ends where the first character that is no digit stands.
proof fn lemma_digit_run_len_is(s: Seq<char>, k: int)
    requires
        0 <= k <= s.len(),
        forall|i: int| 0 <= i < k ==> is_digit(#[trigger] s[i]),
        k < s.len() ==> !is_digit(s[k]),
    ensures
        digit_run_len(s) == k,
    decreases s.len(),
{
    if k == 0 {
    } else {
        let rest = s.drop_first();
        assert forall|i: int| 0 <= i < k - 1 implies is_digit(#[trigger] rest[i]) by {
            assert(rest[i] == s[i + 1]);
        }
        if k - 1 < rest.len() {
            assert(rest[k - 1] == s[k]);
        }
        lemma_digit_run_len_is(rest, k - 1);
    }
}

/// A number written with more digits is no smaller than the number that its
/// first digits write.
proof fn lemma_digits_value_prefix(digits: Seq<char>, k: int)
    requires
        0 <= k <= digits.len(),
    ensures
        digits_value(digits.take(k)) <= digits_value(digits),
    decreases digits.len() - k,
{
    if k == digits.len() {
        assert(digits.take(k) =~= digits);
    } else {
        lemma_digits_value_prefix(digits.drop_last(), k);
        assert(digits.drop_last().take(k) =~= digits.take(k));
    }
}

/// Where the first run of digits after the first `=` of `chars` starts and
/// where it ends.
fn locate_digit_run(chars: &Vec<char>) -> (bounds: (usize, usize))
    ensures
        bounds.0 <= bounds.1 <= chars.len(),
        first_digit_run(chars@) == chars@.subrange(bounds.0 as int, bounds.1 as int),
        forall|i: int| bounds.0 <= i < bounds.1 ==> is_digit(#[trigger] chars@[i]),
{
    let n = chars.len();
    let mut start: usize = 0;
    assert(chars@.skip(0) =~= chars@);
    while start < n && chars[start] != '='
        invariant
            start <= n,
            n == chars.len(),
            from_equals(chars@) == from_equals(chars@.skip(start as int)),
        decreases n - start,
    {
        assert(chars@.skip(start as int).drop_first() =~= chars@.skip(start + 1));
        start += 1;
    }
    assert(from_equals(chars@) == chars@.skip(start as int));
    while start < n && !(chars[start] >= '0' && chars[start] <= '9')
        invariant
            start <= n,
            n == chars.len(),
            from_digit(from_equals(chars@)) == from_digit(chars@.skip(start as int)),
        decreases n - start,
    {
        assert(chars@.skip(start as int).drop_first() =~= chars@.skip(start + 1));
        start += 1;
    }
    let ghost tail = chars@.skip(start as int);
    assert(from_digit(from_equals(chars@)) == tail);
    let mut end: usize = start;
    while end < n && chars[end] >= '0' && chars[end] <= '9'
        invariant
            start <= end <= n,
            n == chars.len(),
            tail == chars@.skip(start as int),
            forall|i: int| start <= i < end ==> is_digit(#[trigger] chars@[i]),
        decreases n - end,
    {
        end += 1;
    }
    proof {
        assert forall|i: int| 0 <= i < end - start implies is_digit(#[trigger] tail[i]) by {
            assert(tail[i] == chars@[start + i]);
        }
        lemma_digit_run_len_is(tail, end - start);
        assert(tail.take(end - start) =~= chars@.subrange(start as int, end as int));
    }
    (start, end)
}

/// Whether the number that `first_int` finds in `input` fits in 32 bits.
pub fn first_int_in_range(input: &str) -> (fits: bool)
    ensures
        fits == first_int_fits(input@),
{
    let chars = to_chars(input);
    let (start, end) = locate_digit_run(&chars);
    let ghost run = chars@.subrange(start as int, end as int);
    let mut value: u64 = 0;
    let mut at: usize = start;
    while at < end
        invariant
            start <= at <= end <= chars.len(),
            run == chars@.subrange(start as int, end as int),
            forall|i: int| start <= i < end ==> is_digit(#[trigger] chars@[i]),
            first_digit_run(input@) == run,
            value == digits_value(run.take(at - start)),
            value <= u32::MAX,
        decreases end - at,
    {
        let c = chars[at];
        let digit: u64 = (c as u32 - '0' as u32) as u64;
        proof {
            assert(run.take(at - start + 1).drop_last() =~= run.take(at - start));
            assert(run.take(at - start + 1).last() == c);
        }
        value = value * 10 + digit;
        at += 1;
        assert(value == digits_value(run.take(at - start)));
        if value > u32::MAX as u64 {
            proof {
                lemma_digits_value_prefix(run, at - start);
            }
            return false;
        }
    }
    assert(run.take(end - start) =~= run);
    true
}

/// The number written by the first run of digits that follows the first
/// `=` of `input`; `None` where no digit follows it.
pub fn parse_first_int(input: &str) -> (number: Option<u32>)
    requires
        first_int_fits(input@),
    ensures
        number is Some <==> first_int(input@) is Some,
        number matches Some(n) ==> first_int(input@) == Some(n as nat),
{
    let chars = to_chars(input);
    let (start, end) = locate_digit_run(&chars);
    if start == end {
        return None;
    }
    let ghost run = chars@.subrange(start as int, end as int);
    let mut value: u32 = 0;
    let mut at: usize = start;
    while at < end
        invariant
            start <= at <= end <= chars.len(),
            run == chars@.subrange(start as int, end as int),
            forall|i: int| start <= i < end ==> is_digit(#[trigger] chars@[i]),
            value == digits_value(run.take(at - start)),
            digits_value(run) <= u32::MAX,
        decreases end - at,
    {
        let c = chars[at];
        let digit: u32 = c as u32 - '0' as u32;
        proof {
            assert(run.take(at - start + 1).drop_last() =~= run.take(at - start));
            assert(run.take(at - start + 1).last() == c);
            lemma_digits_value_prefix(run, at - start + 1);
        }
        value = value * 10 + digit;
        at += 1;
    }
    assert(run.take(end - start) =~= run);
    Some(value)
}

/// The characters of each string of a list, in the order of the list.
pub open spec fn views(strings: Seq<String>) -> Seq<Seq<char>> {
    Seq::new(strings.len(), |i: int| strings[i]@)
}

/// Appending a string to a list appends its characters to the list's views.
pub proof fn lemma_views_push(strings: Seq<String>, last: String)
    ensures
        views(strings.push(last)) == views(strings).push(last@),
{
    assert(views(strings.push(last)) =~= views(strings).push(last@));
}

/// The character that writes the digit `d`.
pub open spec fn digit_char(d: nat) -> char
    recommends
        d < 10,
{
    if d == 0 {
        '0'
    } else if d == 1 {
        '1'
    } else if d == 2 {
        '2'
    } else if d == 3 {
        '3'
    } else if d == 4 {
        '4'
    } else if d == 5 {
        '5'
    } else if d == 6 {
        '6'
    } else if d == 7 {
        '7'
    } else if d == 8 {
        '8'
    } else {
        '9'
    }
}

/// The number `n` written in base ten, without leading zeros.
pub open spec fn decimal(n: nat) -> Seq<char>
    decreases n,
{
    if n < 10 {
        seq![digit_char(n)]
    } else {
        decimal(n / 10).push(digit_char(n % 10))
    }
}

fn digit_text(d: u64) -> (text: &'static str)
    requires
        d < 10,
    ensures
        text@ == seq![digit_char(d as nat)],
{
    proof {
        reveal_strlit("0");
        reveal_strlit("1");
        reveal_strlit("2");
        reveal_strlit("3");
        reveal_strlit("4");
        reveal_strlit("5");
        reveal_strlit("6");
        reveal_strlit("7");
        reveal_strlit("8");
        reveal_strlit("9");
    }
    let text = match d {
        0 => "0",
        1 => "1",
        2 => "2",
        3 => "3",
        4 => "4",
        5 => "5",
        6 => "6",
        7 => "7",
        8 => "8",
        _ => "9",
    };
    assert(text@ =~= seq![digit_char(d as nat)]);
    text
}

/// Writes `n` in base ten.
pub fn to_decimal(n: u64) -> (text: String)
    ensures
        text@ == decimal(n as nat),
    decreases n,
{
    if n < 10 {
        String::from_str(digit_text(n))
    } else {
        let mut text = to_decimal(n / 10);
        text.append(digit_text(n % 10));
        assert(text@ =~= decimal((n / 10) as nat).push(digit_char((n % 10) as nat)));
        text
    }
}

/// `a` and `b` hold the same characters.
pub fn same_text(a: &str, b: &str) -> (same: bool)
    ensures
        same == (a@ == b@),
{
    let a_chars = to_chars(a);
    let b_chars = to_chars(b);
    if a_chars.len() != b_chars.len() {
        return false;
    }
    let found = matches_at(&a_chars, &b_chars, 0);
    proof {
        if found {
            assert(a@.subrange(0, b@.len() as int) =~= a@);
        } else {
            if a@ == b@ {
                assert(a@.subrange(0, b@.len() as int) =~= b@);
            }
        }
    }
    found
}

/// The position of the first line feed of `s`; its length where it has
/// none.
pub open spec fn first_newline(s: Seq<char>) -> nat
    decreases s.len(),
{
    if s.len() == 0 || s[0] == '\n' {
        0
    } else {
        1 + first_newline(s.drop_first())
    }
}

/// `line` without the carriage return at its end, where it ends with one.
pub open spec fn without_cr(line: Seq<char>) -> Seq<char> {
    if line.len() > 0 && line.last() == '\r' {
        line.drop_last()
    } else {
        line
    }
}

/// The lines of `s`. A line ends at a line feed, or at a carriage return
/// that a line feed follows, and holds neither of them; the last line need
/// not be ended, and an empty rest after the last line feed is no line.
pub open spec fn lines(s: Seq<char>) -> Seq<Seq<char>>
    decreases s.len(),
{
    if s.len() == 0 {
        seq![]
    } else {
        let n = first_newline(s);
        if n >= s.len() {
            seq![s]
        } else {
            seq![without_cr(s.take(n as int))] + lines(s.skip(n as int + 1))
        }
    }
}

/// The number of times that `c` stands in `s`.
pub open spec fn count_of(s: Seq<char>, c: char) -> nat
    decreases s.len(),
{
    if s.len() == 0 {
        0
    } else {
        count_of(s.drop_last(), c) + if s.last() == c {
            1nat
        } else {
            0nat
        }
    }
}

/// The position of the first `c` of `s`; its length where it has none.
pub open spec fn first_index_of(s: Seq<char>, c: char) -> nat
    decreases s.len(),
{
    if s.len() == 0 || s[0] == c {
        0
    } else {
        1 + first_index_of(s.drop_first(), c)
    }
}

/// The name and the value of a line of the form `name=value`: the parts
/// before and after its `=`, where it holds exactly one.
pub open spec fn key_value(line: Seq<char>) -> Option<(Seq<char>, Seq<char>)> {
    if count_of(line, '=') == 1 {
        let at = first_index_of(line, '=');
        Some((line.take(at as int), line.skip(at as int + 1)))
    } else {
        None
    }
}

proof fn lemma_first_newline_is(s: Seq<char>, k: int)
    requires
        0 <= k <= s.len(),
        forall|i: int| 0 <= i < k ==> s[i] != '\n',
        k < s.len() ==> s[k] == '\n',
    ensures
        first_newline(s) == k,
    decreases s.len(),
{
    if k > 0 {
        let rest = s.drop_first();
        assert forall|i: int| 0 <= i < k - 1 implies rest[i] != '\n' by {
            assert(rest[i] == s[i + 1]);
        }
        if k - 1 < rest.len() {
            assert(rest[k - 1] == s[k]);
        }
        lemma_first_newline_is(rest, k - 1);
    }
}

proof fn lemma_first_index_is(s: Seq<char>, c: char, k: int)
    requires
        0 <= k <= s.len(),
        forall|i: int| 0 <= i < k ==> s[i] != c,
        k < s.len() ==> s[k] == c,
    ensures
        first_index_of(s, c) == k,
    decreases s.len(),
{
    if k > 0 {
        let rest = s.drop_first();
        assert forall|i: int| 0 <= i < k - 1 implies rest[i] != c by {
            assert(rest[i] == s[i + 1]);
        }
        if k - 1 < rest.len() {
            assert(rest[k - 1] == s[k]);
        }
        lemma_first_index_is(rest, c, k - 1);
    }
}

/// The bounds of a line within a text: where it starts and where it ends.
pub struct LineBounds {
    pub start: usize,
    pub end: usize,
}

/// The lines that `bounds` cut out of `text`.
pub open spec fn cut(text: Seq<char>, bounds: Seq<LineBounds>) -> Seq<Seq<char>> {
    Seq::new(bounds.len(), |i: int| text.subrange(bounds[i].start as int, bounds[i].end as int))
}

/// Where each line of `chars` starts and ends.
pub fn line_bounds(chars: &Vec<char>) -> (bounds: Vec<LineBounds>)
    ensures
        forall|i: int|
            0 <= i < bounds.len() ==> (#[trigger] bounds[i]).start <= bounds[i].end <= chars.len(),
        cut(chars@, bounds@) == lines(chars@),
{
    let n = chars.len();
    let mut bounds: Vec<LineBounds> = Vec::new();
    let mut start: usize = 0;
    proof {
        assert(chars@.skip(0) =~= chars@);
        assert(cut(chars@, bounds@) =~= seq![]);
    }
    while start < n
        invariant
            start <= n,
            n == chars.len(),
            forall|i: int|
                0 <= i < bounds.len() ==> (#[trigger] bounds[i]).start <= bounds[i].end <= n,
            lines(chars@) == cut(chars@, bounds@) + lines(chars@.skip(start as int)),
        decreases n - start,
    {
        let ghost rest = chars@.skip(start as int);
        let mut end: usize = start;
        while end < n && chars[end] != '\n'
            invariant
                start <= end <= n,
                n == chars.len(),
                forall|i: int| start <= i < end ==> chars@[i] != '\n',
            decreases n - end,
        {
            end += 1;
        }
        proof {
            assert forall|i: int| 0 <= i < end - start implies rest[i] != '\n' by {
                assert(rest[i] == chars@[start + i]);
            }
            if end - start < rest.len() {
                assert(rest[end - start] == chars@[end as int]);
            }
            lemma_first_newline_is(rest, end - start);
        }
        let ghost before = cut(chars@, bounds@);
        if end == n {
            bounds.push(LineBounds { start, end });
            proof {
                assert(rest =~= chars@.subrange(start as int, end as int));
                assert(chars@.skip(n as int) =~= seq![]);
                assert(cut(chars@, bounds@) =~= before.push(rest));
                assert(lines(chars@) =~= cut(chars@, bounds@) + lines(chars@.skip(n as int)));
            }
            start = n;
        } else {
            let stop: usize = if end > start && chars[end - 1] == '\r' {
                end - 1
            } else {
                end
            };
            bounds.push(LineBounds { start, end: stop });
            proof {
                let raw = rest.take(end - start);
                assert(raw =~= chars@.subrange(start as int, end as int));
                assert(without_cr(raw) =~= chars@.subrange(start as int, stop as int));
                assert(rest.skip(end - start + 1) =~= chars@.skip(end + 1));
                assert(cut(chars@, bounds@) =~= before.push(without_cr(raw)));
                assert(lines(chars@) =~= cut(chars@, bounds@) + lines(chars@.skip(end + 1)));
            }
            start = end + 1;
        }
    }
    proof {
        assert(chars@.skip(n as int) =~= seq![]);
        assert(lines(chars@) =~= cut(chars@, bounds@));
    }
    bounds
}

/// Where the `=` of the line between `from` and `to` stands, where the line
/// holds exactly one.
pub fn find_equals(chars: &Vec<char>, from: usize, to: usize) -> (at: Option<usize>)
    requires
        from <= to <= chars.len(),
    ensures
        match key_value(chars@.subrange(from as int, to as int)) {
            Some((key, value)) => at matches Some(eq) && from <= eq < to && key
                == chars@.subrange(from as int, eq as int) && value == chars@.subrange(
                eq + 1,
                to as int,
            ),
            None => at is None,
        },
{
    let ghost line = chars@.subrange(from as int, to as int);
    let mut count: usize = 0;
    let mut first: usize = to;
    let mut i: usize = from;
    assert(line.take(0) =~= seq![]);
    while i < to
        invariant
            from <= i <= to <= chars.len(),
            line == chars@.subrange(from as int, to as int),
            count == count_of(line.take(i - from), '='),
            count <= i - from,
            count == 0 ==> first == to && forall|j: int| from <= j < i ==> chars@[j] != '=',
            count > 0 ==> from <= first < i && chars@[first as int] == '=' && forall|j: int|
                from <= j < first ==> chars@[j] != '=',
        decreases to - i,
    {
        proof {
            assert(line.take(i - from + 1).drop_last() =~= line.take(i - from));
            assert(line.take(i - from + 1).last() == chars@[i as int]);
        }
        if chars[i] == '=' {
            if count == 0 {
                first = i;
            }
            count += 1;
        }
        i += 1;
    }
    proof {
        assert(line.take(to - from) =~= line);
    }
    if count == 1 {
        proof {
            assert forall|j: int| 0 <= j < first - from implies line[j] != '=' by {
                assert(line[j] == chars@[from + j]);
            }
            assert(line[first - from] == chars@[first as int]);
            lemma_first_index_is(line, '=', first - from);
            assert(line.take(first - from) =~= chars@.subrange(from as int, first as int));
            assert(line.skip(first - from + 1) =~= chars@.subrange(first + 1, to as int));
        }
        Some(first)
    } else {
        None
    }
}

/// Whether the characters of `chars` between `from` and `to` are those of
/// `word`.
pub fn range_is(chars: &Vec<char>, from: usize, to: usize, word: &str) -> (same: bool)
    requires
        from <= to <= chars.len(),
    ensures
        same == (chars@.subrange(from as int, to as int) == word@),
{
    let word_chars = to_chars(word);
    if word_chars.len() != to - from {
        return false;
    }
    matches_at(chars, &word_chars, from)
}

/// The parameters of a query string, each by its characters.
pub open spec fn pair_views(params: Seq<(&str, &str)>) -> Seq<(Seq<char>, Seq<char>)> {
    Seq::new(params.len(), |i: int| (params[i].0@, params[i].1@))
}

/// The query string of `params`: `name=value`, joined by `&`.
pub open spec fn query_string(params: Seq<(Seq<char>, Seq<char>)>) -> Seq<char>
    decreases params.len(),
{
    if params.len() == 0 {
        seq![]
    } else if params.len() == 1 {
        params[0].0 + "="@ + params[0].1
    } else {
        query_string(params.drop_last()) + "&"@ + params.last().0 + "="@ + params.last().1
    }
}

/// Writes the query string of `params`.
pub fn write_query(params: &Vec<(&str, &str)>) -> (query: String)
    ensures
        query@ == query_string(pair_views(params@)),
{
    let mut query = String::from_str("");
    let ghost all = pair_views(params@);
    proof {
        reveal_strlit("");
        assert(query@ =~= seq![]);
        assert(all.take(0) =~= seq![]);
    }
    let mut at: usize = 0;
    while at < params.len()
        invariant
            at <= params.len(),
            all == pair_views(params@),
            query@ == query_string(all.take(at as int)),
        decreases params.len() - at,
    {
        let ghost next = all.take(at + 1);
        proof {
            assert(next.drop_last() =~= all.take(at as int));
            assert(next.last() == (params@[at as int].0@, params@[at as int].1@));
        }
        if at > 0 {
            query.append("&");
        }
        query.append(params[at].0);
        query.append("=");
        query.append(params[at].1);
        proof {
            if at == 0 {
                assert(query@ =~= next[0].0 + "="@ + next[0].1);
            } else {
                assert(query@ =~= query_string(next.drop_last()) + "&"@ + next.last().0 + "="@
                    + next.last().1);
            }
        }
        at += 1;
    }
    assert(all.take(at as int) =~= all);
    query
}

/// The first position at which `needle` stands in `hay`, if it stands there
/// at all.
pub open spec fn index_of(hay: Seq<char>, needle: Seq<char>) -> Option<int> {
    if contains(hay, needle) {
        Some(choose|at: int| first_occurrence(hay, needle, at))
    } else {
        None
    }
}

/// There is one first occurrence at most.
pub proof fn lemma_first_occurrence_unique(hay: Seq<char>, needle: Seq<char>, at: int)
    requires
        first_occurrence(hay, needle, at),
    ensures
        index_of(hay, needle) == Some(at),
{
    let chosen = choose|c: int| first_occurrence(hay, needle, c);
    assert(first_occurrence(hay, needle, chosen));
    if chosen < at {
        assert(!occurs_at(hay, needle, chosen));
    }
    if at < chosen {
        assert(!occurs_at(hay, needle, at));
    }
}

/// What is left of `hay` from the first place on at which `needle` stands
/// in it; `None` where it stands nowhere.
pub open spec fn from_first(hay: Seq<char>, needle: Seq<char>) -> Option<Seq<char>> {
    match index_of(hay, needle) {
        Some(at) => Some(hay.skip(at)),
        None => None,
    }
}

/// Cuts `text` off before the first place at which `needle` stands in it.
pub fn tail_from(text: &str, needle: &str) -> (tail: Option<String>)
    ensures
        match from_first(text@, needle@) {
            Some(rest) => tail matches Some(t) && t@ == rest,
            None => tail is None,
        },
{
    let text_chars = to_chars(text);
    let needle_chars = to_chars(needle);
    match find(&text_chars, &needle_chars) {
        Some(at) => {
            proof {
                lemma_first_occurrence_unique(text@, needle@, at as int);
                assert(text@.subrange(at as int, text@.len() as int) =~= text@.skip(at as int));
            }
            Some(String::from_str(text.substring_char(at, text_chars.len())))
        },
        None => None,
    }
}

} // verus!
