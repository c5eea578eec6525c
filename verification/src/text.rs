//! Text handling: lines, words, trimming, decimal numbers.
//!
//! Everything here works on sequences of characters. The specification
//! functions say what a piece of text is; the executable functions compute it.

use vstd::prelude::*;

verus! {

/// Appends one character to the end of a string (`std::string::String::push`).
/// Claimed: the characters are those from before, followed by `c`.
pub assume_specification[ String::push ](s: &mut String, c: char)
    ensures
        final(s)@ == old(s)@.push(c),
;

/// What the `Debug` form of a string shows: the text in double quotes, with
/// escapes.
pub uninterp spec fn debug_text(s: Seq<char>) -> Seq<char>;

/// Formats a string with `{:?}`, which is `std::fmt::Debug` for `str`. Claimed:
/// the result depends on the text alone. Which characters are escaped, and how,
/// is left to std.
#[verifier::external_body]
pub(crate) fn debug_of(s: &str) -> (res: String)
    ensures
        res@ == debug_text(s@),
{
    format!("{:?}", s)
}

/// The texts held by a vector of strings.
pub open spec fn texts(strings: Seq<String>) -> Seq<Seq<char>> {
    strings.map_values(|s: String| s@)
}

/// The characters with the Unicode `White_Space` property.
pub open spec fn is_white(c: char) -> bool {
    let n = c as u32;
    ||| 0x09 <= n <= 0x0d
    ||| n == 0x20
    ||| n == 0x85
    ||| n == 0xa0
    ||| n == 0x1680
    ||| 0x2000 <= n <= 0x200a
    ||| n == 0x2028
    ||| n == 0x2029
    ||| n == 0x202f
    ||| n == 0x205f
    ||| n == 0x3000
}

/// Whether `c` is white space.
pub fn char_is_white(c: char) -> (res: bool)
    ensures
        res == is_white(c),
{
    let n: u32 = c as u32;
    (0x09 <= n && n <= 0x0d) || n == 0x20 || n == 0x85 || n == 0xa0 || n == 0x1680 || (0x2000 <= n
        && n <= 0x200a) || n == 0x2028 || n == 0x2029 || n == 0x202f || n == 0x205f || n == 0x3000
}

/// The characters of a string, as a vector.
pub fn chars_of(s: &str) -> (res: Vec<char>)
    ensures
        res@ == s@,
{
    let mut out: Vec<char> = Vec::new();
    for c in it: s.chars()
        invariant
            out@ == it.seq().take(it.index() as int),
            it.seq() == s@,
    {
        out.push(c);
    }
    assert(s@.take(s@.len() as int) =~= s@);
    out
}

/// The string made of `chars[from..to]`.
pub fn string_of(chars: &Vec<char>, from: usize, to: usize) -> (res: String)
    requires
        from <= to <= chars.len(),
    ensures
        res@ == chars@.subrange(from as int, to as int),
{
    let mut out = String::new();
    let mut i: usize = from;
    while i < to
        invariant
            from <= i <= to <= chars.len(),
            out@ == chars@.subrange(from as int, i as int),
        decreases to - i,
    {
        out.push(chars[i]);
        proof {
            assert(chars@.subrange(from as int, i as int).push(chars@[i as int]) =~= chars@.subrange(
                from as int,
                i + 1,
            ));
        }
        i = i + 1;
    }
    out
}

/// Whether two strings hold the same characters.
pub fn same_text(a: &str, b: &str) -> (res: bool)
    ensures
        res == (a@ == b@),
{
    a.to_owned() == b.to_owned()
}

/// Whether `s` begins with `prefix`.
pub open spec fn begins_with(s: Seq<char>, prefix: Seq<char>) -> bool {
    prefix.len() <= s.len() && s.take(prefix.len() as int) == prefix
}

/// What follows `prefix` in `s`, where `s` begins with it.
pub open spec fn after_prefix(s: Seq<char>, prefix: Seq<char>) -> Option<Seq<char>> {
    if begins_with(s, prefix) {
        Some(s.skip(prefix.len() as int))
    } else {
        None
    }
}

/// Whether `needle` stands somewhere in `s`.
pub open spec fn holds_text(s: Seq<char>, needle: Seq<char>) -> bool {
    exists|i: int| 0 <= i && #[trigger] holds_text_at(s, needle, i)
}

/// Whether `needle` stands in `s` at position `i`.
pub open spec fn holds_text_at(s: Seq<char>, needle: Seq<char>, i: int) -> bool {
    i + needle.len() <= s.len() && s.subrange(i, i + needle.len()) == needle
}

/// What stands in a text still stands in it once more was added.
pub broadcast proof fn lemma_holds_appended(s: Seq<char>, more: Seq<char>, needle: Seq<char>)
    requires
        holds_text(s, needle),
    ensures
        #[trigger] holds_text(s + more, needle),
{
    let i = choose|i: int| 0 <= i && #[trigger] holds_text_at(s, needle, i);
    assert((s + more).subrange(i, i + needle.len()) =~= s.subrange(i, i + needle.len()));
    assert(holds_text_at(s + more, needle, i));
}

/// What was added to a text in two parts stands in it.
pub proof fn lemma_holds_added(s: Seq<char>, first: Seq<char>, second: Seq<char>)
    ensures
        holds_text(s + first + second, first + second),
{
    let all = s + first + second;
    let n = s.len() as int;
    assert(all.subrange(n, n + (first + second).len()) =~= first + second);
    assert(holds_text_at(all, first + second, n));
}

/// Whether `chars[from..]` begins with `prefix`.
fn stands_at(chars: &Vec<char>, from: usize, prefix: &Vec<char>) -> (res: bool)
    requires
        from <= chars.len(),
    ensures
        res == holds_text_at(chars@, prefix@, from as int),
{
    if chars.len() - from < prefix.len() {
        return false;
    }
    let mut i: usize = 0;
    while i < prefix.len()
        invariant
            i <= prefix.len(),
            from + prefix.len() <= chars.len(),
            forall|j: int| 0 <= j < i ==> chars@[from + j] == prefix@[j],
        decreases prefix.len() - i,
    {
        if chars[from + i] != prefix[i] {
            assert(chars@.subrange(from as int, from + prefix@.len())[i as int] != prefix@[i as int]);
            return false;
        }
        i = i + 1;
    }
    assert(chars@.subrange(from as int, from + prefix@.len()) =~= prefix@);
    true
}

/// Whether `s` begins with `prefix`.
pub fn starts_with(s: &str, prefix: &str) -> (res: bool)
    ensures
        res == begins_with(s@, prefix@),
{
    let res = stands_at(&chars_of(s), 0, &chars_of(prefix));
    assert(s@.take(prefix@.len() as int) == s@.subrange(0, prefix@.len() as int));
    res
}

/// What follows `prefix` in `s`, where `s` begins with it.
pub fn strip_prefix(s: &str, prefix: &str) -> (res: Option<String>)
    ensures
        res.deep_view() == after_prefix(s@, prefix@),
{
    let chars = chars_of(s);
    let lead = chars_of(prefix);
    let found = stands_at(&chars, 0, &lead);
    assert(s@.take(prefix@.len() as int) == s@.subrange(0, prefix@.len() as int));
    if found {
        let len: usize = chars.len();
        Some(string_of(&chars, lead.len(), len))
    } else {
        None
    }
}

/// Whether `needle` stands somewhere in `s`.
pub fn contains(s: &str, needle: &str) -> (res: bool)
    ensures
        res == holds_text(s@, needle@),
{
    let chars = chars_of(s);
    let wanted = chars_of(needle);
    let mut i: usize = 0;
    while i <= chars.len()
        invariant
            i <= chars.len() + 1,
            chars@ == s@,
            wanted@ == needle@,
            forall|j: int| 0 <= j < i ==> !#[trigger] holds_text_at(s@, needle@, j),
        decreases chars.len() + 1 - i,
    {
        if stands_at(&chars, i, &wanted) {
            return true;
        }
        if i == chars.len() {
            assert forall|j: int| 0 <= j implies !#[trigger] holds_text_at(s@, needle@, j) by {}
            return false;
        }
        i = i + 1;
    }
    false
}

/// The position of the first `c` in `s`, or the length of `s` where it has none.
pub open spec fn first_of(s: Seq<char>, c: char) -> int
    decreases s.len(),
{
    if s.len() == 0 || s[0] == c {
        0
    } else {
        1 + first_of(s.drop_first(), c)
    }
}

proof fn lemma_first_of(s: Seq<char>, c: char, i: int)
    requires
        0 <= i <= s.len(),
        forall|j: int| 0 <= j < i ==> s[j] != c,
        i == s.len() || s[i] == c,
    ensures
        first_of(s, c) == i,
    decreases s.len(),
{
    if i > 0 {
        lemma_first_of(s.drop_first(), c, i - 1);
    }
}

proof fn lemma_first_of_range(s: Seq<char>, c: char)
    ensures
        0 <= first_of(s, c) <= s.len(),
    decreases s.len(),
{
    if s.len() > 0 && s[0] != c {
        lemma_first_of_range(s.drop_first(), c);
    }
}

/// The position of the first `c` at or after `from`, or the length.
fn find_from(chars: &Vec<char>, from: usize, c: char) -> (res: usize)
    requires
        from <= chars.len(),
    ensures
        from <= res <= chars.len(),
        res - from == first_of(chars@.skip(from as int), c),
{
    let mut i: usize = from;
    while i < chars.len() && chars[i] != c
        invariant
            from <= i <= chars.len(),
            forall|j: int| from <= j < i ==> chars@[j] != c,
        decreases chars.len() - i,
    {
        i = i + 1;
    }
    proof {
        lemma_first_of(chars@.skip(from as int), c, i - from);
    }
    i
}

/// What stands in `s` before the first `c` (all of `s` where it has none).
pub open spec fn text_before(s: Seq<char>, c: char) -> Seq<char> {
    s.take(first_of(s, c))
}

/// What stands before the first `c`, where that is known to be at `i`.
pub proof fn lemma_text_before(s: Seq<char>, c: char, i: int)
    requires
        0 <= i <= s.len(),
        forall|j: int| 0 <= j < i ==> s[j] != c,
        i == s.len() || s[i] == c,
    ensures
        text_before(s, c) == s.take(i),
{
    lemma_first_of(s, c, i);
}

/// What stands in `s` before the first `c`.
pub fn before(s: &str, c: char) -> (res: String)
    ensures
        res@ == text_before(s@, c),
{
    let chars = chars_of(s);
    assert(chars@.skip(0) =~= chars@);
    let end = find_from(&chars, 0, c);
    let res = string_of(&chars, 0, end);
    assert(res@ =~= text_before(s@, c));
    res
}

/// A line without the carriage return before its line feed.
pub open spec fn without_cr(line: Seq<char>) -> Seq<char> {
    if line.len() > 0 && line.last() == '\r' {
        line.drop_last()
    } else {
        line
    }
}

/// The lines of a text: what stands between line feeds, each without a carriage
/// return before its line feed. A line feed at the very end starts no line.
pub open spec fn lines(s: Seq<char>) -> Seq<Seq<char>>
    decreases s.len(),
    via lines_decreases
{
    let end = first_of(s, '\n');
    if s.len() == 0 {
        seq![]
    } else if end >= s.len() {
        seq![s]
    } else {
        seq![without_cr(s.take(end))] + lines(s.skip(end + 1))
    }
}

#[via_fn]
proof fn lines_decreases(s: Seq<char>) {
    lemma_first_of_range(s, '\n');
}

/// The lines of a text.
pub fn split_lines(s: &str) -> (res: Vec<String>)
    ensures
        texts(res@) == lines(s@),
{
    let chars = chars_of(s);
    let mut out: Vec<String> = Vec::new();
    let mut start: usize = 0;
    proof {
        assert(s@.skip(0) =~= s@);
        assert(texts(out@) + lines(s@) =~= lines(s@));
    }
    while start < chars.len()
        invariant
            start <= chars.len(),
            chars@ == s@,
            texts(out@) + lines(s@.skip(start as int)) == lines(s@),
        decreases chars.len() - start,
    {
        let end = find_from(&chars, start, '\n');
        let ghost rest = s@.skip(start as int);
        let ghost done = texts(out@);
        if end == chars.len() {
            let line = string_of(&chars, start, end);
            out.push(line);
            proof {
                assert(line@ =~= rest);
                assert(texts(out@) =~= done.push(rest));
                assert(texts(out@) =~= done + lines(rest));
                assert(lines(s@.skip(end as int)) =~= seq![]);
                assert(texts(out@) + lines(s@.skip(end as int)) =~= done + lines(rest));
            }
            start = end;
        } else {
            let stop: usize = if start < end && chars[end - 1] == '\r' {
                end - 1
            } else {
                end
            };
            let line = string_of(&chars, start, stop);
            out.push(line);
            proof {
                assert(rest.take(end - start) =~= s@.subrange(start as int, end as int));
                assert(line@ =~= without_cr(rest.take(end - start)));
                assert(rest.skip(end - start + 1) =~= s@.skip(end + 1));
                assert(texts(out@) =~= done.push(line@));
                assert(texts(out@) + lines(s@.skip(end + 1)) =~= done + (seq![line@] + lines(
                    s@.skip(end + 1),
                )));
            }
            start = end + 1;
        }
    }
    proof {
        assert(s@.skip(start as int) =~= seq![]);
        assert(texts(out@) + lines(s@.skip(start as int)) =~= texts(out@));
    }
    out
}

/// How many characters at the beginning of `s` are white (or, for `false`, are not).
pub open spec fn lead_len(s: Seq<char>, white: bool) -> int
    decreases s.len(),
{
    if s.len() > 0 && is_white(s[0]) == white {
        1 + lead_len(s.drop_first(), white)
    } else {
        0
    }
}

proof fn lemma_lead_len(s: Seq<char>, white: bool)
    ensures
        0 <= lead_len(s, white) <= s.len(),
        forall|j: int| 0 <= j < lead_len(s, white) ==> is_white(#[trigger] s[j]) == white,
        lead_len(s, white) < s.len() ==> is_white(s[lead_len(s, white)]) != white,
    decreases s.len(),
{
    if s.len() > 0 && is_white(s[0]) == white {
        let t = s.drop_first();
        lemma_lead_len(t, white);
        assert forall|j: int| 0 <= j < lead_len(s, white) implies is_white(#[trigger] s[j]) == white by {
            if j > 0 {
                assert(s[j] == t[j - 1]);
            }
        }
    }
}

proof fn lemma_lead_len_is(s: Seq<char>, white: bool, i: int)
    requires
        0 <= i <= s.len(),
        forall|j: int| 0 <= j < i ==> is_white(#[trigger] s[j]) == white,
        i == s.len() || is_white(s[i]) != white,
    ensures
        lead_len(s, white) == i,
{
    lemma_lead_len(s, white);
    let n = lead_len(s, white);
    if n < i {
        assert(is_white(s[n]) == white);
    } else if i < n {
        assert(is_white(s[i]) == white);
    }
}

/// The end of the run of white (or other) characters that starts at `from`.
fn skip_while(chars: &Vec<char>, from: usize, white: bool) -> (res: usize)
    requires
        from <= chars.len(),
    ensures
        from <= res <= chars.len(),
        res - from == lead_len(chars@.skip(from as int), white),
{
    let mut i: usize = from;
    while i < chars.len() && char_is_white(chars[i]) == white
        invariant
            from <= i <= chars.len(),
            forall|j: int| from <= j < i ==> is_white(#[trigger] chars@[j]) == white,
        decreases chars.len() - i,
    {
        i = i + 1;
    }
    proof {
        lemma_lead_len_is(chars@.skip(from as int), white, i - from);
    }
    i
}

/// The words of a text: its longest runs without white space.
pub open spec fn words(s: Seq<char>) -> Seq<Seq<char>>
    decreases s.len(),
    via words_decreases
{
    let rest = s.skip(lead_len(s, true));
    let len = lead_len(rest, false);
    if lead_len(s, true) >= s.len() {
        seq![]
    } else {
        seq![rest.take(len)] + words(rest.skip(len))
    }
}

#[via_fn]
proof fn words_decreases(s: Seq<char>) {
    lemma_lead_len(s, true);
    let rest = s.skip(lead_len(s, true));
    lemma_lead_len(rest, false);
    if lead_len(s, true) < s.len() {
        assert(!is_white(rest[0]));
    }
}

/// The words of a text.
pub fn split_whitespace(s: &str) -> (res: Vec<String>)
    ensures
        texts(res@) == words(s@),
{
    let chars = chars_of(s);
    let mut out: Vec<String> = Vec::new();
    let mut start: usize = 0;
    proof {
        assert(s@.skip(0) =~= s@);
        assert(texts(out@) + words(s@) =~= words(s@));
    }
    while start < chars.len()
        invariant
            start <= chars.len(),
            chars@ == s@,
            texts(out@) + words(s@.skip(start as int)) == words(s@),
        decreases chars.len() - start,
    {
        let ghost text = s@.skip(start as int);
        let ghost done = texts(out@);
        let from = skip_while(&chars, start, true);
        proof {
            lemma_lead_len(text, true);
        }
        if from == chars.len() {
            proof {
                assert(words(text) =~= seq![]);
                assert(s@.skip(from as int) =~= seq![]);
                assert(words(s@.skip(from as int)) =~= seq![]);
            }
            start = from;
        } else {
            let to = skip_while(&chars, from, false);
            let word = string_of(&chars, from, to);
            out.push(word);
            proof {
                let rest = text.skip(from - start);
                assert(rest =~= s@.skip(from as int));
                lemma_lead_len(rest, false);
                assert(!is_white(rest[0]));
                assert(word@ =~= rest.take(to - from));
                assert(rest.skip(to - from) =~= s@.skip(to as int));
                assert(texts(out@) =~= done.push(word@));
                assert(texts(out@) + words(s@.skip(to as int)) =~= done + (seq![word@] + words(
                    s@.skip(to as int),
                )));
            }
            start = to;
        }
    }
    proof {
        assert(s@.skip(start as int) =~= seq![]);
        assert(words(s@.skip(start as int)) =~= seq![]);
        assert(texts(out@) + words(s@.skip(start as int)) =~= texts(out@));
    }
    out
}

/// A text without the white space at its end.
pub open spec fn trim_end(s: Seq<char>) -> Seq<char>
    decreases s.len(),
{
    if s.len() > 0 && is_white(s.last()) {
        trim_end(s.drop_last())
    } else {
        s
    }
}

/// A text without the white space at its beginning and end.
pub open spec fn trimmed(s: Seq<char>) -> Seq<char> {
    trim_end(s.skip(lead_len(s, true)))
}

/// A text without the white space at its beginning and end.
pub fn trim(s: &str) -> (res: String)
    ensures
        res@ == trimmed(s@),
{
    let chars = chars_of(s);
    proof {
        assert(s@.skip(0) =~= s@);
    }
    let from = skip_while(&chars, 0, true);
    let mut to: usize = chars.len();
    let ghost rest = s@.skip(from as int);
    assert(s@.subrange(from as int, to as int) =~= rest);
    while from < to && char_is_white(chars[to - 1])
        invariant
            from <= to <= chars.len(),
            chars@ == s@,
            trim_end(s@.subrange(from as int, to as int)) == trim_end(rest),
        decreases to - from,
    {
        proof {
            let t = s@.subrange(from as int, to as int);
            assert(t.drop_last() =~= s@.subrange(from as int, to - 1));
        }
        to = to - 1;
    }
    string_of(&chars, from, to)
}

/// The digit character of a number below ten.
pub open spec fn digit(d: int) -> char {
    (48 + d) as char
}

/// Whether `c` is one of the ASCII digits `0` to `9`.
pub open spec fn is_digit(c: char) -> bool {
    48 <= c as u32 <= 57
}

/// A number written in decimal, without leading zeros.
pub open spec fn decimal(n: nat) -> Seq<char>
    decreases n,
{
    if n < 10 {
        seq![digit(n as int)]
    } else {
        decimal(n / 10).push(digit((n % 10) as int))
    }
}

/// A number written in decimal.
pub fn decimal_of(n: u64) -> (res: String)
    ensures
        res@ == decimal(n as nat),
    decreases n,
{
    let low: u8 = (n % 10) as u8;
    let c: char = (48u8 + low) as char;
    if n < 10 {
        let mut out = String::new();
        out.push(c);
        assert(out@ =~= decimal(n as nat));
        out
    } else {
        let mut out = decimal_of(n / 10);
        out.push(c);
        out
    }
}

/// An integer written in decimal, with a minus sign where it is negative.
pub open spec fn signed_decimal(n: int) -> Seq<char> {
    if n < 0 {
        seq!['-'] + decimal((-n) as nat)
    } else {
        decimal(n as nat)
    }
}

/// An integer written in decimal.
pub fn signed_decimal_of(n: i32) -> (res: String)
    ensures
        res@ == signed_decimal(n as int),
{
    if n < 0 {
        let magnitude: i64 = -(n as i64);
        let mut out = String::new();
        out.push('-');
        assert(out@ =~= seq!['-']);
        out.append(decimal_of(magnitude as u64).as_str());
        out
    } else {
        decimal_of(n as u64)
    }
}

/// The number that a row of decimal digits stands for.
pub open spec fn digits_value(s: Seq<char>) -> nat
    decreases s.len(),
{
    if s.len() == 0 {
        0
    } else {
        digits_value(s.drop_last()) * 10 + (s.last() as u32 - 48) as nat
    }
}

/// The digits of a natural number in decimal: a plus sign may stand before them.
pub open spec fn number_digits(s: Seq<char>) -> Seq<char> {
    if s.len() > 0 && s[0] == '+' {
        s.drop_first()
    } else {
        s
    }
}

/// The natural number that `s` writes in decimal, where it is at most `max`.
pub open spec fn natural(s: Seq<char>, max: nat) -> Option<nat> {
    let digits = number_digits(s);
    if digits.len() > 0 && (forall|i: int| 0 <= i < digits.len() ==> is_digit(#[trigger] digits[i]))
        && digits_value(digits) <= max {
        Some(digits_value(digits))
    } else {
        None
    }
}

/// A number written in decimal is a row of digits that stands for it.
pub proof fn lemma_decimal(n: nat)
    ensures
        decimal(n).len() > 0,
        forall|i: int| 0 <= i < decimal(n).len() ==> is_digit(#[trigger] decimal(n)[i]),
        digits_value(decimal(n)) == n,
    decreases n,
{
    let low = digit((n % 10) as int);
    assert(low as u32 == 48 + n % 10);
    if n < 10 {
        assert(decimal(n).drop_last() =~= seq![]);
        assert(digits_value(decimal(n).drop_last()) == 0);
    } else {
        lemma_decimal(n / 10);
        assert(decimal(n).drop_last() =~= decimal(n / 10));
    }
}

/// A number written in decimal reads back as that number.
pub proof fn law_decimal_reads_back(n: nat, max: nat)
    requires
        n <= max,
    ensures
        natural(decimal(n), max) == Some(n),
{
    lemma_decimal(n);
    assert(is_digit(decimal(n)[0]));
}

proof fn lemma_digits_value_grows(s: Seq<char>, i: int)
    requires
        0 <= i <= s.len(),
        forall|j: int| 0 <= j < s.len() ==> is_digit(#[trigger] s[j]),
    ensures
        digits_value(s.take(i)) <= digits_value(s),
    decreases s.len() - i,
{
    if i < s.len() {
        lemma_digits_value_grows(s, i + 1);
        assert(s.take(i + 1).drop_last() =~= s.take(i));
    } else {
        assert(s.take(i) =~= s);
    }
}

/// The natural number that `s` writes in decimal, where it is at most `max`.
pub fn parse_natural(s: &str, max: u64) -> (res: Option<u64>)
    ensures
        res is Some <==> natural(s@, max as nat) is Some,
        res is Some ==> res->0 as nat == natural(s@, max as nat)->0,
{
    let chars = chars_of(s);
    let start: usize = if chars.len() > 0 && chars[0] == '+' {
        1
    } else {
        0
    };
    let ghost digits = number_digits(s@);
    proof {
        assert(digits =~= s@.skip(start as int));
    }
    if start == chars.len() {
        return None;
    }
    let mut i: usize = start;
    while i < chars.len()
        invariant
            start <= i <= chars.len(),
            chars@ == s@,
            digits == s@.skip(start as int),
            digits == number_digits(s@),
            start < chars.len(),
            forall|j: int| 0 <= j < i - start ==> is_digit(#[trigger] digits[j]),
        decreases chars.len() - i,
    {
        let n: u32 = chars[i] as u32;
        assert(digits[i - start] == chars@[i as int]);
        if n < 48 || n > 57 {
            return None;
        }
        i = i + 1;
    }
    let mut total: u64 = 0;
    i = start;
    proof {
        assert(digits.take(0) =~= seq![]);
    }
    while i < chars.len()
        invariant
            start <= i <= chars.len(),
            chars@ == s@,
            digits == s@.skip(start as int),
            digits == number_digits(s@),
            start < chars.len(),
            forall|j: int| 0 <= j < digits.len() ==> is_digit(#[trigger] digits[j]),
            total <= max,
            total as nat == digits_value(digits.take(i - start)),
        decreases chars.len() - i,
    {
        proof {
            let t = digits.take(i - start + 1);
            assert(t.drop_last() =~= digits.take(i - start));
            assert(t.last() == chars@[i as int]);
            assert(is_digit(digits[i - start]));
            lemma_digits_value_grows(digits, i - start + 1);
        }
        let d: u64 = (chars[i] as u32 - 48) as u64;
        let next: u128 = total as u128 * 10 + d as u128;
        if next > max as u128 {
            return None;
        }
        total = next as u64;
        i = i + 1;
    }
    proof {
        assert(digits.take(digits.len() as int) =~= digits);
    }
    Some(total)
}

/// Texts joined with `sep` between each two.
pub open spec fn joined(parts: Seq<Seq<char>>, sep: Seq<char>) -> Seq<char>
    decreases parts.len(),
{
    if parts.len() == 0 {
        seq![]
    } else if parts.len() == 1 {
        parts[0]
    } else {
        joined(parts.drop_last(), sep) + sep + parts.last()
    }
}

/// Texts joined with `sep` between each two.
pub fn join(parts: &Vec<String>, sep: &str) -> (res: String)
    ensures
        res@ == joined(texts(parts@), sep@),
{
    let mut out = String::new();
    if parts.len() == 0 {
        assert(texts(parts@) =~= seq![]);
        return out;
    }
    out.append(parts[0].as_str());
    let mut i: usize = 1;
    proof {
        assert(out@ =~= parts@[0]@);
        assert(texts(parts@).take(1).len() == 1);
    }
    while i < parts.len()
        invariant
            1 <= i <= parts.len(),
            out@ == joined(texts(parts@).take(i as int), sep@),
        decreases parts.len() - i,
    {
        out.append(sep);
        out.append(parts[i].as_str());
        proof {
            let t = texts(parts@).take(i + 1);
            assert(t.drop_last() =~= texts(parts@).take(i as int));
            assert(t.last() == parts@[i as int]@);
        }
        i = i + 1;
    }
    proof {
        assert(texts(parts@).take(i as int) =~= texts(parts@));
    }
    out
}

/// A path below a directory: `path` itself where it is absolute, else the two
/// with one separator between them.
pub open spec fn joined_path(dir: Seq<char>, path: Seq<char>) -> Seq<char> {
    if path.len() > 0 && path[0] == '/' {
        path
    } else if dir.len() == 0 || dir.last() == '/' {
        dir + path
    } else {
        dir + "/"@ + path
    }
}

/// A path below a directory.
pub fn join_path(dir: &str, path: &str) -> (res: String)
    ensures
        res@ == joined_path(dir@, path@),
{
    let d = chars_of(dir);
    let p = chars_of(path);
    if p.len() > 0 && p[0] == '/' {
        path.to_owned()
    } else if d.len() == 0 || d[d.len() - 1] == '/' {
        dir.to_owned().concat(path)
    } else {
        dir.to_owned().concat("/").concat(path)
    }
}

/// An ASCII letter in lower case; any other character as it is.
pub open spec fn ascii_lower(c: char) -> char {
    if 65 <= c as u32 <= 90 {
        (c as u32 + 32) as char
    } else {
        c
    }
}

/// Whether `s` and `word` are the same text when ASCII letters of `s` are
/// taken in lower case.
pub open spec fn reads_as(s: Seq<char>, word: Seq<char>) -> bool {
    s.map_values(|c: char| ascii_lower(c)) == word
}

/// Whether `s`, with its ASCII letters in lower case, is `word`.
pub fn reads_as_word(s: &str, word: &str) -> (res: bool)
    ensures
        res == reads_as(s@, word@),
{
    let a = chars_of(s);
    let b = chars_of(word);
    let ghost lowered = s@.map_values(|c: char| ascii_lower(c));
    if a.len() != b.len() {
        assert(lowered.len() != word@.len());
        return false;
    }
    let mut i: usize = 0;
    while i < a.len()
        invariant
            i <= a.len(),
            a.len() == b.len(),
            a@ == s@,
            b@ == word@,
            lowered == s@.map_values(|c: char| ascii_lower(c)),
            forall|j: int| 0 <= j < i ==> lowered[j] == word@[j],
        decreases a.len() - i,
    {
        let n: u32 = a[i] as u32;
        let low: char = if 65 <= n && n <= 90 {
            (n as u8 + 32u8) as char
        } else {
            a[i]
        };
        assert(lowered[i as int] == low);
        if low != b[i] {
            return false;
        }
        i = i + 1;
    }
    assert(lowered =~= word@);
    true
}

/// Whether `c` is an ASCII hexadecimal digit.
pub open spec fn is_hex(c: char) -> bool {
    let n = c as u32;
    48 <= n <= 57 || 65 <= n <= 70 || 97 <= n <= 102
}

/// Whether `s` consists of hexadecimal digits alone.
pub open spec fn all_hex(s: Seq<char>) -> bool {
    forall|i: int| 0 <= i < s.len() ==> is_hex(#[trigger] s[i])
}

/// Whether `s` consists of lower-case ASCII letters alone.
pub open spec fn all_lower(s: Seq<char>) -> bool {
    forall|i: int| 0 <= i < s.len() ==> 97 <= (#[trigger] s[i]) as u32 <= 122
}

/// The number of characters of `s`, where all of them are hexadecimal digits.
pub fn hex_len(s: &str) -> (res: Option<usize>)
    ensures
        res is Some <==> all_hex(s@),
        res is Some ==> res->0 == s@.len(),
{
    let chars = chars_of(s);
    let mut i: usize = 0;
    while i < chars.len()
        invariant
            i <= chars.len(),
            chars@ == s@,
            forall|j: int| 0 <= j < i ==> is_hex(#[trigger] s@[j]),
        decreases chars.len() - i,
    {
        let n: u32 = chars[i] as u32;
        if !((48 <= n && n <= 57) || (65 <= n && n <= 70) || (97 <= n && n <= 102)) {
            assert(!is_hex(s@[i as int]));
            return None;
        }
        i = i + 1;
    }
    Some(chars.len())
}

/// The number of characters of `s`, where all of them are lower-case ASCII letters.
pub fn lower_len(s: &str) -> (res: Option<usize>)
    ensures
        res is Some <==> all_lower(s@),
        res is Some ==> res->0 == s@.len(),
{
    let chars = chars_of(s);
    let mut i: usize = 0;
    while i < chars.len()
        invariant
            i <= chars.len(),
            chars@ == s@,
            forall|j: int| 0 <= j < i ==> 97 <= (#[trigger] s@[j]) as u32 <= 122,
        decreases chars.len() - i,
    {
        let n: u32 = chars[i] as u32;
        if n < 97 || n > 122 {
            assert(!(97 <= s@[i as int] as u32 <= 122));
            return None;
        }
        i = i + 1;
    }
    Some(chars.len())
}

/// The parts of a text between separators.
pub open spec fn parts(s: Seq<char>, sep: char) -> Seq<Seq<char>>
    decreases s.len(),
    via parts_decreases
{
    let end = first_of(s, sep);
    if end >= s.len() {
        seq![s]
    } else {
        seq![s.take(end)] + parts(s.skip(end + 1), sep)
    }
}

#[via_fn]
proof fn parts_decreases(s: Seq<char>, sep: char) {
    lemma_first_of_range(s, sep);
}

/// The parts of a text between separators.
pub fn split_on(s: &str, sep: char) -> (res: Vec<String>)
    ensures
        texts(res@) == parts(s@, sep),
{
    let chars = chars_of(s);
    let mut out: Vec<String> = Vec::new();
    let mut start: usize = 0;
    proof {
        assert(s@.skip(0) =~= s@);
        assert(texts(out@) + parts(s@, sep) =~= parts(s@, sep));
    }
    loop
        invariant_except_break
            start <= chars.len(),
            chars@ == s@,
            texts(out@) + parts(s@.skip(start as int), sep) == parts(s@, sep),
        ensures
            texts(out@) == parts(s@, sep),
        decreases chars.len() - start,
    {
        let ghost rest = s@.skip(start as int);
        let ghost done = texts(out@);
        let end = find_from(&chars, start, sep);
        let part = string_of(&chars, start, end);
        out.push(part);
        assert(texts(out@) =~= done.push(part@));
        assert(part@ =~= rest.take(end - start));
        if end == chars.len() {
            proof {
                assert(part@ =~= rest);
                assert(texts(out@) =~= done + parts(rest, sep));
            }
            break;
        }
        proof {
            assert(rest.skip(end - start + 1) =~= s@.skip(end + 1));
            assert(texts(out@) + parts(s@.skip(end + 1), sep) =~= done + (seq![part@] + parts(
                s@.skip(end + 1),
                sep,
            )));
        }
        start = end + 1;
    }
    out
}

/// The components of a path that count: none that is empty, and none that is
/// `.`, but for one at the beginning of a relative path.
pub open spec fn path_components(path: Seq<char>) -> Seq<Seq<char>> {
    components_of(parts(path, '/'))
}

/// The components that count among the parts of a path.
pub open spec fn components_of(all: Seq<Seq<char>>) -> Seq<Seq<char>>
    decreases all.len(),
{
    if all.len() == 0 {
        seq![]
    } else {
        let earlier = components_of(all.drop_last());
        if all.last().len() == 0 || (all.last() == "."@ && all.len() > 1) {
            earlier
        } else {
            earlier.push(all.last())
        }
    }
}

/// Whether two paths are the same as paths: both absolute or both relative,
/// with the same components.
pub open spec fn same_path(a: Seq<char>, b: Seq<char>) -> bool {
    is_absolute(a) == is_absolute(b) && path_components(a) == path_components(b)
}

/// Whether a path starts at the root.
pub open spec fn is_absolute(path: Seq<char>) -> bool {
    path.len() > 0 && path[0] == '/'
}

fn components(path: &str) -> (res: Vec<String>)
    ensures
        texts(res@) == path_components(path@),
{
    let split = split_on(path, '/');
    let ghost all = parts(path@, '/');
    let mut out: Vec<String> = Vec::new();
    let mut i: usize = 0;
    proof {
        assert(all.take(0) =~= seq![]);
        assert(texts(out@) =~= seq![]);
    }
    while i < split.len()
        invariant
            i <= split.len(),
            texts(split@) == all,
            all == parts(path@, '/'),
            texts(out@) == components_of(all.take(i as int)),
        decreases split.len() - i,
    {
        let ghost before = out@;
        proof {
            assert(split@[i as int]@ == all[i as int]);
            assert(all.take(i + 1).drop_last() =~= all.take(i as int));
            assert(all.take(i + 1).last() == all[i as int]);
        }
        let part = split[i].as_str();
        if !part.is_empty() && (i == 0 || !same_text(part, ".")) {
            out.push(split[i].clone());
            assert(texts(out@) =~= texts(before).push(all[i as int]));
        }
        i = i + 1;
    }
    assert(all.take(i as int) =~= all);
    out
}

/// Whether two vectors hold the same texts.
pub fn same_texts(a: &Vec<String>, b: &Vec<String>) -> (res: bool)
    ensures
        res == (texts(a@) == texts(b@)),
{
    if a.len() != b.len() {
        assert(texts(a@).len() != texts(b@).len());
        return false;
    }
    let mut i: usize = 0;
    while i < a.len()
        invariant
            i <= a.len(),
            a.len() == b.len(),
            forall|j: int| 0 <= j < i ==> texts(a@)[j] == texts(b@)[j],
        decreases a.len() - i,
    {
        if !same_text(a[i].as_str(), b[i].as_str()) {
            assert(texts(a@)[i as int] != texts(b@)[i as int]);
            return false;
        }
        i = i + 1;
    }
    assert(texts(a@) =~= texts(b@));
    true
}

/// Whether two paths are the same as paths.
pub fn paths_match(a: &str, b: &str) -> (res: bool)
    ensures
        res == same_path(a@, b@),
{
    let x = chars_of(a);
    let y = chars_of(b);
    let a_absolute = x.len() > 0 && x[0] == '/';
    let b_absolute = y.len() > 0 && y[0] == '/';
    a_absolute == b_absolute && same_texts(&components(a), &components(b))
}

/// A lower-case hexadecimal digit.
pub open spec fn hex_digit(d: int) -> char {
    if d < 10 {
        (48 + d) as char
    } else {
        (87 + d) as char
    }
}

/// A number in hexadecimal, without leading zeros.
pub open spec fn hexadecimal(n: nat) -> Seq<char>
    decreases n,
{
    if n < 16 {
        seq![hex_digit(n as int)]
    } else {
        hexadecimal(n / 16).push(hex_digit((n % 16) as int))
    }
}

/// A number in hexadecimal.
pub fn hexadecimal_of(n: u16) -> (res: String)
    ensures
        res@ == hexadecimal(n as nat),
    decreases n,
{
    let low: u8 = (n % 16) as u8;
    let c: char = if low < 10 {
        (48u8 + low) as char
    } else {
        (87u8 + low) as char
    };
    if n < 16 {
        let mut out = String::new();
        out.push(c);
        assert(out@ =~= hexadecimal(n as nat));
        out
    } else {
        let mut out = hexadecimal_of(n / 16);
        out.push(c);
        out
    }
}

/// How many bytes a character takes in UTF-8.
pub open spec fn byte_width(c: char) -> nat {
    vstd::utf8::encode_scalar(c as u32).len()
}

/// How many bytes a text takes in UTF-8.
pub open spec fn byte_len(s: Seq<char>) -> nat {
    vstd::utf8::encode_utf8(s).len()
}

/// How many bytes a character takes in UTF-8.
pub fn byte_width_of(c: char) -> (res: usize)
    ensures
        res == byte_width(c),
        1 <= res <= 4,
{
    let code: u32 = c as u32;
    if code < 0x80 {
        1
    } else if code < 0x800 {
        2
    } else if code < 0x10000 {
        3
    } else {
        4
    }
}

/// A line of dashes, one for each byte of a text.
pub open spec fn dashes(s: Seq<char>) -> Seq<char> {
    Seq::new(byte_len(s), |i: int| '-')
}

/// A line of dashes, one for each byte of a text.
pub fn underline(s: &str) -> (res: String)
    ensures
        res@ == dashes(s@),
{
    let chars = chars_of(s);
    let mut res = String::new();
    let mut i: usize = 0;
    assert(chars@.skip(0) =~= s@);
    while i < chars.len()
        invariant
            i <= chars.len(),
            chars@ == s@,
            res@.len() + byte_len(s@.skip(i as int)) == byte_len(s@),
            forall|j: int| 0 <= j < res@.len() ==> res@[j] == '-',
        decreases chars.len() - i,
    {
        let ghost rest = s@.skip(i as int);
        assert(rest[0] == chars@[i as int]);
        assert(rest.drop_first() =~= s@.skip(i + 1));
        let width = byte_width_of(chars[i]);
        let mut k: usize = 0;
        let ghost before = res@.len();
        while k < width
            invariant
                k <= width,
                res@.len() == before + k,
                forall|j: int| 0 <= j < res@.len() ==> res@[j] == '-',
            decreases width - k,
        {
            res.push('-');
            k = k + 1;
        }
        i = i + 1;
    }
    assert(s@.skip(i as int) =~= seq![]);
    assert(res@ =~= dashes(s@));
    res
}

/// The beginning of a text that takes the given number of bytes in UTF-8, or
/// the whole text where it takes no more; none where those bytes would end
/// inside a character.
pub open spec fn first_bytes(s: Seq<char>, n: nat) -> Option<Seq<char>>
    decreases s.len(),
{
    if s.len() == 0 || n == 0 {
        Some(seq![])
    } else if byte_width(s[0]) > n {
        None
    } else {
        match first_bytes(s.drop_first(), (n - byte_width(s[0])) as nat) {
            Some(rest) => Some(seq![s[0]] + rest),
            None => None,
        }
    }
}

/// The beginning of a text that takes the given number of bytes in UTF-8, or
/// the whole text where it takes no more; none where those bytes would end
/// inside a character.
pub fn take_bytes(s: &str, n: usize) -> (res: Option<String>)
    ensures
        match (res, first_bytes(s@, n as nat)) {
            (Some(r), Some(t)) => r@ == t,
            (None, None) => true,
            _ => false,
        },
{
    let chars = chars_of(s);
    let mut left: usize = n;
    let mut i: usize = 0;
    proof {
        assert(s@.skip(0) =~= s@);
        assert(forall|t: Seq<char>| s@.take(0) + t =~= t);
    }
    while i < chars.len() && left > 0
        invariant
            i <= chars.len(),
            chars@ == s@,
            first_bytes(s@, n as nat) == match first_bytes(s@.skip(i as int), left as nat) {
                Some(rest) => Some(s@.take(i as int) + rest),
                None => None,
            },
        decreases chars.len() - i,
    {
        let ghost rest = s@.skip(i as int);
        assert(rest[0] == chars@[i as int]);
        assert(rest.drop_first() =~= s@.skip(i + 1));
        let width = byte_width_of(chars[i]);
        if width > left {
            return None;
        }
        assert forall|t: Seq<char>| s@.take(i as int) + (seq![rest[0]] + t) == s@.take(i + 1) + t by {
            assert(s@.take(i as int) + (seq![rest[0]] + t) =~= s@.take(i + 1) + t);
        }
        left = left - width;
        i = i + 1;
    }
    assert(s@.take(i as int) + seq![] =~= s@.take(i as int));
    let res = string_of(&chars, 0, i);
    assert(res@ =~= s@.take(i as int));
    Some(res)
}

/// Of text whose characters take one byte each, the first bytes are the first
/// characters.
pub proof fn lemma_narrow_first_bytes(s: Seq<char>, n: nat)
    requires
        forall|i: int| 0 <= i < s.len() ==> byte_width(#[trigger] s[i]) == 1,
    ensures
        first_bytes(s, n) == Some(
            if s.len() <= n {
                s
            } else {
                s.take(n as int)
            },
        ),
    decreases s.len(),
{
    if s.len() == 0 {
        assert(s =~= seq![]);
    } else if n == 0 {
        assert(s.take(0) =~= seq![]);
    } else {
        let rest = s.drop_first();
        assert forall|i: int| 0 <= i < rest.len() implies byte_width(#[trigger] rest[i]) == 1 by {
            assert(rest[i] == s[i + 1]);
        }
        lemma_narrow_first_bytes(rest, (n - 1) as nat);
        if s.len() <= n {
            assert(seq![s[0]] + rest =~= s);
        } else {
            assert(seq![s[0]] + rest.take(n - 1) =~= s.take(n as int));
        }
    }
}

/// Lines end at line feeds: a text is its first line, up to the first line feed
/// and without a carriage return before that, and then the lines of the rest.
pub proof fn law_lines_end_at_line_feeds(line: Seq<char>, rest: Seq<char>)
    requires
        !line.contains('\n'),
    ensures
        lines(line + seq!['\n'] + rest) == seq![
            if line.len() > 0 && line.last() == '\r' {
                line.drop_last()
            } else {
                line
            },
        ] + lines(rest),
        line.len() > 0 ==> lines(line) == seq![line],
        lines(Seq::<char>::empty()) == Seq::<Seq<char>>::empty(),
{
    let s = line + seq!['\n'] + rest;
    assert forall|j: int| 0 <= j < line.len() implies s[j] != '\n' && line[j] != '\n' by {
        assert(s[j] == line[j]);
        assert(line.contains(line[j]));
    }
    assert(s[line.len() as int] == '\n');
    lemma_first_of(s, '\n', line.len() as int);
    lemma_first_of(line, '\n', line.len() as int);
    assert(s.take(line.len() as int) =~= line);
    assert(s.skip(line.len() as int + 1) =~= rest);
}

/// Words end at white space: a text that begins with a word, preceded by any
/// white space and followed by white space or nothing, is that word and then the
/// words of the rest.
pub proof fn law_words_end_at_white_space(before: Seq<char>, word: Seq<char>, rest: Seq<char>)
    requires
        forall|i: int| 0 <= i < before.len() ==> is_white(#[trigger] before[i]),
        word.len() > 0,
        forall|i: int| 0 <= i < word.len() ==> !is_white(#[trigger] word[i]),
        rest.len() == 0 || is_white(rest[0]),
    ensures
        words(before + word + rest) == seq![word] + words(rest),
        words(before) == Seq::<Seq<char>>::empty(),
{
    let s = before + word + rest;
    lemma_lead_len_is(s, true, before.len() as int);
    lemma_lead_len_is(before, true, before.len() as int);
    assert(s.skip(before.len() as int) =~= word + rest);
    lemma_lead_len_is(word + rest, false, word.len() as int);
    assert((word + rest).take(word.len() as int) =~= word);
    assert((word + rest).skip(word.len() as int) =~= rest);
}

/// A text begins with a prefix exactly where it is that prefix and something
/// after it, and that is what follows the prefix.
pub proof fn law_prefixes_come_first(prefix: Seq<char>, rest: Seq<char>, s: Seq<char>)
    ensures
        after_prefix(prefix + rest, prefix) == Some(rest),
        after_prefix(s, prefix) matches Some(r) ==> s == prefix + r,
        begins_with(s, prefix) <==> after_prefix(s, prefix) is Some,
        holds_text(s + prefix + rest, prefix),
{
    assert((prefix + rest).take(prefix.len() as int) =~= prefix);
    assert((prefix + rest).skip(prefix.len() as int) =~= rest);
    if begins_with(s, prefix) {
        assert(s =~= prefix + s.skip(prefix.len() as int));
    }
    let t = s + prefix + rest;
    assert(t.subrange(s.len() as int, s.len() as int + prefix.len()) =~= prefix);
    assert(holds_text_at(t, prefix, s.len() as int));
}

/// A text that stands in another splits it into what is before and after.
pub proof fn law_held_text_splits(s: Seq<char>, needle: Seq<char>)
    requires
        holds_text(s, needle),
    ensures
        exists|a: Seq<char>, b: Seq<char>| s == #[trigger] (a + needle + b),
{
    let i = choose|i: int| 0 <= i && #[trigger] holds_text_at(s, needle, i);
    let a = s.take(i);
    let b = s.skip(i + needle.len());
    assert(s =~= a + needle + b);
}

/// Trimming takes the white space at both ends off, and nothing else.
pub proof fn law_trimming_takes_white_space(before: Seq<char>, core: Seq<char>, after: Seq<char>)
    requires
        forall|i: int| 0 <= i < before.len() ==> is_white(#[trigger] before[i]),
        forall|i: int| 0 <= i < after.len() ==> is_white(#[trigger] after[i]),
        core.len() > 0,
        !is_white(core[0]),
        !is_white(core.last()),
    ensures
        trimmed(before + core + after) == core,
        trimmed(before) == Seq::<char>::empty(),
{
    let s = before + core + after;
    lemma_lead_len_is(s, true, before.len() as int);
    assert(s.skip(before.len() as int) =~= core + after);
    lemma_trim_end(core, after);
    lemma_lead_len_is(before, true, before.len() as int);
    assert(before.skip(before.len() as int) =~= seq![]);
}

proof fn lemma_trim_end(core: Seq<char>, after: Seq<char>)
    requires
        forall|i: int| 0 <= i < after.len() ==> is_white(#[trigger] after[i]),
        core.len() > 0,
        !is_white(core.last()),
    ensures
        trim_end(core + after) == core,
    decreases after.len(),
{
    if after.len() == 0 {
        assert(core + after =~= core);
    } else {
        assert((core + after).last() == after[after.len() - 1]);
        assert((core + after).drop_last() =~= core + after.drop_last());
        lemma_trim_end(core, after.drop_last());
    }
}

/// Texts are joined in their order, with the separator between each two.
pub proof fn law_joining_keeps_order(parts: Seq<Seq<char>>, last: Seq<char>, sep: Seq<char>)
    ensures
        joined(Seq::<Seq<char>>::empty(), sep) == Seq::<char>::empty(),
        joined(seq![last], sep) == last,
        parts.len() > 0 ==> joined(parts.push(last), sep) == joined(parts, sep) + sep + last,
{
    assert(parts.push(last).drop_last() =~= parts);
}

/// A path below a directory begins with the directory and ends with the path; an
/// absolute path stands for itself.
pub proof fn law_paths_lie_below(dir: Seq<char>, path: Seq<char>)
    ensures
        path.len() > 0 && path[0] == '/' ==> joined_path(dir, path) == path,
        !(path.len() > 0 && path[0] == '/') && dir.len() > 0 && dir.last() != '/' ==> joined_path(
            dir,
            path,
        ) == dir + "/"@ + path,
        !(path.len() > 0 && path[0] == '/') && dir.len() > 0 && dir.last() == '/' ==> joined_path(
            dir,
            path,
        ) == dir + path,
{
}

/// The parts of a text are what stands between separators.
pub proof fn law_parts_end_at_separators(part: Seq<char>, rest: Seq<char>, sep: char)
    requires
        !part.contains(sep),
    ensures
        parts(part + seq![sep] + rest, sep) == seq![part] + parts(rest, sep),
        parts(part, sep) == seq![part],
        text_before(part + seq![sep] + rest, sep) == part,
        text_before(part, sep) == part,
{
    let s = part + seq![sep] + rest;
    assert forall|j: int| 0 <= j < part.len() implies s[j] != sep && part[j] != sep by {
        assert(s[j] == part[j]);
        assert(part.contains(part[j]));
    }
    assert(s[part.len() as int] == sep);
    lemma_first_of(s, sep, part.len() as int);
    lemma_first_of(part, sep, part.len() as int);
    assert(s.take(part.len() as int) =~= part);
    assert(part.take(part.len() as int) =~= part);
    assert(s.skip(part.len() as int + 1) =~= rest);
}

/// The number that hexadecimal digits stand for.
pub open spec fn hexadecimal_value(s: Seq<char>) -> int
    decreases s.len(),
{
    if s.len() == 0 {
        0
    } else {
        let c = s.last() as u32;
        hexadecimal_value(s.drop_last()) * 16 + (if c >= 97 {
            c - 87
        } else {
            c - 48
        })
    }
}

/// A number written in hexadecimal stands for that number.
pub proof fn law_hexadecimal_reads_back(n: nat)
    ensures
        hexadecimal_value(hexadecimal(n)) == n,
    decreases n,
{
    reveal_with_fuel(hexadecimal_value, 2);
    if n >= 16 {
        law_hexadecimal_reads_back(n / 16);
        assert(hexadecimal(n).drop_last() =~= hexadecimal(n / 16));
    } else {
        assert(hexadecimal(n).drop_last() =~= seq![]);
    }
}

/// An integer is written with a minus sign exactly where it is negative, and then
/// its size.
pub proof fn law_signs_come_first(n: nat)
    requires
        n > 0,
    ensures
        signed_decimal(n as int) == decimal(n),
        signed_decimal(-n) == seq!['-'] + decimal(n),
        signed_decimal(0) == seq!['0'],
{
    assert(digit(0) == '0');
}

/// The first bytes of a text are a beginning of it, and they take as many bytes
/// as asked for unless the text has no more.
pub proof fn law_first_bytes_are_a_beginning(s: Seq<char>, n: nat)
    ensures
        first_bytes(s, n) matches Some(b) ==> begins_with(s, b),
        first_bytes(s, 0) == Some(Seq::<char>::empty()),
        s.len() > 0 && byte_width(s[0]) <= n ==> (first_bytes(s, n) matches Some(b) ==> b.len() > 0
            && first_bytes(s.drop_first(), (n - byte_width(s[0])) as nat) == Some(b.drop_first())),
        s.len() > 0 && 0 < n < byte_width(s[0]) ==> first_bytes(s, n) is None,
    decreases s.len(),
{
    if s.len() > 0 && n > 0 && byte_width(s[0]) <= n {
        law_first_bytes_are_a_beginning(s.drop_first(), (n - byte_width(s[0])) as nat);
        match first_bytes(s.drop_first(), (n - byte_width(s[0])) as nat) {
            Some(rest) => {
                let b = seq![s[0]] + rest;
                assert(b.drop_first() =~= rest);
                assert(s.take(b.len() as int) =~= b) by {
                    assert(s.drop_first().take(rest.len() as int) == rest);
                    assert forall|i: int| 0 <= i < b.len() implies s.take(b.len() as int)[i]
                        == b[i] by {
                        if i > 0 {
                            assert(s.drop_first().take(rest.len() as int)[i - 1] == rest[i - 1]);
                        }
                    }
                }
            },
            None => {},
        }
    } else {
        assert(s.take(0) =~= seq![]);
    }
}

/// What counts as a digit, a hexadecimal digit, a lower-case letter and white
/// space among the characters that identifiers and commands are made of.
pub proof fn law_character_classes(c: char)
    ensures
        is_digit(c) <==> 0x30 <= c as u32 <= 0x39,
        is_hex(c) <==> is_digit(c) || 0x41 <= c as u32 <= 0x46 || 0x61 <= c as u32 <= 0x66,
        all_lower(seq![c]) <==> 0x61 <= c as u32 <= 0x7a,
        all_hex(seq![c]) <==> is_hex(c),
        (c as u32) < 0x80 ==> (is_white(c) <==> c == ' ' || 0x09 <= c as u32 <= 0x0d),
        ascii_lower(c) as u32 == (if 0x41 <= c as u32 <= 0x5a {
            c as u32 + 0x20
        } else {
            c as u32 as int
        }),
{
    let one = seq![c];
    assert(one[0] == c);
}

/// Numbers are written digit by digit, the most significant first and without
/// zeros before it.
pub proof fn law_decimal_goes_digit_by_digit(n: nat, d: nat)
    requires
        d < 10,
    ensures
        decimal(d).len() == 1,
        decimal(d)[0] as u32 == 48 + d,
        n > 0 ==> decimal(n * 10 + d) == decimal(n) + decimal(d),
        n > 0 ==> decimal(n)[0] != '0',
        signed_decimal(n as int) == decimal(n),
    decreases n,
{
    if n > 0 {
        assert((n * 10 + d) / 10 == n);
        assert((n * 10 + d) % 10 == d);
        assert(decimal(n * 10 + d) =~= decimal(n) + decimal(d));
        if n >= 10 {
            law_decimal_goes_digit_by_digit(n / 10, (n % 10) as nat);
            lemma_decimal(n / 10);
        } else {
            assert(decimal(n)[0] as u32 == 48 + n);
        }
    }
}

/// A number is read digit by digit, the most significant first. Anything but
/// digits, with a plus sign before them or not, is no number, and neither is
/// one that is too large.
pub proof fn law_numbers_are_read_digit_by_digit(s: Seq<char>, c: char, max: nat)
    ensures
        natural(Seq::<char>::empty(), max) is None,
        natural(seq!['+'], max) is None,
        natural(s, max) matches Some(v) ==> v <= max,
        48 <= c as u32 <= 57 && c as u32 - 48 <= max ==> natural(seq![c], max) == Some(
            (c as u32 - 48) as nat,
        ),
        natural(s, max) matches Some(v) ==> {
            &&& 48 <= c as u32 <= 57 && v * 10 + (c as u32 - 48) <= max ==> natural(
                s.push(c),
                max,
            ) == Some((v * 10 + (c as u32 - 48)) as nat)
            &&& 48 <= c as u32 <= 57 && v * 10 + (c as u32 - 48) > max ==> natural(
                s.push(c),
                max,
            ) is None
        },
        s.len() > 0 && !(48 <= c as u32 <= 57) ==> natural(s.push(c), max) is None,
        s.len() > 0 && s[0] != '+' ==> natural(seq!['+'] + s, max) == natural(s, max),
{
    let more = s.push(c);
    let one = seq![c];
    assert(number_digits(seq!['+']) =~= seq![]);
    assert(one.drop_last() =~= seq![]);
    assert(digits_value(one.drop_last()) == 0);
    assert(one[0] == c);
    assert((seq!['+'] + s).drop_first() =~= s);
    if s.len() > 0 {
        let digits = number_digits(s);
        let all = number_digits(more);
        assert(all =~= digits.push(c));
        assert(all.drop_last() =~= digits);
        assert(all.last() == c);
        if !is_digit(c) {
            assert(!is_digit(all[all.len() - 1]));
        }
        if natural(s, max) is Some {
            assert forall|i: int| 0 <= i < all.len() && is_digit(c) implies is_digit(
                #[trigger] all[i],
            ) by {
                if i < digits.len() {
                    assert(all[i] == digits[i]);
                }
            }
        }
    }
}

/// Whether a character is read as a letter: it is that letter and no ASCII capital,
/// or the ASCII capital of it.
pub open spec fn is_read_as(c: char, letter: char) -> bool {
    if 0x41 <= c as u32 <= 0x5a {
        letter as u32 == c as u32 + 32
    } else {
        c == letter
    }
}

proof fn lemma_read_as(c: char, letter: char)
    ensures
        is_read_as(c, letter) <==> ascii_lower(c) == letter,
{
    law_character_classes(c);
    if is_read_as(c, letter) {
        assert(ascii_lower(c) as u32 == letter as u32);
        assert(ascii_lower(c) == letter);
    }
}

/// A text reads as a word exactly if it has as many characters and each is read as
/// that of the word.
pub proof fn law_words_are_read_in_either_case(s: Seq<char>, word: Seq<char>)
    ensures
        reads_as(s, word) <==> s.len() == word.len() && forall|i: int|
            0 <= i < s.len() ==> is_read_as(#[trigger] s[i], word[i]),
{
    let lowered = s.map_values(|c: char| ascii_lower(c));
    if reads_as(s, word) {
        assert forall|i: int| 0 <= i < s.len() implies is_read_as(#[trigger] s[i], word[i]) by {
            assert(lowered[i] == word[i]);
            lemma_read_as(s[i], word[i]);
        }
    }
    if s.len() == word.len() && forall|i: int|
        0 <= i < s.len() ==> is_read_as(#[trigger] s[i], word[i]) {
        assert forall|i: int| 0 <= i < s.len() implies lowered[i] == word[i] by {
            assert(is_read_as(s[i], word[i]));
            lemma_read_as(s[i], word[i]);
        }
        assert(lowered =~= word);
    }
}

/// What stands before a character is everything up to the first one, and the whole
/// text where there is none.
pub proof fn law_text_ends_before_a_character(line: Seq<char>, c: char, rest: Seq<char>)
    requires
        !line.contains(c),
    ensures
        text_before(line + seq![c] + rest, c) == line,
        text_before(line, c) == line,
{
    let s = line + seq![c] + rest;
    assert forall|j: int| 0 <= j < line.len() implies s[j] != c && line[j] != c by {
        assert(s[j] == line[j]);
        assert(line.contains(line[j]));
    }
    lemma_text_before(s, c, line.len() as int);
    lemma_text_before(line, c, line.len() as int);
    assert(s.take(line.len() as int) =~= line);
    assert(line.take(line.len() as int) =~= line);
}

/// What counts in a path. A part that is empty does not, and neither does a dot
/// that is not the first part; any other part does. Two paths are the same if
/// the same parts count and both begin at the root or neither does.
pub proof fn law_path_parts_that_count(
    all: Seq<Seq<char>>,
    part: Seq<char>,
    a: Seq<char>,
    b: Seq<char>,
)
    ensures
        components_of(Seq::<Seq<char>>::empty()).len() == 0,
        part.len() == 0 ==> components_of(all.push(part)) == components_of(all),
        part == "."@ && all.len() > 0 ==> components_of(all.push(part)) == components_of(all),
        part.len() > 0 && (part != "."@ || all.len() == 0) ==> components_of(all.push(part))
            == components_of(all).push(part),
        same_path(a, b) <==> (path_components(a) == path_components(b) && (begins_with(
            a,
            seq!['/'],
        ) <==> begins_with(b, seq!['/']))),
        path_components(a) == components_of(parts(a, '/')),
{
    reveal_strlit(".");
    assert(all.push(part).drop_last() =~= all);
    if a.len() > 0 {
        assert(a.take(1)[0] == a[0]);
        if a[0] == '/' {
            assert(a.take(1) =~= seq!['/']);
        }
    }
    if b.len() > 0 {
        assert(b.take(1)[0] == b[0]);
        if b[0] == '/' {
            assert(b.take(1) =~= seq!['/']);
        }
    }
}

/// A line under a text is made of dashes, one for each of its bytes.
pub proof fn law_lines_under_are_dashes(s: Seq<char>, i: int)
    ensures
        dashes(s).len() == vstd::utf8::encode_utf8(s).len(),
        0 <= i < dashes(s).len() ==> dashes(s)[i] == '-',
{
}

/// Texts are those of the strings, one for one.
pub proof fn law_texts_are_those_of_the_strings(strings: Seq<String>, i: int)
    requires
        0 <= i < strings.len(),
    ensures
        texts(strings).len() == strings.len(),
        texts(strings)[i] == strings[i]@,
{
}

/// White space is that of Unicode: besides the ASCII characters, the next-line and
/// no-break characters, the spaces of typography and the separators of lines and
/// paragraphs.
pub proof fn law_white_space_beyond_ascii(c: char)
    requires
        c as u32 >= 0x80,
    ensures
        is_white(c) <==> c as u32 == 0x85 || c as u32 == 0xa0 || c as u32 == 0x1680 || 0x2000
            <= c as u32 <= 0x200a || c as u32 == 0x2028 || c as u32 == 0x2029 || c as u32 == 0x202f
            || c as u32 == 0x205f || c as u32 == 0x3000,
{
}

} // verus!
