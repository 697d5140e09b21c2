//! Plain text: what the rest of the library needs to read and write strings.
//!
//! A text is modelled by the sequence of its characters. Every function here is the
//! counterpart of a `str` method and is proved against a specification over that sequence.
use vstd::prelude::*;

verus! {

/// `String::push` appends one character and leaves the rest of the string as it was.
pub assume_specification[ String::push ](s: &mut String, c: char)
    ensures
        final(s)@ == old(s)@.push(c),
;

/// The Unicode `White_Space` property, which `str::trim` goes by.
pub open spec fn is_white_space(c: char) -> bool {
    ||| '\u{9}' <= c <= '\u{d}'
    ||| c == ' '
    ||| c == '\u{85}'
    ||| c == '\u{a0}'
    ||| c == '\u{1680}'
    ||| '\u{2000}' <= c <= '\u{200a}'
    ||| c == '\u{2028}'
    ||| c == '\u{2029}'
    ||| c == '\u{202f}'
    ||| c == '\u{205f}'
    ||| c == '\u{3000}'
}

/// A text of nothing but white space (the empty text is one).
pub open spec fn is_blank(s: Seq<char>) -> bool {
    forall|i: int| 0 <= i < s.len() ==> is_white_space(#[trigger] s[i])
}

/// `s` without its leading white space.
pub open spec fn trim_start(s: Seq<char>) -> Seq<char>
    decreases s.len(),
{
    if s.len() > 0 && is_white_space(s[0]) {
        trim_start(s.drop_first())
    } else {
        s
    }
}

/// `s` without its trailing white space.
pub open spec fn trim_end(s: Seq<char>) -> Seq<char>
    decreases s.len(),
{
    if s.len() > 0 && is_white_space(s.last()) {
        trim_end(s.drop_last())
    } else {
        s
    }
}

/// `s` without white space at either end.
pub open spec fn trimmed(s: Seq<char>) -> Seq<char> {
    trim_end(trim_start(s))
}

/// `s` without the slashes it ends in.
pub open spec fn without_trailing_slashes(s: Seq<char>) -> Seq<char>
    decreases s.len(),
{
    if s.len() > 0 && s.last() == '/' {
        without_trailing_slashes(s.drop_last())
    } else {
        s
    }
}

/// The lower case letter of an ASCII upper case letter; any other character itself.
pub open spec fn lower(c: char) -> char {
    if 'A' <= c <= 'Z' {
        (c as int + 32) as char
    } else {
        c
    }
}

/// `s` with every ASCII letter in lower case.
pub open spec fn lowered(s: Seq<char>) -> Seq<char> {
    s.map_values(|c: char| lower(c))
}

/// `part` stands in `s` at `at`.
pub open spec fn occurs_at(s: Seq<char>, part: Seq<char>, at: int) -> bool {
    0 <= at && at + part.len() <= s.len() && s.subrange(at, at + part.len()) == part
}

/// `part` stands somewhere in `s`.
pub open spec fn occurs_in(part: Seq<char>, s: Seq<char>) -> bool {
    exists|at: int| #[trigger] occurs_at(s, part, at)
}

/// The decimal digit of a number below ten.
pub open spec fn digit(d: nat) -> char {
    ('0' as int + d) as char
}

/// A number in decimal notation, without leading zeros.
pub open spec fn decimal(n: nat) -> Seq<char>
    decreases n,
{
    if n < 10 {
        seq![digit(n)]
    } else {
        decimal(n / 10).push(digit(n % 10))
    }
}

/// A text of decimal digits only.
pub open spec fn all_digits(s: Seq<char>) -> bool {
    forall|i: int| 0 <= i < s.len() ==> '0' <= #[trigger] s[i] <= '9'
}

/// The number that a text of decimal digits denotes.
pub open spec fn value_of(s: Seq<char>) -> nat
    decreases s.len(),
{
    if s.len() == 0 {
        0
    } else {
        value_of(s.drop_last()) * 10 + (s.last() as int - '0' as int) as nat
    }
}

/// A text without the one plus sign it may start with.
pub open spec fn without_plus(s: Seq<char>) -> Seq<char> {
    if s.len() > 0 && s[0] == '+' {
        s.drop_first()
    } else {
        s
    }
}

/// The `u64` that a text denotes: an optional plus sign and one or more decimal digits,
/// of a value that fits.
pub open spec fn parsed_u64(s: Seq<char>) -> Option<u64> {
    let digits = without_plus(s);
    if digits.len() > 0 && all_digits(digits) && value_of(digits) <= u64::MAX {
        Some(value_of(digits) as u64)
    } else {
        None
    }
}

/// Where the first line of `s` ends: at the first line feed from `from` on, or at the end.
pub open spec fn line_end(s: Seq<char>, from: int) -> int
    decreases s.len() - from,
{
    if from < 0 || from >= s.len() {
        s.len() as int
    } else if s[from] == '\n' {
        from
    } else {
        line_end(s, from + 1)
    }
}

/// A line without the carriage return it may end in.
pub open spec fn without_return(s: Seq<char>) -> Seq<char> {
    if s.len() > 0 && s.last() == '\r' {
        s.drop_last()
    } else {
        s
    }
}

/// The lines of a text, each without its line ending (`\n` or `\r\n`). The last line needs
/// none, and a carriage return that no line feed follows is part of its line.
pub open spec fn lines_of(s: Seq<char>) -> Seq<Seq<char>>
    decreases s.len(),
    via lines_of_decreases
{
    if s.len() == 0 {
        Seq::empty()
    } else if line_end(s, 0) == s.len() {
        seq![s]
    } else {
        seq![without_return(s.take(line_end(s, 0)))] + lines_of(s.skip(line_end(s, 0) + 1))
    }
}

#[via_fn]
proof fn lines_of_decreases(s: Seq<char>) {
    lemma_line_end(s, 0);
}

/// The views of a list of strings.
pub open spec fn views(list: Seq<String>) -> Seq<Seq<char>> {
    list.map_values(|t: String| t@)
}

/// The view of an optional string.
pub open spec fn opt_view(text: Option<String>) -> Option<Seq<char>> {
    match text {
        Some(t) => Some(t@),
        None => None,
    }
}

/// The view of an optional text.
pub open spec fn str_view(text: Option<&str>) -> Option<Seq<char>> {
    match text {
        Some(t) => Some(t@),
        None => None,
    }
}

/// The line end is the first line feed at or behind `from`, or the end of the text.
pub proof fn lemma_line_end(s: Seq<char>, from: int)
    requires
        0 <= from <= s.len(),
    ensures
        from <= line_end(s, from) <= s.len(),
        line_end(s, from) < s.len() ==> s[line_end(s, from)] == '\n',
        forall|i: int| from <= i < line_end(s, from) ==> s[i] != '\n',
    decreases s.len() - from,
{
    if from < s.len() && s[from] != '\n' {
        lemma_line_end(s, from + 1);
    }
}

/// Dropping leading white space leaves nothing exactly of a blank text.
proof fn lemma_trim_start(s: Seq<char>)
    ensures
        is_blank(s) <==> trim_start(s).len() == 0,
        trim_start(s).len() > 0 ==> !is_white_space(trim_start(s)[0]),
        trim_start(s).len() <= s.len(),
    decreases s.len(),
{
    if s.len() > 0 && is_white_space(s[0]) {
        let rest = s.drop_first();
        lemma_trim_start(rest);
        if is_blank(rest) {
            assert forall|i: int| 0 <= i < s.len() implies is_white_space(#[trigger] s[i]) by {
                if i > 0 {
                    assert(rest[i - 1] == s[i]);
                }
            }
        }
        if is_blank(s) {
            assert forall|i: int| 0 <= i < rest.len() implies is_white_space(
                #[trigger] rest[i],
            ) by {
                assert(rest[i] == s[i + 1]);
            }
        }
    }
}

/// Dropping trailing white space leaves something of a text that starts with anything else.
proof fn lemma_trim_end(s: Seq<char>)
    requires
        s.len() > 0 ==> !is_white_space(s[0]),
    ensures
        trim_end(s).len() == 0 <==> s.len() == 0,
    decreases s.len(),
{
    if s.len() > 0 && is_white_space(s.last()) {
        lemma_trim_end(s.drop_last());
    }
}

/// A text is blank exactly if trimming it leaves nothing.
pub proof fn law_blank_means_trimmed_to_nothing(s: Seq<char>)
    ensures
        is_blank(s) <==> trimmed(s).len() == 0,
{
    lemma_trim_start(s);
    lemma_trim_end(trim_start(s));
}

/// A text with no white space at either end is its own trimmed form.
pub proof fn lemma_trimmed_of_solid(s: Seq<char>)
    requires
        s.len() > 0,
        !is_white_space(s[0]),
        !is_white_space(s.last()),
    ensures
        trimmed(s) == s,
{
}

/// The characters of a text, in order.
pub fn chars_of(text: &str) -> (chars: Vec<char>)
    ensures
        chars@ == text@,
{
    let mut chars: Vec<char> = Vec::new();
    for c in iter: text.chars()
        invariant
            chars@ == iter.seq().take(iter.index() as int),
    {
        chars.push(c);
        assert(iter.seq().take(iter.index() as int).push(c) =~= iter.seq().take(iter.index() + 1));
    }
    chars
}

/// Whether two texts are the same.
pub fn same_text(a: &str, b: &str) -> (same: bool)
    ensures
        same == (a@ == b@),
{
    a.to_owned() == b.to_owned()
}

/// Whether a character is white space.
pub fn white_space(c: char) -> (r: bool)
    ensures
        r == is_white_space(c),
{
    ('\u{9}' <= c && c <= '\u{d}') || c == ' ' || c == '\u{85}' || c == '\u{a0}' || c == '\u{1680}'
        || ('\u{2000}' <= c && c <= '\u{200a}') || c == '\u{2028}' || c == '\u{2029}' || c
        == '\u{202f}' || c == '\u{205f}' || c == '\u{3000}'
}

/// Whether a text is nothing but white space.
pub fn blank(text: &str) -> (r: bool)
    ensures
        r == is_blank(text@),
{
    let chars = chars_of(text);
    let mut i: usize = 0;
    while i < chars.len()
        invariant
            i <= chars.len(),
            chars@ == text@,
            forall|j: int| 0 <= j < i ==> is_white_space(#[trigger] chars@[j]),
        decreases chars.len() - i,
    {
        if !white_space(chars[i]) {
            return false;
        }
        i = i + 1;
    }
    true
}

/// A text without white space at either end.
pub fn trim(text: &str) -> (r: &str)
    ensures
        r@ == trimmed(text@),
{
    let chars = chars_of(text);
    let ghost s = text@;
    let mut start: usize = 0;
    assert(s.skip(0) =~= s);
    while start < chars.len() && white_space(chars[start])
        invariant
            start <= chars.len(),
            chars@ == s,
            trim_start(s) == trim_start(s.skip(start as int)),
        decreases chars.len() - start,
    {
        assert(s.skip(start as int).drop_first() =~= s.skip(start + 1));
        start = start + 1;
    }
    let mut end: usize = chars.len();
    assert(s.subrange(start as int, end as int) =~= s.skip(start as int));
    while start < end && white_space(chars[end - 1])
        invariant
            start <= end <= chars.len(),
            chars@ == s,
            trim_end(trim_start(s)) == trim_end(s.subrange(start as int, end as int)),
        decreases end - start,
    {
        assert(s.subrange(start as int, end as int).drop_last() =~= s.subrange(
            start as int,
            end - 1,
        ));
        end = end - 1;
    }
    text.substring_char(start, end)
}

/// A text without the slashes it ends in.
pub fn trim_slashes(text: &str) -> (r: String)
    ensures
        r@ == without_trailing_slashes(text@),
{
    let chars = chars_of(text);
    let ghost s = text@;
    let mut end: usize = chars.len();
    assert(s.take(end as int) =~= s);
    while 0 < end && chars[end - 1] == '/'
        invariant
            end <= chars.len(),
            chars@ == s,
            without_trailing_slashes(s) == without_trailing_slashes(s.take(end as int)),
        decreases end,
    {
        assert(s.take(end as int).drop_last() =~= s.take(end - 1));
        end = end - 1;
    }
    assert(s.subrange(0, end as int) =~= s.take(end as int));
    text.substring_char(0, end).to_owned()
}

/// The lower case letter of an ASCII upper case letter; any other character itself.
fn lower_char(c: char) -> (r: char)
    ensures
        r == lower(c),
{
    if 'A' <= c && c <= 'Z' {
        let code: u8 = c as u8;
        (code + 32u8) as char
    } else {
        c
    }
}

/// A text with every ASCII letter in lower case.
pub fn to_lower(text: &str) -> (r: String)
    ensures
        r@ == lowered(text@),
{
    let chars = chars_of(text);
    let mut r = String::new();
    let mut i: usize = 0;
    while i < chars.len()
        invariant
            i <= chars.len(),
            chars@ == text@,
            r@ =~= lowered(text@.take(i as int)),
        decreases chars.len() - i,
    {
        r.push(lower_char(chars[i]));
        i = i + 1;
        assert(r@ =~= lowered(text@.take(i as int)));
    }
    assert(text@.take(i as int) =~= text@);
    r
}

/// Whether `part` stands somewhere in `text`.
pub fn contains(text: &str, part: &str) -> (r: bool)
    ensures
        r == occurs_in(part@, text@),
{
    let s = chars_of(text);
    let p = chars_of(part);
    if p.len() > s.len() {
        return false;
    }
    let mut at: usize = 0;
    while at <= s.len() - p.len()
        invariant
            p.len() <= s.len(),
            at <= s.len() - p.len() + 1,
            s@ == text@,
            p@ == part@,
            forall|j: int| 0 <= j < at ==> !#[trigger] occurs_at(text@, part@, j),
        decreases s.len() + 1 - at,
    {
        let mut k: usize = 0;
        while k < p.len() && s[at + k] == p[k]
            invariant
                k <= p.len(),
                at + p.len() <= s.len(),
                forall|j: int| 0 <= j < k ==> s@[at + j] == #[trigger] p@[j],
            decreases p.len() - k,
        {
            k = k + 1;
        }
        if k == p.len() {
            assert(text@.subrange(at as int, at + p.len()) =~= part@);
            assert(occurs_at(text@, part@, at as int));
            return true;
        }
        assert(!occurs_at(text@, part@, at as int)) by {
            if occurs_at(text@, part@, at as int) {
                assert(text@.subrange(at as int, at + p.len())[k as int] == part@[k as int]);
            }
        }
        if at == s.len() - p.len() {
            assert forall|j: int| !#[trigger] occurs_at(text@, part@, j) by {}
            return false;
        }
        at = at + 1;
    }
    false
}

/// The decimal digit of a number below ten.
fn digit_char(d: u64) -> (c: char)
    requires
        d < 10,
    ensures
        c == digit(d as nat),
{
    let code: u8 = d as u8;
    (code + 48u8) as char
}

/// A number in decimal notation.
pub fn to_decimal(n: u64) -> (r: String)
    ensures
        r@ == decimal(n as nat),
    decreases n,
{
    if n < 10 {
        let mut r = String::new();
        r.push(digit_char(n));
        assert(r@ =~= seq![digit(n as nat)]);
        r
    } else {
        let mut r = to_decimal(n / 10);
        r.push(digit_char(n % 10));
        r
    }
}

/// The number that a text denotes does not fall when digits are added.
proof fn lemma_value_grows(s: Seq<char>, n: int)
    requires
        all_digits(s),
        0 <= n <= s.len(),
    ensures
        value_of(s.take(n)) <= value_of(s),
    decreases s.len() - n,
{
    if n < s.len() {
        lemma_value_grows(s, n + 1);
        assert(s.take(n + 1).drop_last() =~= s.take(n));
        assert(s[n] == s.take(n + 1).last());
    } else {
        assert(s.take(n) =~= s);
    }
}

/// The `u64` that a text denotes, if it denotes one.
pub fn parse_u64(text: &str) -> (r: Option<u64>)
    ensures
        r == parsed_u64(text@),
{
    let chars = chars_of(text);
    let ghost s = text@;
    let ghost digits = without_plus(s);
    let start: usize = if chars.len() > 0 && chars[0] == '+' {
        1
    } else {
        0
    };
    assert(digits =~= s.skip(start as int));
    if chars.len() == start {
        return None;
    }
    let mut n: u64 = 0;
    let mut i: usize = start;
    assert(digits.take(0) =~= Seq::<char>::empty());
    while i < chars.len()
        invariant
            start <= i <= chars.len(),
            chars@ == s,
            s == text@,
            digits == s.skip(start as int),
            digits == without_plus(s),
            n == value_of(digits.take(i - start)),
            forall|j: int| 0 <= j < i - start ==> '0' <= #[trigger] digits[j] <= '9',
        decreases chars.len() - i,
    {
        let c = chars[i];
        assert(digits[i - start] == c);
        if c < '0' || '9' < c {
            return None;
        }
        let code: u8 = c as u8;
        let d: u64 = (code - 48u8) as u64;
        assert(digits.take(i + 1 - start).drop_last() =~= digits.take(i - start));
        assert(digits.take(i + 1 - start).last() == c);
        assert(value_of(digits.take(i + 1 - start)) == n * 10 + d);
        if n > (u64::MAX - d) / 10 {
            proof {
                if all_digits(digits) {
                    lemma_value_grows(digits, i + 1 - start);
                }
            }
            return None;
        }
        n = n * 10 + d;
        i = i + 1;
    }
    assert(digits.take(i - start) =~= digits);
    Some(n)
}

/// What decimal notation looks like: digits, at least one.
pub proof fn lemma_decimal_digits(n: nat)
    ensures
        decimal(n).len() > 0,
        all_digits(decimal(n)),
        value_of(decimal(n)) == n,
    decreases n,
{
    if n < 10 {
        assert(decimal(n).drop_last() =~= Seq::<char>::empty());
        assert(value_of(decimal(n).drop_last()) == 0);
    } else {
        lemma_decimal_digits(n / 10);
        assert(decimal(n).drop_last() =~= decimal(n / 10));
    }
}

/// Reading the decimal notation of a `u64` gives the number back, and there is no white space to
/// be trimmed off it.
pub proof fn law_decimal_reads_back(n: u64)
    ensures
        parsed_u64(decimal(n as nat)) == Some(n),
        trimmed(decimal(n as nat)) == decimal(n as nat),
{
    let s = decimal(n as nat);
    lemma_decimal_digits(n as nat);
    assert('0' <= s[0] <= '9');
    assert('0' <= s.last() <= '9');
    lemma_trimmed_of_solid(s);
}

/// The lines of a text.
pub fn lines(text: &str) -> (r: Vec<String>)
    ensures
        views(r@) == lines_of(text@),
{
    let chars = chars_of(text);
    let ghost s = text@;
    let mut r: Vec<String> = Vec::new();
    let mut start: usize = 0;
    assert(s.skip(0) =~= s);
    assert(views(r@) + lines_of(s) =~= lines_of(s));
    while start < chars.len()
        invariant
            start <= chars.len(),
            chars@ == s,
            s == text@,
            lines_of(s) == views(r@) + lines_of(s.skip(start as int)),
        decreases chars.len() - start,
    {
        let ghost rest = s.skip(start as int);
        let mut end: usize = start;
        while end < chars.len() && chars[end] != '\n'
            invariant
                start <= end <= chars.len(),
                start < chars.len(),
                chars@ == s,
                rest == s.skip(start as int),
                line_end(rest, 0) == line_end(rest, end - start),
            decreases chars.len() - end,
        {
            assert(rest[end - start] == chars@[end as int]);
            end = end + 1;
        }
        assert(end < chars.len() ==> rest[end - start] == chars@[end as int]);
        assert(line_end(rest, 0) == end - start);
        let ghost before = r@;
        if end == chars.len() {
            let line = text.substring_char(start, end).to_owned();
            assert(line@ =~= rest);
            r.push(line);
            assert(views(r@) =~= views(before).push(line@));
            assert(s.skip(end as int) =~= Seq::<char>::empty());
            assert(views(r@) + lines_of(s.skip(end as int)) =~= views(before) + lines_of(rest));
            start = end;
        } else {
            let stop: usize = if end > start && chars[end - 1] == '\r' {
                end - 1
            } else {
                end
            };
            let line = text.substring_char(start, stop).to_owned();
            assert(rest.take(end - start) =~= s.subrange(start as int, end as int));
            assert(line@ =~= without_return(rest.take(end - start)));
            r.push(line);
            assert(views(r@) =~= views(before).push(line@));
            assert(s.skip(end + 1) =~= rest.skip(end - start + 1));
            assert(views(r@) + lines_of(s.skip(end + 1)) =~= views(before) + lines_of(rest));
            start = end + 1;
        }
    }
    assert(s.skip(start as int) =~= Seq::<char>::empty());
    assert(views(r@) + lines_of(s.skip(start as int)) =~= views(r@));
    r
}

/// White space, by code point: in ASCII the space and the five controls from tab to carriage
/// return, and beyond it these nineteen.
pub proof fn law_white_space_by_code_point(c: char)
    ensures
        (c as int) < 128 ==> (is_white_space(c) <==> c as int == 32 || 9 <= c as int <= 13),
        (c as int) >= 128 ==> (is_white_space(c) <==> {
            ||| c as int == 133
            ||| c as int == 160
            ||| c as int == 5760
            ||| 8192 <= c as int <= 8202
            ||| c as int == 8232
            ||| c as int == 8233
            ||| c as int == 8239
            ||| c as int == 8287
            ||| c as int == 12288
        }),
{
}

/// How many characters trimming takes off the start of a text.
proof fn lemma_trim_start_part(s: Seq<char>) -> (n: int)
    ensures
        0 <= n <= s.len(),
        trim_start(s) == s.skip(n),
        forall|i: int| 0 <= i < n ==> is_white_space(#[trigger] s[i]),
    decreases s.len(),
{
    if s.len() > 0 && is_white_space(s[0]) {
        let rest = s.drop_first();
        let n = lemma_trim_start_part(rest);
        assert(rest.skip(n) =~= s.skip(n + 1));
        assert forall|i: int| 0 <= i < n + 1 implies is_white_space(#[trigger] s[i]) by {
            if i > 0 {
                assert(rest[i - 1] == s[i]);
            }
        }
        n + 1
    } else {
        assert(s.skip(0) =~= s);
        0
    }
}

/// How many characters trimming leaves of a text at its end.
proof fn lemma_trim_end_part(s: Seq<char>) -> (n: int)
    ensures
        0 <= n <= s.len(),
        trim_end(s) == s.take(n),
        forall|i: int| n <= i < s.len() ==> is_white_space(#[trigger] s[i]),
        n > 0 ==> !is_white_space(s[n - 1]),
    decreases s.len(),
{
    if s.len() > 0 && is_white_space(s.last()) {
        let rest = s.drop_last();
        let n = lemma_trim_end_part(rest);
        assert(rest.take(n) =~= s.take(n));
        assert forall|i: int| n <= i < s.len() implies is_white_space(#[trigger] s[i]) by {
            if i < rest.len() {
                assert(rest[i] == s[i]);
            }
        }
        n
    } else {
        assert(s.take(s.len() as int) =~= s);
        s.len() as int
    }
}

/// Trimming takes white space off the two ends of a text, all of it, and nothing else.
pub proof fn law_trimming_takes_off_white_space_alone(s: Seq<char>)
    ensures
        exists|from: int, to: int|
            0 <= from <= to <= s.len() && trimmed(s) == #[trigger] s.subrange(from, to) && (
            forall|i: int|
                (0 <= i < from || to <= i < s.len()) ==> is_white_space(#[trigger] s[i])),
        trimmed(s).len() > 0 ==> !is_white_space(trimmed(s)[0]) && !is_white_space(
            trimmed(s).last(),
        ),
{
    lemma_trim_start(s);
    let from = lemma_trim_start_part(s);
    let rest = s.skip(from);
    let n = lemma_trim_end_part(rest);
    assert(rest.take(n) =~= s.subrange(from, from + n));
    assert forall|i: int| (0 <= i < from || from + n <= i < s.len()) implies is_white_space(
        #[trigger] s[i],
    ) by {
        if i >= from {
            assert(rest[i - from] == s[i]);
        }
    }
}

/// Only slashes at the end are taken off a text, and all of them.
pub proof fn law_only_trailing_slashes_are_taken_off(s: Seq<char>)
    ensures
        exists|n: int|
            0 <= n <= s.len() && without_trailing_slashes(s) == #[trigger] s.take(n) && (forall|
                i: int,
            |
                n <= i < s.len() ==> #[trigger] s[i] == '/') && (n > 0 ==> s[n - 1] != '/'),
    decreases s.len(),
{
    if s.len() > 0 && s.last() == '/' {
        let rest = s.drop_last();
        law_only_trailing_slashes_are_taken_off(rest);
        let n = choose|n: int|
            0 <= n <= rest.len() && without_trailing_slashes(rest) == #[trigger] rest.take(n) && (
            forall|i: int| n <= i < rest.len() ==> #[trigger] rest[i] == '/') && (n > 0 ==> rest[n
                - 1] != '/');
        assert(rest.take(n) =~= s.take(n));
        assert forall|i: int| n <= i < s.len() implies #[trigger] s[i] == '/' by {
            if i < rest.len() {
                assert(rest[i] == s[i]);
            }
        }
    } else {
        assert(s.take(s.len() as int) =~= s);
    }
}

/// Putting a text in lower case changes its ASCII capitals, each to the letter 32 code points on,
/// and no other character.
pub proof fn law_lower_case_changes_ascii_capitals_alone(s: Seq<char>, i: int)
    requires
        0 <= i < s.len(),
    ensures
        lowered(s).len() == s.len(),
        65 <= s[i] as int <= 90 ==> lowered(s)[i] as int == s[i] as int + 32,
        !(65 <= s[i] as int <= 90) ==> lowered(s)[i] == s[i],
{
}

/// A part is found wherever it stands in a text, and found only where all its characters stand
/// one behind the other.
pub proof fn law_a_part_is_found_where_it_stands(
    before: Seq<char>,
    part: Seq<char>,
    behind: Seq<char>,
    s: Seq<char>,
)
    ensures
        occurs_in(part, before + part + behind),
        occurs_in(part, s) ==> exists|from: int, to: int|
            0 <= from <= to <= s.len() && #[trigger] s.subrange(from, to) == part,
{
    let whole = before + part + behind;
    let here = before.len() as int;
    assert(whole.subrange(here, here + part.len()) =~= part);
    assert(occurs_at(whole, part, here));
    if occurs_in(part, s) {
        let at = choose|at: int| #[trigger] occurs_at(s, part, at);
        assert(s.subrange(at, at + part.len()) == part);
    }
}

/// Decimal notation: one more digit stands for ten times the number and the digit.
pub proof fn law_decimal_notation(n: nat, d: nat)
    requires
        d < 10,
    ensures
        decimal(d).len() == 1,
        decimal(d)[0] as int == 48 + d,
        n > 0 ==> decimal(10 * n + d).len() == decimal(n).len() + 1,
        n > 0 ==> decimal(10 * n + d).drop_last() == decimal(n),
        n > 0 ==> decimal(10 * n + d).last() as int == 48 + d,
{
    if n > 0 {
        assert((10 * n + d) / 10 == n);
        assert((10 * n + d) % 10 == d);
        assert(decimal(10 * n + d).drop_last() =~= decimal(n));
    }
}

/// A number is read from digits alone, but for one plus sign in front of them.
pub proof fn law_numbers_are_read_from_digits_alone(s: Seq<char>)
    requires
        parsed_u64(s) is Some,
    ensures
        s.len() > 0,
        forall|i: int|
            0 <= i < s.len() ==> 48 <= #[trigger] s[i] as int <= 57 || (i == 0 && s.len() > 1
                && s[0] == '+'),
{
    let digits = without_plus(s);
    assert forall|i: int| 0 <= i < s.len() implies 48 <= #[trigger] s[i] as int <= 57 || (i == 0
        && s.len() > 1 && s[0] == '+') by {
        if s[0] == '+' {
            if i > 0 {
                assert(digits[i - 1] == s[i]);
            }
        } else {
            assert(digits[i] == s[i]);
        }
    }
}

/// Reading a number goes digit by digit: one more digit gives ten times the number and the digit,
/// as far as that fits; and a plus sign in front makes no difference.
#[verifier::spinoff_prover]
pub proof fn law_numbers_are_read_digit_by_digit(s: Seq<char>, c: char)
    requires
        48 <= c as int <= 57,
        forall|i: int| 0 <= i < s.len() ==> 48 <= #[trigger] s[i] as int <= 57,
    ensures
        parsed_u64(seq![c]) == Some((c as int - 48) as u64),
        s.len() > 0 ==> parsed_u64(s.push(c)) == (match parsed_u64(s) {
            Some(n) => if n * 10 + (c as int - 48) <= u64::MAX {
                Some((n * 10 + (c as int - 48)) as u64)
            } else {
                None
            },
            None => None,
        }),
        s.len() > 0 ==> parsed_u64(seq!['+'] + s) == parsed_u64(s),
{
    let one = seq![c];
    assert(one.drop_last() =~= Seq::<char>::empty());
    assert(value_of(one.drop_last()) == 0);
    assert(value_of(one) == c as int - 48);
    assert(without_plus(one) == one);
    assert(all_digits(one));
    if s.len() > 0 {
        let more = s.push(c);
        assert(more[0] == s[0]);
        assert(more.drop_last() =~= s);
        assert(without_plus(s) == s && without_plus(more) == more);
        assert(all_digits(s));
        assert(all_digits(more));
        assert(value_of(more) == value_of(s) * 10 + (c as int - 48));
        let signed = seq!['+'] + s;
        assert(signed[0] == '+');
        assert(signed.drop_first() =~= s);
        assert(without_plus(signed) == s);
    }
}

/// A number that does not fit is not read.
pub proof fn law_numbers_that_do_not_fit_are_not_read(n: nat)
    requires
        n > u64::MAX,
    ensures
        parsed_u64(decimal(n)) is None,
{
    lemma_decimal_digits(n);
    assert('0' <= decimal(n)[0] <= '9');
}

/// A text is told apart into its lines: at each line feed, with or without a carriage return in
/// front of it, and nowhere else.
pub proof fn law_lines_end_at_line_feeds(line: Seq<char>, rest: Seq<char>)
    requires
        forall|i: int| 0 <= i < line.len() ==> #[trigger] line[i] != '\n',
    ensures
        lines_of(Seq::empty()) == Seq::<Seq<char>>::empty(),
        line.len() > 0 ==> lines_of(line) == seq![line],
        (line.len() == 0 || line.last() != '\r') ==> lines_of(line.push('\n') + rest) == seq![line]
            + lines_of(rest),
        lines_of(line.push('\r').push('\n') + rest) == seq![line] + lines_of(rest),
{
    assert(lines_of(Seq::empty()) =~= Seq::<Seq<char>>::empty());
    lemma_line_end(line, 0);
    let plain = line.push('\n') + rest;
    lemma_line_end(plain, 0);
    assert(plain[line.len() as int] == '\n');
    assert forall|i: int| 0 <= i < line.len() implies plain[i] != '\n' by {
        assert(plain[i] == line[i]);
    }
    assert(line_end(plain, 0) == line.len());
    assert(plain.take(line.len() as int) =~= line);
    assert(plain.skip(line.len() as int + 1) =~= rest);
    let returned = line.push('\r').push('\n') + rest;
    lemma_line_end(returned, 0);
    assert(returned[line.len() as int + 1] == '\n');
    assert forall|i: int| 0 <= i < line.len() + 1 implies returned[i] != '\n' by {
        if i < line.len() {
            assert(returned[i] == line[i]);
        } else {
            assert(returned[i] == '\r');
        }
    }
    assert(line_end(returned, 0) == line.len() + 1);
    assert(returned.take(line.len() as int + 1) =~= line.push('\r'));
    assert(line.push('\r').drop_last() =~= line);
    assert(returned.skip(line.len() as int + 2) =~= rest);
}

} // verus!
