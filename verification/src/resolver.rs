//! The host's build number, read out of the text that a platform query
//! gave. The one line that counts is `BuildNumber=` followed by digits, with
//! or without white space around the line; everything else in the text is
//! passed over.

use vstd::prelude::*;
use vstd::slice::slice_subrange;
use vstd::std_specs::iter::IteratorSpec;
use vstd::string::StringExecFns;
use crate::text::{decimal_text, push_decimal};

verus! {

/// A build of the host system: its number, and the name under which it is
/// shown.
#[derive(Debug, Clone, PartialEq, Eq)]
pub struct WinBuild {
    pub build_number: u32,
    pub display_name: String,
}

/// A build as a mathematical value.
pub struct BuildInfo {
    pub build_number: u32,
    pub display_name: Seq<char>,
}

impl View for WinBuild {
    type V = BuildInfo;

    open spec fn view(&self) -> BuildInfo {
        BuildInfo { build_number: self.build_number, display_name: self.display_name@ }
    }
}

/// The name under which the build with this number is shown.
pub open spec fn display_name_of(build_number: u32) -> Seq<char> {
    "Windows (Build "@ + decimal_text(build_number as nat) + ")"@
}

/// The build with this number, under its name.
pub open spec fn build_info(build_number: u32) -> BuildInfo {
    BuildInfo { build_number, display_name: display_name_of(build_number) }
}

/// What a line must begin with to give the build number.
pub open spec fn key() -> Seq<char> {
    "BuildNumber="@
}

/// White space: the characters that are trimmed off a line.
pub open spec fn is_whitespace(c: char) -> bool {
    let code = c as u32;
    ||| 0x09 <= code <= 0x0D
    ||| code == 0x20
    ||| code == 0x85
    ||| code == 0xA0
    ||| code == 0x1680
    ||| 0x2000 <= code <= 0x200A
    ||| code == 0x2028
    ||| code == 0x2029
    ||| code == 0x202F
    ||| code == 0x205F
    ||| code == 0x3000
}

/// A decimal digit, `0` to `9`.
pub open spec fn is_digit(c: char) -> bool {
    0x30 <= c as u32 <= 0x39
}

/// What a decimal digit counts for; any other character counts for nothing.
pub open spec fn digit_value(c: char) -> nat {
    if is_digit(c) {
        (c as u32 - 0x30) as nat
    } else {
        0
    }
}

/// The number that the digits of `text` write in decimal.
pub open spec fn decimal_value(text: Seq<char>) -> nat
    decreases text.len(),
{
    if text.len() == 0 {
        0
    } else {
        10 * decimal_value(text.drop_last()) + digit_value(text.last())
    }
}

/// `text` read as a build number: it must be one or more decimal digits and
/// nothing else, and the number must fit into 32 bits.
pub open spec fn parse_number(text: Seq<char>) -> Option<u32> {
    if text.len() > 0 && (forall|i: int| 0 <= i < text.len() ==> is_digit(#[trigger] text[i]))
        && decimal_value(text) <= u32::MAX {
        Some(decimal_value(text) as u32)
    } else {
        None
    }
}

/// `text` without the white space at its front.
pub open spec fn trimmed_front(text: Seq<char>) -> Seq<char>
    decreases text.len(),
{
    if text.len() > 0 && is_whitespace(text.first()) {
        trimmed_front(text.drop_first())
    } else {
        text
    }
}

/// `text` without the white space at its back.
pub open spec fn trimmed_back(text: Seq<char>) -> Seq<char>
    decreases text.len(),
{
    if text.len() > 0 && is_whitespace(text.last()) {
        trimmed_back(text.drop_last())
    } else {
        text
    }
}

/// `text` without the white space at either end.
pub open spec fn trimmed(text: Seq<char>) -> Seq<char> {
    trimmed_back(trimmed_front(text))
}

/// Whether a line begins at index `at` of `text`: at the very start, or
/// right after a line feed.
pub open spec fn line_starts_at(text: Seq<char>, at: int) -> bool {
    0 <= at <= text.len() && (at == 0 || text[at - 1] == '\n')
}

/// Whether `prefix` stands in `text` at index `at`.
pub open spec fn has_prefix_at(text: Seq<char>, at: int, prefix: Seq<char>) -> bool {
    &&& 0 <= at
    &&& at + prefix.len() <= text.len()
    &&& text.subrange(at, at + prefix.len()) == prefix
}

/// Where the line that holds index `from` ends: at the first line feed at or
/// after `from`, or at the end of the text.
pub open spec fn line_end(text: Seq<char>, from: int) -> int
    decreases text.len() - from,
{
    if from < 0 || from >= text.len() {
        text.len() as int
    } else if text[from] == '\n' {
        from
    } else {
        line_end(text, from + 1)
    }
}

/// The line that begins at index `at`, without its line feed and without
/// the white space at either end.
pub open spec fn line_text(text: Seq<char>, at: int) -> Seq<char> {
    trimmed(text.subrange(at, line_end(text, at)))
}

/// Whether a line begins at index `at` whose text begins with the key.
pub open spec fn is_build_line(text: Seq<char>, at: int) -> bool {
    line_starts_at(text, at) && has_prefix_at(line_text(text, at), 0, key())
}

/// The start of the first line, at or after index `from`, whose text begins
/// with the key.
pub open spec fn first_build_line(text: Seq<char>, from: int) -> Option<int>
    decreases text.len() - from,
{
    if from < 0 || from >= text.len() {
        None
    } else if is_build_line(text, from) {
        Some(from)
    } else {
        first_build_line(text, from + 1)
    }
}

/// What the line that begins at `at` gives for the key: what stands behind
/// the key in the line's text, up to its end.
pub open spec fn build_line_value(text: Seq<char>, at: int) -> Seq<char> {
    line_text(text, at).subrange(key().len() as int, line_text(text, at).len() as int)
}

/// The build number that `text` gives. Each line is taken without the white
/// space at either end. The first line that then begins with the key
/// decides: what follows the key must be one or more digits, and nothing
/// else, that fit into 32 bits. Without such a line, or with a value that
/// does not read so, there is none.
pub open spec fn detect_build_spec(text: Seq<char>) -> Option<u32> {
    match first_build_line(text, 0) {
        None => None,
        Some(at) => parse_number(build_line_value(text, at)),
    }
}

/// `first_build_line` finds the first such line, and finds nothing only
/// where no line from `from` on begins with the key.
pub proof fn lemma_first_build_line(text: Seq<char>, from: int)
    requires
        0 <= from,
    ensures
        match first_build_line(text, from) {
            Some(at) => {
                &&& from <= at
                &&& is_build_line(text, at)
                &&& forall|i: int| from <= i < at ==> !is_build_line(text, i)
            },
            None => forall|i: int| from <= i ==> !is_build_line(text, i),
        },
    decreases text.len() - from,
{
    reveal_strlit("BuildNumber=");
    if from < text.len() && !is_build_line(text, from) {
        lemma_first_build_line(text, from + 1);
    }
}

/// Whether `line` is the key followed by the digits, and nothing but the
/// digits, that write `number`.
pub open spec fn names_build(line: Seq<char>, number: u32) -> bool {
    &&& has_prefix_at(line, 0, key())
    &&& parse_number(line.subrange(key().len() as int, line.len() as int)) == Some(number)
}

/// A build is found only on a line that, white space at either end apart,
/// is the key followed by the digits of its number; and none is found where
/// no line, white space apart, begins with the key.
pub proof fn lemma_detected_build(text: Seq<char>)
    ensures
        match detect_build_spec(text) {
            Some(number) => exists|at: int|
                line_starts_at(text, at) && names_build(#[trigger] line_text(text, at), number),
            None => true,
        },
        (forall|at: int|
            line_starts_at(text, at) ==> !has_prefix_at(#[trigger] line_text(text, at), 0, key()))
            ==> detect_build_spec(text) is None,
{
    lemma_first_build_line(text, 0);
    match first_build_line(text, 0) {
        Some(at) => {
            assert(is_build_line(text, at));
            if let Some(number) = detect_build_spec(text) {
                assert(names_build(line_text(text, at), number));
            }
        },
        None => {},
    }
}

/// Where a line ends: no line feed stands before that place, and one stands
/// at it unless the text ends there.
pub proof fn lemma_line_end(text: Seq<char>, from: int)
    requires
        0 <= from <= text.len(),
    ensures
        from <= line_end(text, from) <= text.len(),
        forall|i: int| from <= i < line_end(text, from) ==> text[i] != '\n',
        line_end(text, from) < text.len() ==> text[line_end(text, from)] == '\n',
    decreases text.len() - from,
{
    if from < text.len() && text[from] != '\n' {
        lemma_line_end(text, from + 1);
    }
}

/// No build line starts between two places of which none starts one: the
/// search may pass them over.
proof fn lemma_pass_over(text: Seq<char>, from: int, to: int)
    requires
        0 <= from <= to,
        forall|i: int| from <= i < to ==> !is_build_line(text, i),
    ensures
        first_build_line(text, from) == first_build_line(text, to),
    decreases to - from,
{
    if from < to {
        lemma_pass_over(text, from + 1, to);
    }
}

/// The number that a front part of the digits writes is no larger than the
/// number that all of them write.
proof fn lemma_decimal_prefix(text: Seq<char>, count: int)
    requires
        0 <= count <= text.len(),
    ensures
        decimal_value(text.take(count)) <= decimal_value(text),
    decreases text.len(),
{
    if count == text.len() {
        assert(text.take(count) =~= text);
    } else {
        assert(text.drop_last().take(count) =~= text.take(count));
        lemma_decimal_prefix(text.drop_last(), count);
    }
}

/// The characters of `text`, one by one.
pub fn chars_of(text: &str) -> (chars: Vec<char>)
    ensures
        chars@ == text@,
{
    let mut chars: Vec<char> = Vec::new();
    for c in it: text.chars()
        invariant
            it.seq() == text@,
            chars@ == text@.take(it.index()),
    {
        chars.push(c);
        assert(text@.take(it.index() + 1) =~= text@.take(it.index()).push(c));
    }
    assert(text@.take(text@.len() as int) =~= text@);
    chars
}

/// Whether `c` is white space.
fn is_space(c: char) -> (space: bool)
    ensures
        space == is_whitespace(c),
{
    let code: u32 = c as u32;
    (0x09 <= code && code <= 0x0D) || code == 0x20 || code == 0x85 || code == 0xA0 || code
        == 0x1680 || (0x2000 <= code && code <= 0x200A) || code == 0x2028 || code == 0x2029
        || code == 0x202F || code == 0x205F || code == 0x3000
}

/// `text` without the white space at either end.
fn trim(text: &[char]) -> (rest: &[char])
    ensures
        rest@ == trimmed(text@),
{
    let length: usize = text.len();
    let mut low: usize = 0;
    assert(text@.subrange(0, length as int) =~= text@);
    while low < length && is_space(text[low])
        invariant
            length == text@.len(),
            low <= length,
            trimmed_front(text@) == trimmed_front(text@.subrange(low as int, length as int)),
        decreases length - low,
    {
        assert(text@.subrange(low as int, length as int).drop_first() =~= text@.subrange(
            low + 1,
            length as int,
        ));
        low += 1;
    }
    let mut high: usize = length;
    while high > low && is_space(text[high - 1])
        invariant
            length == text@.len(),
            low <= high <= length,
            trimmed(text@) == trimmed_back(text@.subrange(low as int, high as int)),
        decreases high - low,
    {
        assert(text@.subrange(low as int, high as int).drop_last() =~= text@.subrange(
            low as int,
            high - 1,
        ));
        high -= 1;
    }
    slice_subrange(text, low, high)
}

/// `text` read as a build number.
fn parse_digits(text: &[char]) -> (number: Option<u32>)
    ensures
        number == parse_number(text@),
{
    let length: usize = text.len();
    if length == 0 {
        return None;
    }
    let mut value: u64 = 0;
    let mut k: usize = 0;
    while k < length
        invariant
            length == text@.len(),
            k <= length,
            forall|i: int| 0 <= i < k ==> is_digit(#[trigger] text@[i]),
            value == decimal_value(text@.take(k as int)),
            value <= u32::MAX,
        decreases length - k,
    {
        let code: u32 = text[k] as u32;
        if code < 0x30 || code > 0x39 {
            assert(!is_digit(text@[k as int]));
            return None;
        }
        let next: u64 = value * 10 + (code - 0x30) as u64;
        proof {
            assert(text@.take(k + 1).drop_last() =~= text@.take(k as int));
            assert(next == decimal_value(text@.take(k + 1)));
            lemma_decimal_prefix(text@, k + 1);
        }
        if next > 0xFFFF_FFFF {
            return None;
        }
        value = next;
        k += 1;
    }
    assert(text@.take(length as int) =~= text@);
    Some(value as u32)
}

/// Where the line that holds index `from` ends.
fn find_line_end(text: &[char], from: usize) -> (end: usize)
    requires
        from <= text@.len(),
    ensures
        end == line_end(text@, from as int),
{
    let length: usize = text.len();
    let mut end: usize = from;
    while end < length && text[end] != '\n'
        invariant
            length == text@.len(),
            from <= end <= length,
            line_end(text@, from as int) == line_end(text@, end as int),
        decreases length - end,
    {
        end += 1;
    }
    end
}

/// Whether `prefix` stands in `text` at index `at`.
fn starts_with_at(text: &[char], at: usize, prefix: &[char]) -> (found: bool)
    requires
        at <= text@.len(),
    ensures
        found == has_prefix_at(text@, at as int, prefix@),
{
    let length: usize = text.len();
    let count: usize = prefix.len();
    if length - at < count {
        return false;
    }
    let mut k: usize = 0;
    while k < count
        invariant
            length == text@.len(),
            count == prefix@.len(),
            at + count <= length,
            k <= count,
            forall|i: int| 0 <= i < k ==> text@[at + i] == #[trigger] prefix@[i],
        decreases count - k,
    {
        if text[at + k] != prefix[k] {
            assert(text@.subrange(at as int, at + count)[k as int] == text@[at + k]);
            return false;
        }
        k += 1;
    }
    assert(text@.subrange(at as int, at + count) =~= prefix@);
    true
}

/// Reads the build number out of what the platform query printed. Every
/// line is taken without the white space at either end; the first that then
/// begins with `BuildNumber=` decides, and what follows the key on it must be
/// decimal digits, and nothing else, that fit into 32 bits.
pub fn parse_build_number(text: &str) -> (number: Option<u32>)
    ensures
        number == detect_build_spec(text@),
{
    let chars = chars_of(text);
    let prefix = chars_of("BuildNumber=");
    let all: &[char] = chars.as_slice();
    let length: usize = all.len();
    let mut start: usize = 0;
    while start < length
        invariant
            all@ == text@,
            length == all@.len(),
            prefix@ == key(),
            start <= length,
            line_starts_at(all@, start as int),
            first_build_line(all@, 0) == first_build_line(all@, start as int),
        decreases length - start,
    {
        let end: usize = find_line_end(all, start);
        proof {
            lemma_line_end(all@, start as int);
        }
        let line = trim(slice_subrange(all, start, end));
        if starts_with_at(line, 0, prefix.as_slice()) {
            assert(is_build_line(all@, start as int));
            return parse_digits(slice_subrange(line, prefix.len(), line.len()));
        }
        proof {
            assert forall|i: int| start <= i < end + 1 implies !is_build_line(all@, i) by {
                if i > start {
                    assert(all@[i - 1] != '\n');
                }
            }
            lemma_pass_over(all@, start as int, end + 1);
        }
        if end == length {
            return None;
        }
        start = end + 1;
    }
    None
}

impl WinBuild {
    /// The build with this number, under the name `Windows (Build N)`.
    pub fn new(build_number: u32) -> (build: WinBuild)
        ensures
            build@ == build_info(build_number),
    {
        let mut display_name = String::from_str("Windows (Build ");
        push_decimal(&mut display_name, build_number as u64);
        display_name.append(")");
        WinBuild { build_number, display_name }
    }
}

} // verus!
