//! Text as the harness handles it: a string is modelled by the sequence of
//! its characters, raw process output by the sequence of its bytes.

use vstd::prelude::*;
use vstd::string::*;
use vstd::utf8::*;

verus! {

/// The characters with the Unicode property `White_Space`.
pub open spec fn is_white_space(c: char) -> bool {
    ||| '\u{9}' <= c <= '\u{d}'
    ||| c == ' '
    ||| c == '\u{85}'
    ||| c == '\u{a0}'
    ||| c == '\u{1680}'
    ||| '\u{2000}' <= c <= '\u{200a}'
    ||| c == '\u{2028}'
    ||| c == '\u{2029}'
    ||| c == '\u{202f}'
    ||| c == '\u{205f}'
    ||| c == '\u{3000}'
}

/// `s` without its leading white space.
pub open spec fn trimmed_start(s: Seq<char>) -> Seq<char>
    decreases s.len(),
{
    if s.len() > 0 && is_white_space(s.first()) {
        trimmed_start(s.drop_first())
    } else {
        s
    }
}

/// `s` without its trailing white space.
pub open spec fn trimmed_end(s: Seq<char>) -> Seq<char>
    decreases s.len(),
{
    if s.len() > 0 && is_white_space(s.last()) {
        trimmed_end(s.drop_last())
    } else {
        s
    }
}

/// `s` without its leading and trailing white space.
pub open spec fn trimmed(s: Seq<char>) -> Seq<char> {
    trimmed_start(trimmed_end(s))
}

/// `s` without `suffix`, where it ends with it.
pub open spec fn without_suffix(s: Seq<char>, suffix: Seq<char>) -> Seq<char> {
    if suffix.is_suffix_of(s) {
        s.take(s.len() - suffix.len())
    } else {
        s
    }
}

/// The parts in order, with `separator` between any two neighbours.
pub open spec fn joined(parts: Seq<Seq<char>>, separator: Seq<char>) -> Seq<char>
    decreases parts.len(),
{
    if parts.len() == 0 {
        Seq::empty()
    } else if parts.len() == 1 {
        parts[0]
    } else {
        joined(parts.drop_last(), separator) + separator + parts.last()
    }
}

/// The decimal digit for a number below ten.
pub open spec fn digit(n: nat) -> char {
    ('0' as nat + n) as char
}

/// A number in decimal, without leading zeros.
pub open spec fn decimal(n: nat) -> Seq<char>
    decreases n,
{
    if n < 10 {
        seq![digit(n)]
    } else {
        decimal(n / 10).push(digit(n % 10))
    }
}

/// A signed number in decimal, without leading zeros.
pub open spec fn signed_decimal(n: int) -> Seq<char> {
    if n < 0 {
        seq!['-'] + decimal((-n) as nat)
    } else {
        decimal(n as nat)
    }
}

/// What `format!` writes for `{:?}` of a string: the string in double quotes,
/// with the characters that need it escaped.
pub uninterp spec fn debug_quoted(s: Seq<char>) -> Seq<char>;

/// Formats a string with `{:?}`.
///
/// Not proved: that the formatting in the standard library yields
/// `debug_quoted`, one fixed text for each string. Which characters are
/// escaped, and how, is not stated.
#[verifier::external_body]
pub(crate) fn quote(s: &str) -> (r: String)
    ensures
        r@ == debug_quoted(s@),
{
    format!("{:?}", s)
}

/// What `String::from_utf8_lossy` makes of a byte sequence.
pub uninterp spec fn lossy_text(bytes: Seq<u8>) -> Seq<char>;

/// Whether bytes, if they are UTF-8, are read as the text that they stand for.
pub open spec fn reads_as_text(bytes: Seq<u8>) -> bool {
    valid_utf8(bytes) ==> lossy_text(bytes) == decode_utf8(bytes)
}

/// Decodes bytes as UTF-8, with `String::from_utf8_lossy`.
///
/// Not proved: that the result is a fixed text for each byte sequence, and that
/// valid UTF-8 is decoded to the characters it stands for. How bytes that
/// are not UTF-8 are replaced is not stated.
#[verifier::external_body]
pub(crate) fn decode_lossy(bytes: &[u8]) -> (r: String)
    ensures
        r@ == lossy_text(bytes@),
        valid_utf8(bytes@) ==> r@ == decode_utf8(bytes@),
{
    String::from_utf8_lossy(bytes).into_owned()
}

/// Decodes bytes as UTF-8, with `String::from_utf8`.
///
/// Not proved: that this succeeds if and only if the bytes are valid UTF-8, and
/// then yields the characters that they stand for.
#[verifier::external_body]
pub(crate) fn decode(bytes: Vec<u8>) -> (r: Option<String>)
    ensures
        r is Some <==> valid_utf8(bytes@),
        r is Some ==> r->0@ == decode_utf8(bytes@),
{
    String::from_utf8(bytes).ok()
}

/// Whether a character is white space.
pub fn white_space(c: char) -> (r: bool)
    ensures
        r == is_white_space(c),
{
    ('\u{9}' <= c && c <= '\u{d}') || c == ' ' || c == '\u{85}' || c == '\u{a0}' || c == '\u{1680}'
        || ('\u{2000}' <= c && c <= '\u{200a}') || c == '\u{2028}' || c == '\u{2029}' || c
        == '\u{202f}' || c == '\u{205f}' || c == '\u{3000}'
}

/// The characters of a string.
pub fn characters(s: &str) -> (r: Vec<char>)
    ensures
        r@ == s@,
{
    let mut out: Vec<char> = Vec::new();
    for c in it: s.chars()
        invariant
            out@ == it.seq().take(it.index() as int),
            it.seq() == s@,
    {
        out.push(c);
    }
    assert(s@.take(s@.len() as int) == s@);
    out
}

/// `s` without its trailing white space.
pub fn trim_end(s: &str) -> (r: &str)
    ensures
        r@ == trimmed_end(s@),
{
    let chars = characters(s);
    let mut end: usize = chars.len();
    assert(s@.take(end as int) == s@);
    while end > 0 && white_space(chars[end - 1])
        invariant
            chars@ == s@,
            end <= chars@.len(),
            trimmed_end(s@) == trimmed_end(s@.take(end as int)),
        decreases end,
    {
        assert(s@.take(end as int).drop_last() == s@.take(end - 1));
        end = end - 1;
    }
    assert(s@.subrange(0, end as int) == s@.take(end as int));
    s.substring_char(0, end)
}

/// `s` without its leading and trailing white space.
pub fn trim(s: &str) -> (r: &str)
    ensures
        r@ == trimmed(s@),
{
    let s = trim_end(s);
    let chars = characters(s);
    let mut start: usize = 0;
    assert(s@.skip(0) == s@);
    while start < chars.len() && white_space(chars[start])
        invariant
            chars@ == s@,
            start <= chars@.len(),
            trimmed_start(s@) == trimmed_start(s@.skip(start as int)),
        decreases chars@.len() - start,
    {
        assert(s@.skip(start as int).drop_first() == s@.skip(start + 1));
        start = start + 1;
    }
    assert(s@.subrange(start as int, s@.len() as int) == s@.skip(start as int));
    s.substring_char(start, chars.len())
}

/// Whether two strings hold the same characters.
pub fn same_text(a: &str, b: &str) -> (r: bool)
    ensures
        r == (a@ == b@),
{
    a.to_owned() == b.to_owned()
}

/// `s` without `suffix`, where it ends with it.
pub fn strip_suffix<'a>(s: &'a str, suffix: &str) -> (r: &'a str)
    ensures
        r@ == without_suffix(s@, suffix@),
{
    let n: usize = s.unicode_len();
    let m: usize = suffix.unicode_len();
    if m > n {
        return s;
    }
    let tail = s.substring_char(n - m, n);
    if same_text(tail, suffix) {
        assert(suffix@.is_suffix_of(s@));
        assert(s@.subrange(0, n - m) == s@.take(n - m));
        s.substring_char(0, n - m)
    } else {
        proof {
            if suffix@.is_suffix_of(s@) {
                assert(tail@ == suffix@);
            }
        }
        s
    }
}

/// Whether a string contains a character.
pub fn contains_char(s: &str, wanted: char) -> (r: bool)
    ensures
        r == s@.contains(wanted),
{
    let chars = characters(s);
    let mut i: usize = 0;
    while i < chars.len()
        invariant
            chars@ == s@,
            i <= chars@.len(),
            forall|j: int| 0 <= j < i ==> s@[j] != wanted,
        decreases chars@.len() - i,
    {
        if chars[i] == wanted {
            assert(s@[i as int] == wanted);
            return true;
        }
        i = i + 1;
    }
    false
}

/// The parts in order, with `separator` between any two neighbours.
pub fn join(parts: &Vec<String>, separator: &str) -> (r: String)
    ensures
        r@ == joined(parts.deep_view(), separator@),
{
    let ghost all = parts.deep_view();
    let mut out = String::new();
    let mut i: usize = 0;
    while i < parts.len()
        invariant
            i <= parts@.len(),
            all == parts.deep_view(),
            out@ == joined(all.take(i as int), separator@),
        decreases parts@.len() - i,
    {
        assert(all.take(i + 1).drop_last() == all.take(i as int));
        assert(all[i as int] == parts@[i as int]@);
        if i > 0 {
            out.append(separator);
        }
        out.append(parts[i].as_str());
        i = i + 1;
    }
    assert(all.take(all.len() as int) == all);
    out
}

/// The decimal digit for a number below ten.
fn digit_text(n: u64) -> (r: &'static str)
    requires
        n < 10,
    ensures
        r@ == seq![digit(n as nat)],
{
    proof {
        reveal_strlit("0");
        reveal_strlit("1");
        reveal_strlit("2");
        reveal_strlit("3");
        reveal_strlit("4");
        reveal_strlit("5");
        reveal_strlit("6");
        reveal_strlit("7");
        reveal_strlit("8");
        reveal_strlit("9");
    }
    if n == 0 {
        "0"
    } else if n == 1 {
        "1"
    } else if n == 2 {
        "2"
    } else if n == 3 {
        "3"
    } else if n == 4 {
        "4"
    } else if n == 5 {
        "5"
    } else if n == 6 {
        "6"
    } else if n == 7 {
        "7"
    } else if n == 8 {
        "8"
    } else {
        "9"
    }
}

/// Writes a number in decimal.
pub fn decimal_text(n: u64) -> (r: String)
    ensures
        r@ == decimal(n as nat),
    decreases n,
{
    if n < 10 {
        digit_text(n).to_owned()
    } else {
        let mut out = decimal_text(n / 10);
        out.append(digit_text(n % 10));
        assert(decimal(n as nat) == decimal((n / 10) as nat).push(digit((n % 10) as nat)));
        out
    }
}

/// Writes a signed number in decimal.
pub fn signed_decimal_text(n: i32) -> (r: String)
    ensures
        r@ == signed_decimal(n as int),
{
    if n < 0 {
        proof {
            reveal_strlit("-");
        }
        let mut out = "-".to_owned();
        let magnitude: u64 = (-(n as i64)) as u64;
        out.append(decimal_text(magnitude).as_str());
        assert("-"@ == seq!['-']);
        out
    } else {
        decimal_text(n as u64)
    }
}

/// Whether a text consists of white space alone.
pub open spec fn is_blank(s: Seq<char>) -> bool {
    forall|i: int| 0 <= i < s.len() ==> is_white_space(#[trigger] s[i])
}

/// Whether a text neither starts nor ends with white space.
pub open spec fn is_tight(s: Seq<char>) -> bool {
    s.len() > 0 ==> !is_white_space(s.first()) && !is_white_space(s.last())
}

/// White space at the end of a text comes off, and nothing else does.
pub proof fn law_trimmed_end(core: Seq<char>, blank: Seq<char>)
    requires
        core.len() > 0 ==> !is_white_space(core.last()),
        is_blank(blank),
    ensures
        trimmed_end(core + blank) == core,
    decreases blank.len(),
{
    if blank.len() == 0 {
        assert(core + blank == core);
    } else {
        assert(is_white_space(blank[blank.len() - 1]));
        assert((core + blank).drop_last() == core + blank.drop_last());
        assert forall|i: int| 0 <= i < blank.drop_last().len() implies is_white_space(
            #[trigger] blank.drop_last()[i],
        ) by {
            assert(is_white_space(blank[i]));
        }
        law_trimmed_end(core, blank.drop_last());
    }
}

/// White space at the start of a text comes off, and nothing else does.
proof fn lemma_trimmed_start(blank: Seq<char>, core: Seq<char>)
    requires
        core.len() > 0 ==> !is_white_space(core.first()),
        is_blank(blank),
    ensures
        trimmed_start(blank + core) == core,
    decreases blank.len(),
{
    if blank.len() == 0 {
        assert(blank + core == core);
    } else {
        assert(is_white_space(blank[0]));
        assert((blank + core).drop_first() == blank.drop_first() + core);
        assert forall|i: int| 0 <= i < blank.drop_first().len() implies is_white_space(
            #[trigger] blank.drop_first()[i],
        ) by {
            assert(is_white_space(blank[i + 1]));
        }
        lemma_trimmed_start(blank.drop_first(), core);
    }
}

/// White space around a text comes off, and nothing else does.
pub proof fn law_trimmed(before: Seq<char>, core: Seq<char>, after: Seq<char>)
    requires
        is_blank(before),
        is_tight(core),
        is_blank(after),
    ensures
        trimmed(before + core + after) == core,
{
    if core.len() == 0 {
        assert(before + core + after == Seq::<char>::empty() + (before + after));
        assert forall|i: int| 0 <= i < (before + after).len() implies is_white_space(
            #[trigger] (before + after)[i],
        ) by {
            if i < before.len() {
                assert(is_white_space(before[i]));
            } else {
                assert(is_white_space(after[i - before.len()]));
            }
        }
        law_trimmed_end(Seq::empty(), before + after);
    } else {
        assert((before + core).last() == core.last());
        law_trimmed_end(before + core, after);
        lemma_trimmed_start(before, core);
    }
}

/// The white space is made of the control characters from tab to carriage return, the
/// space, and the spaces and separators beyond ASCII.
pub proof fn law_white_space(c: char)
    ensures
        c < '\u{80}' ==> (is_white_space(c) <==> c == ' ' || c == '\t' || c == '\n' || c
            == '\u{b}' || c == '\u{c}' || c == '\r'),
        c >= '\u{80}' ==> (is_white_space(c) <==> c == '\u{85}' || c == '\u{a0}' || c
            == '\u{1680}' || (c >= '\u{2000}' && c <= '\u{200a}') || c == '\u{2028}' || c
            == '\u{2029}' || c == '\u{202f}' || c == '\u{205f}' || c == '\u{3000}'),
{
}

/// A suffix comes off a text that ends with it, once; any other text stays as it is.
pub proof fn law_without_suffix(s: Seq<char>, suffix: Seq<char>)
    ensures
        without_suffix(s + suffix, suffix) == s,
        (forall|front: Seq<char>| s != #[trigger] (front + suffix)) ==> without_suffix(s, suffix)
            == s,
{
    assert((s + suffix).skip((s + suffix).len() - suffix.len()) == suffix);
    assert((s + suffix).take((s + suffix).len() - suffix.len()) == s);
    assert(suffix.is_suffix_of(s + suffix));
    if suffix.is_suffix_of(s) {
        assert(s == s.take(s.len() - suffix.len()) + suffix);
    }
}

/// Joined parts are the one part, where there is one, and otherwise what the first
/// of them join to and what the rest of them join to, with the separator between.
pub proof fn law_joined(first: Seq<Seq<char>>, second: Seq<Seq<char>>, separator: Seq<char>)
    ensures
        joined(Seq::empty(), separator) == Seq::<char>::empty(),
        first.len() == 1 ==> joined(first, separator) == first[0],
        first.len() > 0 && second.len() > 0 ==> joined(first + second, separator) == joined(
            first,
            separator,
        ) + separator + joined(second, separator),
    decreases second.len(),
{
    if first.len() > 0 && second.len() == 1 {
        assert((first + second).drop_last() == first);
        assert((first + second).last() == second[0]);
    } else if first.len() > 0 && second.len() > 1 {
        law_joined(first, second.drop_last(), separator);
        assert((first + second).drop_last() == first + second.drop_last());
        assert((first + second).last() == second.last());
        assert(joined(first + second, separator) == joined(first, separator) + separator + joined(
            second,
            separator,
        ));
    }
}

/// The number that a row of decimal digits stands for.
pub open spec fn number(digits: Seq<char>) -> int
    decreases digits.len(),
{
    if digits.len() == 0 {
        0
    } else {
        10 * number(digits.drop_last()) + (digits.last() as int - '0' as int)
    }
}

/// A number that is written in decimal is read back: it is a row of digits that stands
/// for it and does not start with a zero, unless it is the one digit zero.
pub proof fn law_decimal(n: nat)
    ensures
        number(decimal(n)) == n,
        decimal(n).len() > 0,
        forall|i: int| 0 <= i < decimal(n).len() ==> '0' <= #[trigger] decimal(n)[i] <= '9',
        decimal(n)[0] == '0' <==> n == 0,
        n == 0 ==> decimal(n).len() == 1,
    decreases n,
{
    if n < 10 {
        assert(decimal(n).drop_last() == Seq::<char>::empty());
        assert(number(decimal(n).drop_last()) == 0);
    } else {
        law_decimal(n / 10);
        assert(decimal(n).drop_last() == decimal(n / 10));
        assert(decimal(n)[0] == decimal(n / 10)[0]);
        assert forall|i: int| 0 <= i < decimal(n).len() implies '0' <= #[trigger] decimal(n)[i]
            <= '9' by {
            if i < decimal(n / 10).len() {
                assert(decimal(n)[i] == decimal(n / 10)[i]);
            }
        }
    }
}

/// A negative number has a minus sign before its digits; any other has its digits alone.
pub proof fn law_signed_decimal(n: nat)
    ensures
        signed_decimal(n as int) == decimal(n),
        n > 0 ==> signed_decimal(-n)[0] == '-' && signed_decimal(-n).skip(1) == decimal(n),
{
    if n > 0 {
        assert(signed_decimal(-n).skip(1) == decimal(n));
    }
}

/// Bytes that are UTF-8, and are read as text, are read as the characters that they
/// stand for.
pub proof fn law_reads_as_text(bytes: Seq<u8>)
    ensures
        reads_as_text(bytes) && valid_utf8(bytes) ==> lossy_text(bytes) == decode_utf8(bytes),
{
}

} // verus!
