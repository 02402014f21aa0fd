//! The list of checksums of the database binaries, and the checksum itself.

use crate::text::{
    characters, debug_quoted, is_white_space, join, joined, law_joined, law_trimmed, quote,
    same_text, trim, trimmed,
};
use vstd::prelude::*;
use vstd::string::*;

verus! {

/// The part of a text before the first `c`, or all of it.
pub open spec fn before_first(s: Seq<char>, c: char) -> Seq<char>
    decreases s.len(),
{
    if s.len() == 0 || s[0] == c {
        Seq::empty()
    } else {
        seq![s[0]] + before_first(s.drop_first(), c)
    }
}

/// The lines of a text. A newline ends a line; what follows the last one is a line
/// too.
pub open spec fn lines(s: Seq<char>) -> Seq<Seq<char>>
    decreases s.len(),
    via lines_decreases
{
    if s.contains('\n') {
        let line = before_first(s, '\n');
        seq![line] + lines(s.skip(line.len() as int + 1))
    } else {
        seq![s]
    }
}

#[via_fn]
proof fn lines_decreases(s: Seq<char>) {
    if s.contains('\n') {
        lemma_before_first(s, '\n');
    }
}

/// A text starts with what comes before the first `c`, and then `c` follows if
/// there is one.
proof fn lemma_before_first(s: Seq<char>, c: char)
    ensures
        before_first(s, c).len() <= s.len(),
        s.take(before_first(s, c).len() as int) == before_first(s, c),
        !before_first(s, c).contains(c),
        s.contains(c) ==> before_first(s, c).len() < s.len() && s[before_first(s, c).len() as int]
            == c,
        !s.contains(c) ==> before_first(s, c) == s,
    decreases s.len(),
{
    if s.len() > 0 && s[0] != c {
        let rest = s.drop_first();
        lemma_before_first(rest, c);
        assert(s.contains(c) ==> rest.contains(c)) by {
            if s.contains(c) {
                let i = choose|i: int| 0 <= i < s.len() && s[i] == c;
                assert(rest[i - 1] == c);
            }
        }
        assert(rest.contains(c) ==> s.contains(c)) by {
            if rest.contains(c) {
                let i = choose|i: int| 0 <= i < rest.len() && rest[i] == c;
                assert(s[i + 1] == c);
            }
        }
        let head = before_first(s, c);
        assert(head.drop_first() == before_first(rest, c));
        assert(s.take(head.len() as int) =~= seq![s[0]] + rest.take(head.len() - 1));
        assert(!head.contains(c)) by {
            if head.contains(c) {
                let i = choose|i: int| 0 <= i < head.len() && head[i] == c;
                assert(before_first(rest, c)[i - 1] == c);
            }
        }
        if !s.contains(c) {
            assert(s =~= seq![s[0]] + rest);
        }
    } else if s.len() > 0 {
        assert(s[0] == c);
    }
}

/// Where a text that is cut at its first `c` is cut.
proof fn lemma_cut(s: Seq<char>, c: char, i: int)
    requires
        0 <= i < s.len(),
        s[i] == c,
        forall|j: int| 0 <= j < i ==> s[j] != c,
    ensures
        s.contains(c),
        before_first(s, c) == s.take(i),
{
    lemma_before_first(s, c);
    let head = before_first(s, c);
    if head.len() < i {
        assert(s[head.len() as int] == c);
    } else if head.len() > i {
        assert(head[i] == s.take(head.len() as int)[i]);
    }
}

/// A text without the double quotes at its start.
pub open spec fn unquoted_start(s: Seq<char>) -> Seq<char>
    decreases s.len(),
{
    if s.len() > 0 && s.first() == '"' {
        unquoted_start(s.drop_first())
    } else {
        s
    }
}

/// A text without the double quotes at its end.
pub open spec fn unquoted_end(s: Seq<char>) -> Seq<char>
    decreases s.len(),
{
    if s.len() > 0 && s.last() == '"' {
        unquoted_end(s.drop_last())
    } else {
        s
    }
}

/// A text without the double quotes at its start and its end.
pub open spec fn unquoted(s: Seq<char>) -> Seq<char> {
    unquoted_end(unquoted_start(s))
}

/// The key and the value of a line `KEY="value"`; nothing if the line has no `=`.
pub open spec fn key_and_value(line: Seq<char>) -> Option<(Seq<char>, Seq<char>)> {
    let line = trimmed(line);
    if line.contains('=') {
        let key = before_first(line, '=');
        Some((key, unquoted(line.skip(key.len() as int + 1))))
    } else {
        None
    }
}

/// The value on the first line that has the given key.
pub open spec fn value_of(lines: Seq<Seq<char>>, key: Seq<char>) -> Option<Seq<char>>
    decreases lines.len(),
{
    if lines.len() == 0 {
        None
    } else {
        match value_of(lines.drop_last(), key) {
            Some(value) => Some(value),
            None => match key_and_value(lines.last()) {
                Some((k, value)) => if k == key {
                    Some(value)
                } else {
                    None
                },
                None => None,
            },
        }
    }
}

/// Removes the double quotes at the start and the end of a text.
pub fn unquote(s: &str) -> (r: &str)
    ensures
        r@ == unquoted(s@),
{
    let chars = characters(s);
    let mut start: usize = 0;
    assert(s@.skip(0) == s@);
    while start < chars.len() && chars[start] == '"'
        invariant
            chars@ == s@,
            start <= chars@.len(),
            unquoted_start(s@) == unquoted_start(s@.skip(start as int)),
        decreases chars@.len() - start,
    {
        assert(s@.skip(start as int).drop_first() == s@.skip(start + 1));
        start = start + 1;
    }
    let ghost rest = s@.skip(start as int);
    let mut end: usize = chars.len();
    assert(rest.take(end - start) == rest);
    while end > start && chars[end - 1] == '"'
        invariant
            chars@ == s@,
            start <= end <= chars@.len(),
            rest == s@.skip(start as int),
            unquoted_end(rest) == unquoted_end(rest.take(end - start)),
        decreases end,
    {
        assert(rest.take(end - start).drop_last() == rest.take(end - 1 - start));
        end = end - 1;
    }
    assert(s@.subrange(start as int, end as int) == rest.take(end - start));
    s.substring_char(start, end)
}

/// Where the first `c` in a text is.
fn position_of(chars: &Vec<char>, from: usize, c: char) -> (r: Option<usize>)
    requires
        from <= chars@.len(),
    ensures
        match r {
            Some(i) => from <= i < chars@.len() && chars@[i as int] == c && forall|j: int|
                from <= j < i ==> chars@[j] != c,
            None => forall|j: int| from <= j < chars@.len() ==> chars@[j] != c,
        },
{
    let mut i: usize = from;
    while i < chars.len()
        invariant
            from <= i <= chars@.len(),
            forall|j: int| from <= j < i ==> chars@[j] != c,
        decreases chars@.len() - i,
    {
        if chars[i] == c {
            return Some(i);
        }
        i = i + 1;
    }
    None
}

/// Splits a line `KEY="value"` into its key and its value.
pub fn split_line(line: &str) -> (r: Option<(&str, &str)>)
    ensures
        r.deep_view() == key_and_value(line@),
{
    let line = trim(line);
    let chars = characters(line);
    let total: usize = chars.len();
    match position_of(&chars, 0, '=') {
        None => None,
        Some(i) => {
            proof {
                lemma_cut(line@, '=', i as int);
                assert(line@.subrange(0, i as int) == line@.take(i as int));
                assert(line@.subrange(i + 1, line@.len() as int) == line@.skip(i + 1));
            }
            let key = line.substring_char(0, i);
            let value = unquote(line.substring_char(i + 1, total));
            Some((key, value))
        },
    }
}

/// Splits a text into its lines.
pub fn split_lines(s: &str) -> (r: Vec<&str>)
    ensures
        r.deep_view() == lines(s@),
{
    let chars = characters(s);
    let total: usize = chars.len();
    let mut out: Vec<&str> = Vec::new();
    let mut from: usize = 0;
    assert(s@.skip(0) == s@);
    assert(out.deep_view() + lines(s@) == lines(s@));
    loop
        invariant_except_break
            out.deep_view() + lines(s@.skip(from as int)) == lines(s@),
        invariant
            chars@ == s@,
            total == chars@.len(),
            from <= total,
        ensures
            out.deep_view() == lines(s@),
        decreases chars@.len() - from,
    {
        let ghost rest = s@.skip(from as int);
        let ghost before = out.deep_view();
        match position_of(&chars, from, '\n') {
            Some(i) => {
                let line = s.substring_char(from, i);
                proof {
                    assert(rest[i - from] == '\n');
                    lemma_cut(rest, '\n', i - from);
                    assert(line@ == rest.take(i - from));
                    assert(rest.skip(i - from + 1) == s@.skip(i + 1));
                }
                out.push(line);
                proof {
                    assert(out.deep_view() == before.push(line@));
                    assert(lines(rest) == seq![line@] + lines(s@.skip(i + 1)));
                    assert(before.push(line@) + lines(s@.skip(i + 1)) == before + (seq![line@]
                        + lines(s@.skip(i + 1))));
                }
                from = i + 1;
            },
            None => {
                let line = s.substring_char(from, total);
                proof {
                    assert(line@ == rest);
                    assert(!rest.contains('\n')) by {
                        if rest.contains('\n') {
                            let j = choose|j: int| 0 <= j < rest.len() && rest[j] == '\n';
                            assert(chars@[from + j] == '\n');
                        }
                    }
                    assert(lines(rest) == seq![rest]);
                }
                out.push(line);
                proof {
                    assert(out.deep_view() == before.push(line@));
                    assert(before.push(line@) == before + seq![line@]);
                }
                break ;
            },
        }
    }
    out
}

/// Finds the value on the first line that has the given key.
pub fn find_value<'a>(lines: &Vec<&'a str>, key: &str) -> (r: Option<&'a str>)
    ensures
        r.deep_view() == value_of(lines.deep_view(), key@),
{
    let ghost all = lines.deep_view();
    let mut i: usize = 0;
    assert(value_of(all.take(0), key@) is None);
    while i < lines.len()
        invariant
            i <= lines@.len(),
            all == lines.deep_view(),
            value_of(all.take(i as int), key@) is None,
        decreases lines@.len() - i,
    {
        assert(all.take(i + 1).drop_last() == all.take(i as int));
        assert(all[i as int] == lines@[i as int]@);
        if let Some((k, value)) = split_line(lines[i]) {
            if same_text(k, key) {
                proof {
                    lemma_value_stays(all, i + 1, key@);
                }
                return Some(value);
            }
        }
        i = i + 1;
    }
    assert(all.take(all.len() as int) == all);
    None
}

/// A value found on an early line is not changed by later ones.
proof fn lemma_value_stays(lines: Seq<Seq<char>>, n: int, key: Seq<char>)
    requires
        0 <= n <= lines.len(),
        value_of(lines.take(n), key) is Some,
    ensures
        value_of(lines, key) == value_of(lines.take(n), key),
    decreases lines.len() - n,
{
    if n == lines.len() {
        assert(lines.take(n) == lines);
    } else {
        assert(lines.take(n + 1).drop_last() == lines.take(n));
        lemma_value_stays(lines, n + 1, key);
    }
}

/// Whether the key at `i` stands again further on.
pub open spec fn repeated_later(keys: Seq<Seq<char>>, i: int) -> bool {
    exists|j: int| i < j < keys.len() && keys[j] == keys[i]
}

/// The values in the same order as the keys. Where a key stands more than once, its
/// value goes to the last place and the others stay empty.
pub open spec fn values_of(lines: Seq<Seq<char>>, keys: Seq<Seq<char>>) -> Seq<Seq<char>> {
    Seq::new(
        keys.len(),
        |i: int|
            match value_of(lines, keys[i]) {
                Some(value) => if repeated_later(keys, i) {
                    Seq::empty()
                } else {
                    value
                },
                None => Seq::empty(),
            },
    )
}

/// The keys that no line has, each once.
pub open spec fn missing_keys(lines: Seq<Seq<char>>, keys: Seq<Seq<char>>, n: int) -> Seq<Seq<char>>
    decreases n,
{
    if n <= 0 {
        Seq::empty()
    } else if value_of(lines, keys[n - 1]) is None && !repeated_later(keys, n - 1) {
        missing_keys(lines, keys, n - 1).push(keys[n - 1])
    } else {
        missing_keys(lines, keys, n - 1)
    }
}

/// Parses a text of the format
///
/// ```ignore
/// KEY1="value1"
/// KEY2="value2"
/// ```
///
/// and returns the values in the same order as the keys, or the keys that were not
/// found.
pub fn get_values_from_string(keys: &Vec<String>, content: &str) -> (r: Result<
    Vec<String>,
    Vec<String>,
>)
    ensures
        (match r {
            Ok(values) => Ok(values.deep_view()),
            Err(missing) => Err(missing.deep_view()),
        }) == values_or_missing(content@, keys.deep_view()),
{
    let all_lines = split_lines(content);
    let ghost texts = lines(content@);
    let ghost wanted = keys.deep_view();
    let mut values: Vec<String> = Vec::new();
    let mut missing: Vec<String> = Vec::new();
    let mut i: usize = 0;
    while i < keys.len()
        invariant
            i <= keys@.len(),
            all_lines.deep_view() == texts,
            wanted == keys.deep_view(),
            values.deep_view() == values_of(texts, wanted).take(i as int),
            missing.deep_view() == missing_keys(texts, wanted, i as int),
        decreases keys@.len() - i,
    {
        assert(wanted[i as int] == keys@[i as int]@);
        let again = stands_later(keys, i);
        let ghost values_before = values.deep_view();
        let ghost missing_before = missing.deep_view();
        match find_value(&all_lines, keys[i].as_str()) {
            Some(value) => {
                if again {
                    values.push(String::new());
                } else {
                    values.push(value.to_owned());
                }
            },
            None => {
                values.push(String::new());
                if !again {
                    missing.push(keys[i].clone());
                    assert(missing.deep_view() == missing_before.push(wanted[i as int]));
                }
            },
        }
        assert(values.deep_view() == values_before.push(values_of(texts, wanted)[i as int]));
        assert(values_of(texts, wanted).take(i + 1) == values_of(texts, wanted).take(
            i as int,
        ).push(values_of(texts, wanted)[i as int]));
        i = i + 1;
    }
    if missing.len() > 0 {
        assert(missing.deep_view().len() == missing@.len());
        Err(missing)
    } else {
        assert(missing.deep_view().len() == missing@.len());
        assert(values_of(texts, wanted).take(i as int) == values_of(texts, wanted));
        Ok(values)
    }
}

/// Decides whether the key at `i` stands again further on.
fn stands_later(keys: &Vec<String>, i: usize) -> (r: bool)
    requires
        i < keys@.len(),
    ensures
        r == repeated_later(keys.deep_view(), i as int),
{
    let ghost wanted = keys.deep_view();
    let total: usize = keys.len();
    let mut j: usize = i + 1;
    while j < total
        invariant
            total == keys@.len(),
            i < j <= total,
            wanted == keys.deep_view(),
            forall|k: int| i < k < j ==> wanted[k] != wanted[i as int],
        decreases keys@.len() - j,
    {
        assert(wanted[j as int] == keys@[j as int]@ && wanted[i as int] == keys@[i as int]@);
        if same_text(keys[j].as_str(), keys[i].as_str()) {
            return true;
        }
        j = j + 1;
    }
    false
}

/// The values in the same order as the keys, or the keys that no line has.
pub open spec fn values_or_missing(content: Seq<char>, keys: Seq<Seq<char>>) -> Result<
    Seq<Seq<char>>,
    Seq<Seq<char>>,
> {
    let missing = missing_keys(lines(content), keys, keys.len() as int);
    if missing.len() > 0 {
        Err(missing)
    } else {
        Ok(values_of(lines(content), keys))
    }
}

/// The error text for keys that were not found.
pub open spec fn missing_text(missing: Seq<Seq<char>>) -> Seq<char> {
    "Could not find keys: ["@ + joined(
        missing.map_values(|key: Seq<char>| debug_quoted(key)),
        ", "@,
    ) + "]"@
}

/// Writes the error text for keys that were not found.
pub fn describe_missing(missing: &Vec<String>) -> (r: String)
    ensures
        r@ == missing_text(missing.deep_view()),
{
    let ghost texts = missing.deep_view().map_values(|key: Seq<char>| debug_quoted(key));
    let mut quoted: Vec<String> = Vec::new();
    let mut i: usize = 0;
    while i < missing.len()
        invariant
            i <= missing@.len(),
            texts == missing.deep_view().map_values(|key: Seq<char>| debug_quoted(key)),
            quoted.deep_view() == texts.take(i as int),
        decreases missing@.len() - i,
    {
        let ghost before = quoted.deep_view();
        quoted.push(quote(missing[i].as_str()));
        assert(texts[i as int] == debug_quoted(missing@[i as int]@));
        assert(quoted.deep_view() == before.push(texts[i as int]));
        assert(texts.take(i + 1) == texts.take(i as int).push(texts[i as int]));
        i = i + 1;
    }
    assert(texts.take(i as int) == texts);
    "Could not find keys: [".to_owned().concat(join(&quoted, ", ").as_str()).concat("]")
}

/// The SHA-256 digest of some bytes, in lowercase hexadecimal.
pub uninterp spec fn sha256_hex_of(bytes: Seq<u8>) -> Seq<char>;

/// Computes the SHA-256 digest of some bytes with `sha2::Sha256::digest`, and writes
/// it in lowercase hexadecimal.
///
/// Not proved: that the result is one fixed text for each byte sequence. Which one
/// is not stated.
#[verifier::external_body]
pub(crate) fn sha256_hex(bytes: &[u8]) -> (r: String)
    ensures
        r@ == sha256_hex_of(bytes@),
{
    format!("{:x}", <sha2::Sha256 as sha2::Digest>::digest(bytes))
}

/// The lines of a text, joined with newlines, are the text, and none of them holds a
/// newline.
pub proof fn law_lines(s: Seq<char>, i: int)
    ensures
        lines(s).len() > 0,
        joined(lines(s), "\n"@) == s,
        0 <= i < lines(s).len() ==> !lines(s)[i].contains('\n'),
    decreases s.len(),
{
    reveal_strlit("\n");
    if s.contains('\n') {
        lemma_before_first(s, '\n');
        let line = before_first(s, '\n');
        let rest = s.skip(line.len() as int + 1);
        law_lines(rest, i - 1);
        law_joined(seq![line], lines(rest), "\n"@);
        assert(s =~= line + "\n"@ + rest);
    } else {
        law_joined(seq![s], Seq::empty(), "\n"@);
    }
}

/// Lines that are joined with newlines are the lines of what they join to.
pub proof fn law_lines_of_joined(parts: Seq<Seq<char>>)
    requires
        parts.len() > 0,
        forall|i: int| 0 <= i < parts.len() ==> !(#[trigger] parts[i]).contains('\n'),
    ensures
        lines(joined(parts, "\n"@)) == parts,
    decreases parts.len(),
{
    reveal_strlit("\n");
    let whole = joined(parts, "\n"@);
    if parts.len() == 1 {
        law_joined(parts, Seq::empty(), "\n"@);
        assert(!parts[0].contains('\n'));
        assert(lines(whole) == seq![whole]);
        assert(seq![whole] == parts);
    } else {
        let first = parts[0];
        let rest = parts.drop_first();
        assert(parts == seq![first] + rest);
        law_joined(seq![first], rest, "\n"@);
        assert(!first.contains('\n'));
        let tail = joined(rest, "\n"@);
        assert(whole == first + "\n"@ + tail);
        assert forall|j: int| 0 <= j < first.len() implies whole[j] != '\n' by {
            assert(whole[j] == first[j]);
            assert(first.contains(first[j]));
        }
        assert(whole[first.len() as int] == '\n');
        lemma_cut(whole, '\n', first.len() as int);
        assert(whole.take(first.len() as int) == first);
        assert(whole.skip(first.len() as int + 1) == tail);
        assert forall|i: int| 0 <= i < rest.len() implies !(#[trigger] rest[i]).contains('\n') by {
            assert(rest[i] == parts[i + 1]);
        }
        law_lines_of_joined(rest);
        assert(lines(whole) == seq![first] + lines(tail));
    }
}

/// Whether a text consists of double quotes alone.
pub open spec fn is_quotes(s: Seq<char>) -> bool {
    forall|i: int| 0 <= i < s.len() ==> #[trigger] s[i] == '"'
}

/// Double quotes at the start of a text come off, and nothing else does.
proof fn lemma_unquoted_start(quotes: Seq<char>, core: Seq<char>)
    requires
        is_quotes(quotes),
        core.len() > 0 ==> core.first() != '"',
    ensures
        unquoted_start(quotes + core) == core,
    decreases quotes.len(),
{
    if quotes.len() == 0 {
        assert(quotes + core == core);
    } else {
        assert(quotes[0] == '"');
        assert((quotes + core).drop_first() == quotes.drop_first() + core);
        lemma_unquoted_start(quotes.drop_first(), core);
    }
}

/// Double quotes at the end of a text come off, and nothing else does.
proof fn lemma_unquoted_end(core: Seq<char>, quotes: Seq<char>)
    requires
        is_quotes(quotes),
        core.len() > 0 ==> core.last() != '"',
    ensures
        unquoted_end(core + quotes) == core,
    decreases quotes.len(),
{
    if quotes.len() == 0 {
        assert(core + quotes == core);
    } else {
        assert(quotes[quotes.len() - 1] == '"');
        assert((core + quotes).drop_last() == core + quotes.drop_last());
        lemma_unquoted_end(core, quotes.drop_last());
    }
}

/// Double quotes around a text come off, and nothing else does.
pub proof fn law_unquoted(before: Seq<char>, core: Seq<char>, after: Seq<char>)
    requires
        is_quotes(before),
        is_quotes(after),
        core.len() > 0 ==> core.first() != '"' && core.last() != '"',
    ensures
        unquoted(before + core + after) == core,
{
    if core.len() == 0 {
        let none = Seq::<char>::empty();
        assert(before + core + after == (before + after) + none);
        assert forall|i: int| 0 <= i < (before + after).len() implies #[trigger] (before
            + after)[i] == '"' by {
            if i < before.len() {
                assert(before[i] == '"');
            } else {
                assert(after[i - before.len()] == '"');
            }
        }
        lemma_unquoted_start(before + after, none);
    } else {
        assert(before + core + after == before + (core + after));
        assert((core + after).first() == core.first());
        lemma_unquoted_start(before, core + after);
        lemma_unquoted_end(core, after);
    }
}

/// A line is cut at its first `=`: what is before that is the key, and what is behind
/// it, without the double quotes around it, is the value, however long they are. A line
/// without `=` has neither.
pub proof fn law_key_and_value(line: Seq<char>, key: Seq<char>, rest: Seq<char>)
    ensures
        trimmed(line) == key + "="@ + rest && !key.contains('=') ==> key_and_value(line) == Some(
            (key, unquoted(rest)),
        ),
        !trimmed(line).contains('=') ==> key_and_value(line) is None,
{
    reveal_strlit("=");
    if trimmed(line) == key + "="@ + rest && !key.contains('=') {
        let text = trimmed(line);
        assert forall|j: int| 0 <= j < key.len() implies text[j] != '=' by {
            assert(text[j] == key[j]);
            assert(key.contains(key[j]));
        }
        assert(text[key.len() as int] == '=');
        lemma_cut(text, '=', key.len() as int);
        assert(text.take(key.len() as int) == key);
        assert(text.skip(key.len() as int + 1) == rest);
    }
}

/// The value of a key is that on the first line that has the key; there is none if no
/// line has it.
pub proof fn law_first_line_counts(
    lines: Seq<Seq<char>>,
    key: Seq<char>,
    i: int,
    value: Seq<char>,
)
    ensures
        0 <= i < lines.len() && key_and_value(lines[i]) == Some((key, value)) && (forall|j: int|
            0 <= j < i ==> !has_key(#[trigger] lines[j], key)) ==> value_of(lines, key) == Some(
            value,
        ),
        (forall|j: int| 0 <= j < lines.len() ==> !has_key(#[trigger] lines[j], key)) ==> value_of(
            lines,
            key,
        ) is None,
    decreases lines.len(),
{
    if lines.len() > 0 {
        let front = lines.drop_last();
        law_first_line_counts(front, key, i, value);
        assert forall|j: int| 0 <= j < front.len() implies front[j] == #[trigger] lines[j] by {}
        if i == lines.len() - 1 && (forall|j: int|
            0 <= j < i ==> !has_key(#[trigger] lines[j], key)) {
            assert forall|j: int| 0 <= j < front.len() implies !has_key(
                #[trigger] front[j],
                key,
            ) by {
                assert(!has_key(lines[j], key));
            }
        }
        if 0 <= i < lines.len() - 1 && key_and_value(lines[i]) == Some((key, value)) && (forall|
            j: int,
        |
            0 <= j < i ==> !has_key(#[trigger] lines[j], key)) {
            assert forall|j: int| 0 <= j < i implies !has_key(#[trigger] front[j], key) by {
                assert(!has_key(lines[j], key));
            }
            assert(front[i] == lines[i]);
        }
        if forall|j: int| 0 <= j < lines.len() ==> !has_key(#[trigger] lines[j], key) {
            assert forall|j: int| 0 <= j < front.len() implies !has_key(
                #[trigger] front[j],
                key,
            ) by {
                assert(!has_key(lines[j], key));
            }
            assert(!has_key(lines[lines.len() - 1], key));
        }
    }
}

/// Whether a line has the given key.
pub open spec fn has_key(line: Seq<char>, key: Seq<char>) -> bool {
    match key_and_value(line) {
        Some((k, _)) => k == key,
        None => false,
    }
}

/// A line has a key if and only if it is the key, an `=` and anything, with white space
/// around all of it.
pub proof fn law_has_key(line: Seq<char>, key: Seq<char>)
    requires
        !key.contains('='),
    ensures
        has_key(line, key) <==> (key + "="@).is_prefix_of(trimmed(line)),
{
    reveal_strlit("=");
    let text = trimmed(line);
    let start = key + "="@;
    if start.is_prefix_of(text) {
        let rest = text.skip(start.len() as int);
        assert(text.take(start.len() as int) == start);
        assert(text == key + "="@ + rest);
        law_key_and_value(line, key, rest);
    }
    if has_key(line, key) {
        lemma_before_first(text, '=');
        assert(text.take(key.len() as int) == key);
        assert(text[key.len() as int] == '=');
        assert(text.take(start.len() as int) == start);
    }
}

/// A key that stands somewhere stands somewhere for the last time.
proof fn lemma_last_place(keys: Seq<Seq<char>>, i: int) -> (last: int)
    requires
        0 <= i < keys.len(),
    ensures
        i <= last < keys.len(),
        keys[last] == keys[i],
        !repeated_later(keys, last),
    decreases keys.len() - i,
{
    if repeated_later(keys, i) {
        let j = choose|j: int| i < j < keys.len() && keys[j] == keys[i];
        lemma_last_place(keys, j)
    } else {
        i
    }
}

/// The missing keys are those without a value, each once.
proof fn lemma_missing_keys(lines: Seq<Seq<char>>, keys: Seq<Seq<char>>, n: int)
    requires
        0 <= n <= keys.len(),
    ensures
        missing_keys(lines, keys, n).no_duplicates(),
        forall|key: Seq<char>| #[trigger]
            missing_keys(lines, keys, n).contains(key) <==> exists|j: int|
                0 <= j < n && #[trigger] keys[j] == key && value_of(lines, key) is None
                    && !repeated_later(keys, j),
    decreases n,
{
    if n > 0 {
        lemma_missing_keys(lines, keys, n - 1);
        let before = missing_keys(lines, keys, n - 1);
        let now = missing_keys(lines, keys, n);
        let last = keys[n - 1];
        if value_of(lines, last) is None && !repeated_later(keys, n - 1) {
            assert(now == before.push(last));
            assert(!before.contains(last)) by {
                if before.contains(last) {
                    let j = choose|j: int|
                        0 <= j < n - 1 && #[trigger] keys[j] == last && value_of(lines, last)
                            is None && !repeated_later(keys, j);
                    assert(keys[n - 1] == keys[j]);
                    assert(repeated_later(keys, j));
                }
            }
            assert forall|key: Seq<char>| #[trigger] now.contains(key) <==> exists|j: int|
                0 <= j < n && #[trigger] keys[j] == key && value_of(lines, key) is None
                    && !repeated_later(keys, j) by {
                if now.contains(key) {
                    let x = choose|x: int| 0 <= x < now.len() && now[x] == key;
                    if x < before.len() {
                        assert(before[x] == key);
                        assert(before.contains(key));
                    } else {
                        assert(keys[n - 1] == key);
                    }
                }
                if exists|j: int|
                    0 <= j < n && #[trigger] keys[j] == key && value_of(lines, key) is None
                        && !repeated_later(keys, j) {
                    let j = choose|j: int|
                        0 <= j < n && #[trigger] keys[j] == key && value_of(lines, key) is None
                            && !repeated_later(keys, j);
                    if j < n - 1 {
                        assert(before.contains(key));
                        let x = choose|x: int| 0 <= x < before.len() && before[x] == key;
                        assert(now[x] == key);
                    } else {
                        assert(now[before.len() as int] == key);
                    }
                }
            }
        } else {
            assert(now == before);
            assert forall|key: Seq<char>| #[trigger] now.contains(key) <==> exists|j: int|
                0 <= j < n && #[trigger] keys[j] == key && value_of(lines, key) is None
                    && !repeated_later(keys, j) by {
                if exists|j: int|
                    0 <= j < n && #[trigger] keys[j] == key && value_of(lines, key) is None
                        && !repeated_later(keys, j) {
                    let j = choose|j: int|
                        0 <= j < n && #[trigger] keys[j] == key && value_of(lines, key) is None
                            && !repeated_later(keys, j);
                    assert(j < n - 1);
                    assert(before.contains(key));
                }
                if now.contains(key) {
                    assert(before.contains(key));
                    let j = choose|j: int|
                        0 <= j < n - 1 && #[trigger] keys[j] == key && value_of(lines, key)
                            is None && !repeated_later(keys, j);
                    assert(0 <= j < n);
                }
            }
        }
    }
}

/// Values come back if and only if every key has one. There is one for each key, in
/// the same order: the value of the key, or nothing where the key stands again later.
/// Otherwise the keys without a value come back, each once.
pub proof fn law_values(content: Seq<char>, keys: Seq<Seq<char>>, i: int)
    requires
        0 <= i < keys.len(),
    ensures
        match values_or_missing(content, keys) {
            Ok(values) => {
                &&& values.len() == keys.len()
                &&& value_of(lines(content), keys[i]) is Some
                &&& (forall|j: int| i < j < keys.len() ==> #[trigger] keys[j] != keys[i])
                    ==> values[i] == value_of(lines(content), keys[i])->0
                &&& (exists|j: int| i < j < keys.len() && #[trigger] keys[j] == keys[i])
                    ==> values[i].len() == 0
            },
            Err(missing) => {
                &&& missing.len() > 0
                &&& missing.no_duplicates()
                &&& missing.contains(keys[i]) <==> value_of(lines(content), keys[i]) is None
                &&& forall|x: int|
                    0 <= x < missing.len() ==> keys.contains(#[trigger] missing[x]) && value_of(
                        lines(content),
                        missing[x],
                    ) is None
            },
        },
{
    let texts = lines(content);
    let n = keys.len() as int;
    lemma_missing_keys(texts, keys, n);
    let missing = missing_keys(texts, keys, n);
    if value_of(texts, keys[i]) is None {
        let last = lemma_last_place(keys, i);
        assert(0 <= last < n && keys[last] == keys[i] && !repeated_later(keys, last));
        assert(missing.contains(keys[i]));
    }
    if missing.contains(keys[i]) {
        let j = choose|j: int|
            0 <= j < n && #[trigger] keys[j] == keys[i] && value_of(texts, keys[i]) is None
                && !repeated_later(keys, j);
        assert(value_of(texts, keys[i]) is None);
    }
    assert forall|x: int| 0 <= x < missing.len() implies keys.contains(#[trigger] missing[x])
        && value_of(texts, missing[x]) is None by {
        assert(missing.contains(missing[x]));
        let j = choose|j: int|
            0 <= j < n && #[trigger] keys[j] == missing[x] && value_of(texts, missing[x]) is None
                && !repeated_later(keys, j);
        assert(keys[j] == missing[x]);
    }
}

/// No keys have no values.
pub proof fn law_no_keys(content: Seq<char>)
    ensures
        values_or_missing(content, Seq::empty()) == Ok::<Seq<Seq<char>>, Seq<Seq<char>>>(
            Seq::empty(),
        ),
{
    assert(values_of(lines(content), Seq::empty()) == Seq::<Seq<char>>::empty());
}

/// Whether a text can stand as a key: it holds no `=`, and no white space.
pub open spec fn is_plain_key(key: Seq<char>) -> bool {
    forall|i: int| 0 <= i < key.len() ==> #[trigger] key[i] != '=' && !is_white_space(key[i])
}

/// A value that is written in double quotes behind its key, on a line of its own, is
/// read back as it is, whatever its length, unless a line before it starts with the
/// same key.
pub proof fn law_written_value_is_read_back(
    before: Seq<Seq<char>>,
    key: Seq<char>,
    value: Seq<char>,
    after: Seq<Seq<char>>,
    keys: Seq<Seq<char>>,
    i: int,
)
    requires
        forall|j: int|
            0 <= j < before.len() ==> !(#[trigger] before[j]).contains('\n') && !(key
                + "="@).is_prefix_of(trimmed(before[j])),
        forall|j: int| 0 <= j < after.len() ==> !(#[trigger] after[j]).contains('\n'),
        is_plain_key(key),
        !value.contains('\n'),
        value.len() > 0 ==> value.first() != '"' && value.last() != '"',
        0 <= i < keys.len(),
        keys[i] == key,
        forall|j: int| i < j < keys.len() ==> #[trigger] keys[j] != key,
    ensures
        ({
            let line = key + "=\""@ + value + "\""@;
            let content = joined(before + seq![line] + after, "\n"@);
            &&& match values_or_missing(content, keys) {
                Ok(values) => values.len() == keys.len() && values[i] == value,
                Err(missing) => !missing.contains(key),
            }
            &&& keys.len() == 1 ==> values_or_missing(content, keys) == Ok::<
                Seq<Seq<char>>,
                Seq<Seq<char>>,
            >(seq![value])
        }),
{
    reveal_strlit("=\"");
    reveal_strlit("\"");
    reveal_strlit("=");
    let line = key + "=\""@ + value + "\""@;
    let all = before + seq![line] + after;
    let content = joined(all, "\n"@);
    let none = Seq::<char>::empty();
    assert(!key.contains('=')) by {
        if key.contains('=') {
            let j = choose|j: int| 0 <= j < key.len() && key[j] == '=';
            assert(key[j] != '=');
        }
    }
    assert(!line.contains('\n')) by {
        if line.contains('\n') {
            let j = choose|j: int| 0 <= j < line.len() && line[j] == '\n';
            if j < key.len() {
                assert(!is_white_space(key[j]));
            } else if j >= key.len() + 2 && j < key.len() + 2 + value.len() {
                assert(value[j - key.len() - 2] == '\n');
                assert(value.contains('\n'));
            }
        }
    }
    assert(line.last() == '"');
    assert(!is_white_space(line.first())) by {
        if key.len() > 0 {
            assert(!is_white_space(key[0]));
            assert(line.first() == key[0]);
        } else {
            assert(line.first() == '=');
        }
    }
    law_trimmed(none, line, none);
    assert(none + line + none == line);
    let quoted = "\""@ + value + "\""@;
    assert(line == key + "="@ + quoted);
    law_key_and_value(line, key, quoted);
    law_unquoted("\""@, value, "\""@);
    assert(key_and_value(line) == Some((key, value)));
    assert forall|j: int| 0 <= j < all.len() implies !(#[trigger] all[j]).contains('\n') by {
        if j < before.len() {
            assert(all[j] == before[j]);
        } else if j > before.len() {
            assert(all[j] == after[j - before.len() - 1]);
        }
    }
    law_lines_of_joined(all);
    assert forall|j: int| 0 <= j < before.len() implies !has_key(#[trigger] all[j], key) by {
        assert(all[j] == before[j]);
        law_has_key(before[j], key);
    }
    assert(all[before.len() as int] == line);
    law_first_line_counts(all, key, before.len() as int, value);
    assert(value_of(lines(content), key) == Some(value));
    law_values(content, keys, i);
    if keys.len() == 1 {
        if let Err(missing) = values_or_missing(content, keys) {
            assert(keys.contains(missing[0]));
            assert(missing[0] == key);
        } else {
            assert(values_or_missing(content, keys)->Ok_0 == seq![value]);
        }
    }
}

/// The keys that were not found are listed in quotes, with commas between them.
pub proof fn law_missing_text(first: Seq<Seq<char>>, second: Seq<Seq<char>>, key: Seq<char>)
    ensures
        missing_text(seq![key]) == "Could not find keys: ["@ + debug_quoted(key) + "]"@,
        first.len() > 0 && second.len() > 0 ==> missing_text(first + second)
            == "Could not find keys: ["@ + (joined(
            first.map_values(|k: Seq<char>| debug_quoted(k)),
            ", "@,
        ) + ", "@ + joined(second.map_values(|k: Seq<char>| debug_quoted(k)), ", "@)) + "]"@,
{
    let quotes = |k: Seq<char>| debug_quoted(k);
    assert(seq![key].map_values(quotes) == seq![debug_quoted(key)]);
    law_joined(seq![debug_quoted(key)], Seq::empty(), ", "@);
    assert((first + second).map_values(quotes) == first.map_values(quotes) + second.map_values(
        quotes,
    ));
    law_joined(first.map_values(quotes), second.map_values(quotes), ", "@);
}

} // verus!
