//! Text helpers: what the library needs of `str` and `String` beyond vstd.

use vstd::prelude::*;
use vstd::string::StrSliceExecFns;
use std::path::Path;
use std::path::PathBuf;

verus! {

/// The lowercase form of a text, as Unicode defines it.
pub uninterp spec fn lowercase(s: Seq<char>) -> Seq<char>;

/// The extension of a path's file name, where it has one that is valid
/// Unicode.
pub uninterp spec fn path_extension(p: &Path) -> Option<Seq<char>>;

/// The stem of a path's file name, the part before its extension, with
/// what is not valid Unicode replaced; `None` where the path has no file
/// name.
pub uninterp spec fn path_file_stem(p: &Path) -> Option<Seq<char>>;

/// The path that `dir` and a file name in it make.
pub uninterp spec fn path_joined(dir: &Path, name: Seq<char>) -> PathBuf;

/// `Path::file_stem`, as text, with what is not valid Unicode replaced.
#[verifier::external_body]
pub(crate) fn file_stem_of(p: &Path) -> (r: Option<String>)
    ensures
        r is Some <==> path_file_stem(p) is Some,
        r matches Some(s) ==> path_file_stem(p) == Some(s@),
{
    p.file_stem().map(|s| s.to_string_lossy().into_owned())
}

/// `Path::join` with a file name.
#[verifier::external_body]
pub(crate) fn join_path(dir: &Path, name: &str) -> (r: PathBuf)
    ensures
        r == path_joined(dir, name@),
{
    dir.join(name)
}

/// The path as an owned value.
pub uninterp spec fn path_owned(p: &Path) -> PathBuf;

/// `Path::to_path_buf`.
#[verifier::external_body]
pub(crate) fn owned_path(p: &Path) -> (r: PathBuf)
    ensures
        r == path_owned(p),
{
    p.to_path_buf()
}

/// A text as it is written in a program: between double quotes, with
/// escapes for the characters that need them.
pub uninterp spec fn quoted(s: Seq<char>) -> Seq<char>;

/// The `Debug` form of a text: the text as it is written in a program.
#[verifier::external_body]
pub(crate) fn quote_text(s: &str) -> (r: String)
    ensures
        r@ == quoted(s@),
{
    format!("{:?}", s)
}

/// `str::to_lowercase` returns the lowercase form of the text.
pub assume_specification[ str::to_lowercase ](s: &str) -> (r: String)
    ensures
        r@ == lowercase(s@),
;

/// Two texts are equal when they hold the same characters.
pub assume_specification[ <str as PartialEq>::eq ](a: &str, b: &str) -> (r: bool)
    ensures
        r == (a@ == b@),
;

/// `String::push` appends one character.
pub assume_specification[ String::push ](s: &mut String, c: char)
    ensures
        final(s)@ == old(s)@.push(c),
;

/// `Path::extension`, as text: `None` where the path has no extension or
/// the extension is not valid Unicode.
#[verifier::external_body]
pub(crate) fn extension_of(p: &Path) -> (r: Option<String>)
    ensures
        r is Some <==> path_extension(p) is Some,
        r matches Some(s) ==> path_extension(p) == Some(s@),
{
    p.extension().and_then(|e| e.to_str()).map(|e| e.to_owned())
}

/// Whether two texts hold the same characters.
pub fn same_text(a: &str, b: &str) -> (r: bool)
    ensures
        r == (a@ == b@),
{
    a.eq(b)
}

/// Whether the text ends in the character `c`.
pub fn ends_with_char(s: &str, c: char) -> (b: bool)
    ensures
        b == (s@.len() > 0 && s@.last() == c),
{
    let n = s.unicode_len();
    n > 0 && s.get_char(n - 1) == c
}

/// The text without the characters `c` at its end.
pub open spec fn without_trailing(s: Seq<char>, c: char) -> Seq<char>
    decreases s.len(),
{
    if s.len() > 0 && s.last() == c {
        without_trailing(s.drop_last(), c)
    } else {
        s
    }
}

/// The text without the characters `c` at its end.
pub fn trim_end_char(s: &str, c: char) -> (r: &str)
    ensures
        r@ == without_trailing(s@, c),
{
    let mut n = s.unicode_len();
    assert(s@.subrange(0, n as int) =~= s@);
    while n > 0 && s.get_char(n - 1) == c
        invariant
            n <= s@.len(),
            without_trailing(s@, c) == without_trailing(s@.subrange(0, n as int), c),
        decreases n,
    {
        proof {
            assert(s@.subrange(0, n as int).drop_last() =~= s@.subrange(0, n - 1));
        }
        n = n - 1;
    }
    proof {
        if n == 0 {
            assert(s@.subrange(0, 0).len() == 0);
        }
    }
    s.substring_char(0, n)
}

/// The character of a decimal digit.
pub open spec fn digit_char(d: nat) -> char
    recommends
        d < 10,
{
    (('0' as u8) + (d as u8)) as char
}

/// The decimal notation of a number, without leading zeros.
pub open spec fn decimal_text(n: nat) -> Seq<char>
    decreases n,
{
    if n < 10 {
        seq![digit_char(n)]
    } else {
        decimal_text(n / 10).push(digit_char(n % 10))
    }
}

/// Appends the decimal notation of `n` to `out`.
pub fn push_decimal(out: &mut String, n: u64)
    ensures
        final(out)@ == old(out)@ + decimal_text(n as nat),
    decreases n,
{
    if n >= 10 {
        push_decimal(out, n / 10);
    }
    let d: u8 = (n % 10) as u8;
    let c: char = (48u8 + d) as char;
    out.push(c);
    proof {
        assert(c == digit_char((n % 10) as nat));
        if n < 10 {
            assert(old(out)@.push(c) =~= old(out)@ + seq![c]);
        } else {
            assert((old(out)@ + decimal_text((n / 10) as nat)).push(c) =~= old(out)@
                + decimal_text((n / 10) as nat).push(c));
        }
    }
}

/// The decimal notation of `n`.
pub fn decimal(n: u64) -> (s: String)
    ensures
        s@ == decimal_text(n as nat),
{
    let mut s = String::new();
    push_decimal(&mut s, n);
    assert(Seq::<char>::empty() + decimal_text(n as nat) =~= decimal_text(n as nat));
    s
}

/// Whether a character is white space, as Unicode defines it.
pub uninterp spec fn is_space(c: char) -> bool;

/// `char::is_whitespace` tells whether a character is white space.
pub assume_specification[ char::is_whitespace ](c: char) -> (b: bool)
    ensures
        b == is_space(c),
;

/// The characters of a text.
pub fn chars_of(s: &str) -> (r: Vec<char>)
    ensures
        r@ == s@,
{
    let mut out: Vec<char> = Vec::new();
    for c in it: s.chars()
        invariant
            it.seq() == s@,
            out@ == s@.take(it.index() as int),
    {
        out.push(c);
        assert(s@.take(it.index() + 1) =~= s@.take(it.index() as int).push(c));
    }
    assert(s@.take(s@.len() as int) =~= s@);
    out
}

/// The text of the characters from `from` up to `to`.
pub fn text_between(chars: &Vec<char>, from: usize, to: usize) -> (r: String)
    requires
        from <= to <= chars@.len(),
    ensures
        r@ == chars@.subrange(from as int, to as int),
{
    let mut out = String::new();
    let mut i: usize = from;
    assert(chars@.subrange(from as int, from as int) =~= Seq::empty());
    while i < to
        invariant
            from <= i <= to <= chars@.len(),
            out@ == chars@.subrange(from as int, i as int),
        decreases to - i,
    {
        out.push(chars[i]);
        assert(chars@.subrange(from as int, i + 1) =~= chars@.subrange(from as int, i as int).push(
            chars@[i as int],
        ));
        i = i + 1;
    }
    out
}

/// The text of the characters.
pub fn text_of(chars: &Vec<char>) -> (r: String)
    ensures
        r@ == chars@,
{
    assert(chars@.subrange(0, chars@.len() as int) =~= chars@);
    text_between(chars, 0, chars.len())
}

/// Whether `needle` stands in `hay` at position `i`.
pub open spec fn occurs_at(hay: Seq<char>, needle: Seq<char>, i: int) -> bool {
    0 <= i && i + needle.len() <= hay.len() && hay.subrange(i, i + needle.len()) == needle
}

/// The first position at or after `from` at which `needle` stands in
/// `hay`, or a number above the length of `hay` where there is none.
pub open spec fn find_from(hay: Seq<char>, needle: Seq<char>, from: int) -> int
    decreases hay.len() + 1 - from,
{
    if from < 0 || from + needle.len() > hay.len() {
        (hay.len() + 1) as int
    } else if occurs_at(hay, needle, from) {
        from
    } else {
        find_from(hay, needle, from + 1)
    }
}

/// The first position at which `needle` stands in `hay`.
pub open spec fn first_occurrence(hay: Seq<char>, needle: Seq<char>) -> Option<int> {
    if find_from(hay, needle, 0) <= hay.len() {
        Some(find_from(hay, needle, 0))
    } else {
        None
    }
}

/// Whether `needle` stands somewhere in `hay`.
pub open spec fn contains_text(hay: Seq<char>, needle: Seq<char>) -> bool {
    first_occurrence(hay, needle) is Some
}

/// `find_from` gives the first place at or after `from`, and none where
/// there is none.
pub proof fn lemma_find_from(hay: Seq<char>, needle: Seq<char>, from: int)
    requires
        0 <= from,
    ensures
        find_from(hay, needle, from) <= hay.len() ==> from <= find_from(hay, needle, from)
            && occurs_at(hay, needle, find_from(hay, needle, from)),
        forall|i: int|
            from <= i && i < find_from(hay, needle, from) ==> !occurs_at(hay, needle, i),
    decreases hay.len() + 1 - from,
{
    if from + needle.len() <= hay.len() && !occurs_at(hay, needle, from) {
        lemma_find_from(hay, needle, from + 1);
    }
}

/// Whether `needle` stands in `hay` at position `i`.
pub fn matches_at(hay: &Vec<char>, needle: &Vec<char>, i: usize) -> (b: bool)
    ensures
        b == occurs_at(hay@, needle@, i as int),
{
    let n = needle.len();
    let m = hay.len();
    if i > m || n > m - i {
        return false;
    }
    let mut k: usize = 0;
    while k < n
        invariant
            n == needle@.len(),
            m == hay@.len(),
            i + n <= m,
            k <= n,
            forall|j: int| 0 <= j < k ==> hay@[i + j] == needle@[j],
        decreases n - k,
    {
        if hay[i + k] != needle[k] {
            assert(hay@.subrange(i as int, i + n)[k as int] != needle@[k as int]);
            return false;
        }
        k = k + 1;
    }
    assert(hay@.subrange(i as int, i + n) =~= needle@);
    true
}

/// The first position at or after `from` at which `needle` stands in
/// `hay`.
pub fn find_text_from(hay: &Vec<char>, needle: &Vec<char>, from: usize) -> (r: Option<usize>)
    ensures
        match r {
            Some(i) => i == find_from(hay@, needle@, from as int) && from <= i <= hay@.len(),
            None => find_from(hay@, needle@, from as int) > hay@.len(),
        },
{
    if needle.len() > hay.len() || from > hay.len() - needle.len() {
        return None;
    }
    let last = hay.len() - needle.len();
    let mut i: usize = from;
    loop
        invariant
            from <= i <= last,
            last + needle@.len() == hay@.len(),
            find_from(hay@, needle@, from as int) == find_from(hay@, needle@, i as int),
        decreases last - i,
    {
        if matches_at(hay, needle, i) {
            return Some(i);
        }
        if i == last {
            assert(find_from(hay@, needle@, i + 1) == hay@.len() + 1);
            return None;
        }
        i = i + 1;
    }
}

/// The first position at which `needle` stands in `hay`.
pub fn find_text(hay: &Vec<char>, needle: &str) -> (r: Option<usize>)
    ensures
        match r {
            Some(i) => first_occurrence(hay@, needle@) == Some(i as int) && i + needle@.len()
                <= hay@.len(),
            None => first_occurrence(hay@, needle@) is None,
        },
{
    let pattern = chars_of(needle);
    proof {
        lemma_find_from(hay@, needle@, 0);
    }
    find_text_from(hay, &pattern, 0)
}

/// The number of white-space characters at the start of a text.
pub open spec fn leading_spaces(s: Seq<char>) -> nat
    decreases s.len(),
{
    if s.len() > 0 && is_space(s[0]) {
        1 + leading_spaces(s.drop_first())
    } else {
        0
    }
}

/// The number of white-space characters at the end of a text.
pub open spec fn trailing_spaces(s: Seq<char>) -> nat
    decreases s.len(),
{
    if s.len() > 0 && is_space(s.last()) {
        1 + trailing_spaces(s.drop_last())
    } else {
        0
    }
}

/// The counts of white space at both ends stay within the text.
pub proof fn lemma_spaces_bounded(s: Seq<char>)
    ensures
        leading_spaces(s) <= s.len(),
        trailing_spaces(s) <= s.len(),
    decreases s.len(),
{
    if s.len() > 0 {
        lemma_spaces_bounded(s.drop_first());
        lemma_spaces_bounded(s.drop_last());
    }
}

/// The text without the white space at its start and at its end.
pub open spec fn trimmed(s: Seq<char>) -> Seq<char> {
    let rest = s.skip(leading_spaces(s) as int);
    rest.take(rest.len() - trailing_spaces(rest))
}

/// The bounds of the characters from `from` up to `to` without the white
/// space at both ends.
pub fn trim_range(chars: &Vec<char>, from: usize, to: usize) -> (r: (usize, usize))
    requires
        from <= to <= chars@.len(),
    ensures
        from <= r.0 <= r.1 <= to,
        chars@.subrange(r.0 as int, r.1 as int) == trimmed(chars@.subrange(from as int, to as int)),
{
    let ghost whole = chars@.subrange(from as int, to as int);
    let mut a: usize = from;
    while a < to && chars[a].is_whitespace()
        invariant
            from <= a <= to <= chars@.len(),
            whole == chars@.subrange(from as int, to as int),
            leading_spaces(whole) == (a - from) + leading_spaces(chars@.subrange(a as int, to as int)),
        decreases to - a,
    {
        proof {
            let cur = chars@.subrange(a as int, to as int);
            assert(cur.drop_first() =~= chars@.subrange(a + 1, to as int));
        }
        a = a + 1;
    }
    let ghost rest = chars@.subrange(a as int, to as int);
    proof {
        if a < to {
            assert(rest[0] == chars@[a as int]);
        }
        assert(leading_spaces(rest) == 0);
        assert(whole.skip((a - from) as int) =~= rest);
    }
    let mut b: usize = to;
    while b > a && chars[b - 1].is_whitespace()
        invariant
            a <= b <= to <= chars@.len(),
            rest == chars@.subrange(a as int, to as int),
            trailing_spaces(rest) == (to - b) + trailing_spaces(chars@.subrange(a as int, b as int)),
        decreases b - a,
    {
        proof {
            let cur = chars@.subrange(a as int, b as int);
            assert(cur.drop_last() =~= chars@.subrange(a as int, b - 1));
        }
        b = b - 1;
    }
    proof {
        let cur = chars@.subrange(a as int, b as int);
        if b > a {
            assert(cur.last() == chars@[b - 1]);
        }
        assert(trailing_spaces(cur) == 0);
        assert(rest.take(rest.len() - trailing_spaces(rest)) =~= cur);
    }
    (a, b)
}

/// The text of the characters from `from` up to `to`, without the white
/// space at both ends.
pub fn trimmed_text(chars: &Vec<char>, from: usize, to: usize) -> (r: String)
    requires
        from <= to <= chars@.len(),
    ensures
        r@ == trimmed(chars@.subrange(from as int, to as int)),
{
    let (a, b) = trim_range(chars, from, to);
    text_between(chars, a, b)
}

/// Whether a text begins with `prefix`.
pub open spec fn begins_with(s: Seq<char>, prefix: Seq<char>) -> bool {
    occurs_at(s, prefix, 0)
}

/// Whether the characters begin with `prefix`.
pub fn starts_with_text(chars: &Vec<char>, prefix: &str) -> (b: bool)
    ensures
        b == begins_with(chars@, prefix@),
{
    let pattern = chars_of(prefix);
    matches_at(chars, &pattern, 0)
}

/// The lines of a text: the pieces between its line feeds. A text without
/// a line feed is one line.
pub open spec fn lines_of(s: Seq<char>) -> Seq<Seq<char>>
    decreases s.len(),
{
    let i = find_from(s, seq!['\n'], 0);
    if 0 <= i < s.len() {
        seq![s.take(i)] + lines_of(s.skip(i + 1))
    } else {
        seq![s]
    }
}

/// The lines of a text, each as its characters.
pub fn split_lines(chars: &Vec<char>) -> (lines: Vec<Vec<char>>)
    ensures
        lines@.len() == lines_of(chars@).len(),
        forall|i: int| 0 <= i < lines@.len() ==> (#[trigger] lines@[i])@ == lines_of(chars@)[i],
{
    let mut lines: Vec<Vec<char>> = Vec::new();
    let mut start: usize = 0;
    let ghost mut done: Seq<Seq<char>> = Seq::empty();
    assert(chars@.skip(0) =~= chars@);
    loop
        invariant_except_break
            lines_of(chars@) == done + lines_of(chars@.skip(start as int)),
        invariant
            start <= chars@.len(),
            lines@.len() == done.len(),
            forall|i: int| 0 <= i < lines@.len() ==> (#[trigger] lines@[i])@ == done[i],
        ensures
            lines_of(chars@) == done,
        decreases chars@.len() - start,
    {
        let ghost rest = chars@.skip(start as int);
        let mut end: usize = start;
        while end < chars.len() && chars[end] != '\n'
            invariant
                start <= end <= chars@.len(),
                rest == chars@.skip(start as int),
                forall|j: int| start <= j < end ==> chars@[j] != '\n',
                find_from(rest, seq!['\n'], 0) == find_from(rest, seq!['\n'], end - start),
            decreases chars@.len() - end,
        {
            proof {
                let at = end - start;
                assert(rest.subrange(at, at + 1)[0] == chars@[end as int]);
                assert(!occurs_at(rest, seq!['\n'], at));
            }
            end = end + 1;
        }
        let mut line: Vec<char> = Vec::new();
        let mut k: usize = start;
        assert(chars@.subrange(start as int, start as int) =~= Seq::empty());
        while k < end
            invariant
                start <= k <= end <= chars@.len(),
                line@ == chars@.subrange(start as int, k as int),
            decreases end - k,
        {
            line.push(chars[k]);
            assert(chars@.subrange(start as int, k + 1) =~= chars@.subrange(start as int, k as int).push(
                chars@[k as int],
            ));
            k = k + 1;
        }
        assert(line@ =~= rest.take(end - start));
        lines.push(line);
        if end >= chars.len() {
            proof {
                assert(rest.take(end - start) =~= rest);
                assert(find_from(rest, seq!['\n'], rest.len() as int) > rest.len());
                assert(lines_of(rest) =~= seq![rest]);
                done = done.push(rest);
                assert(lines_of(chars@) =~= done);
            }
            break;
        }
        proof {
            let at = end - start;
            assert(rest.subrange(at, at + 1) =~= seq!['\n']);
            assert(occurs_at(rest, seq!['\n'], at));
            assert(find_from(rest, seq!['\n'], 0) == at);
            assert(rest.skip(at + 1) =~= chars@.skip(end + 1));
            assert(lines_of(rest) =~= seq![rest.take(at)] + lines_of(chars@.skip(end + 1)));
            assert(done + lines_of(rest) =~= done.push(rest.take(at)) + lines_of(
                chars@.skip(end + 1),
            ));
            done = done.push(rest.take(at));
        }
        start = end + 1;
    }
    lines
}

/// The last position of the character `c` in a text, or -1 where it does
/// not occur.
pub open spec fn last_position(s: Seq<char>, c: char) -> int
    decreases s.len(),
{
    if s.len() == 0 {
        -1
    } else if s.last() == c {
        s.len() - 1
    } else {
        last_position(s.drop_last(), c)
    }
}

/// The last position of the character `c`.
pub fn find_last_char(chars: &Vec<char>, c: char) -> (r: Option<usize>)
    ensures
        match r {
            Some(i) => i == last_position(chars@, c) && i < chars@.len() && chars@[i as int] == c,
            None => last_position(chars@, c) == -1,
        },
{
    let mut i: usize = chars.len();
    assert(chars@.subrange(0, i as int) =~= chars@);
    while i > 0
        invariant
            i <= chars@.len(),
            last_position(chars@, c) == last_position(chars@.subrange(0, i as int), c),
        decreases i,
    {
        if chars[i - 1] == c {
            assert(chars@.subrange(0, i as int).last() == c);
            return Some(i - 1);
        }
        assert(chars@.subrange(0, i as int).drop_last() =~= chars@.subrange(0, i - 1));
        i = i - 1;
    }
    None
}

/// The number of characters `c` at the start of a text.
pub open spec fn leading_count(s: Seq<char>, c: char) -> nat
    decreases s.len(),
{
    if s.len() > 0 && s[0] == c {
        1 + leading_count(s.drop_first(), c)
    } else {
        0
    }
}

/// The text without the characters `c` at its start.
pub open spec fn without_leading(s: Seq<char>, c: char) -> Seq<char> {
    s.skip(leading_count(s, c) as int)
}

/// The first position at or after `from`, and before `to`, that does not
/// hold the character `c`; `to` where there is none.
pub fn skip_leading(chars: &Vec<char>, from: usize, to: usize, c: char) -> (r: usize)
    requires
        from <= to <= chars@.len(),
    ensures
        from <= r <= to,
        chars@.subrange(r as int, to as int) == without_leading(
            chars@.subrange(from as int, to as int),
            c,
        ),
{
    let ghost whole = chars@.subrange(from as int, to as int);
    let mut a: usize = from;
    while a < to && chars[a] == c
        invariant
            from <= a <= to <= chars@.len(),
            whole == chars@.subrange(from as int, to as int),
            leading_count(whole, c) == (a - from) + leading_count(
                chars@.subrange(a as int, to as int),
                c,
            ),
        decreases to - a,
    {
        proof {
            let cur = chars@.subrange(a as int, to as int);
            assert(cur.drop_first() =~= chars@.subrange(a + 1, to as int));
        }
        a = a + 1;
    }
    proof {
        let rest = chars@.subrange(a as int, to as int);
        if a < to {
            assert(rest[0] == chars@[a as int]);
        }
        assert(leading_count(rest, c) == 0);
        assert(whole.skip((a - from) as int) =~= rest);
    }
    a
}

/// The number of characters at the start of a text that are not white
/// space.
pub open spec fn word_length(s: Seq<char>) -> nat
    decreases s.len(),
{
    if s.len() > 0 && !is_space(s[0]) {
        1 + word_length(s.drop_first())
    } else {
        0
    }
}

/// The first word is no longer than the text.
pub proof fn lemma_word_bounded(s: Seq<char>)
    ensures
        word_length(s) <= s.len(),
    decreases s.len(),
{
    if s.len() > 0 {
        lemma_word_bounded(s.drop_first());
    }
}

/// The words of a text: the longest pieces without white space, in order.
pub open spec fn words_of(s: Seq<char>) -> Seq<Seq<char>>
    decreases s.len(),
{
    let start = leading_spaces(s);
    let rest = s.skip(start as int);
    let length = word_length(rest);
    if length == 0 || start >= s.len() || length > rest.len() {
        Seq::empty()
    } else {
        seq![rest.take(length as int)] + words_of(rest.skip(length as int))
    }
}

/// The words of the characters.
pub fn split_words(chars: &Vec<char>) -> (words: Vec<Vec<char>>)
    ensures
        words@.len() == words_of(chars@).len(),
        forall|i: int| 0 <= i < words@.len() ==> (#[trigger] words@[i])@ == words_of(chars@)[i],
{
    let n = chars.len();
    let mut words: Vec<Vec<char>> = Vec::new();
    let ghost mut done: Seq<Seq<char>> = Seq::empty();
    let mut at: usize = 0;
    assert(chars@.skip(0) =~= chars@);
    loop
        invariant_except_break
            words_of(chars@) == done + words_of(chars@.skip(at as int)),
        invariant
            n == chars@.len(),
            at <= n,
            words@.len() == done.len(),
            forall|i: int| 0 <= i < words@.len() ==> (#[trigger] words@[i])@ == done[i],
        ensures
            words_of(chars@) == done,
        decreases n - at,
    {
        let ghost tail = chars@.skip(at as int);
        let mut a: usize = at;
        while a < n && chars[a].is_whitespace()
            invariant
                at <= a <= n,
                n == chars@.len(),
                tail == chars@.skip(at as int),
                leading_spaces(tail) == (a - at) + leading_spaces(chars@.skip(a as int)),
            decreases n - a,
        {
            proof {
                let cur = chars@.skip(a as int);
                assert(cur[0] == chars@[a as int]);
                assert(cur.drop_first() =~= chars@.skip(a + 1));
            }
            a = a + 1;
        }
        let ghost rest = chars@.skip(a as int);
        proof {
            if a < n {
                assert(rest[0] == chars@[a as int]);
            }
            assert(leading_spaces(rest) == 0);
            assert(tail.skip((a - at) as int) =~= rest);
        }
        let mut b: usize = a;
        let mut word: Vec<char> = Vec::new();
        assert(rest.take(0) =~= Seq::empty());
        while b < n && !chars[b].is_whitespace()
            invariant
                a <= b <= n,
                n == chars@.len(),
                rest == chars@.skip(a as int),
                word@ == rest.take(b - a),
                word_length(rest) == (b - a) + word_length(chars@.skip(b as int)),
            decreases n - b,
        {
            proof {
                let cur = chars@.skip(b as int);
                assert(cur[0] == chars@[b as int]);
                assert(cur.drop_first() =~= chars@.skip(b + 1));
                assert(rest.take(b - a + 1) =~= rest.take(b - a).push(chars@[b as int]));
            }
            word.push(chars[b]);
            b = b + 1;
        }
        proof {
            let cur = chars@.skip(b as int);
            if b < n {
                assert(cur[0] == chars@[b as int]);
            }
            assert(word_length(cur) == 0);
            assert(word_length(rest) == b - a);
            assert(rest.skip(b - a) =~= cur);
        }
        if b == a {
            proof {
                assert(words_of(tail) =~= Seq::empty());
                assert(done + Seq::<Seq<char>>::empty() =~= done);
            }
            break;
        }
        proof {
            assert(leading_spaces(tail) < tail.len());
            lemma_word_bounded(rest);
            assert(words_of(tail) =~= seq![rest.take(b - a)] + words_of(chars@.skip(b as int)));
            assert(done + words_of(tail) =~= done.push(rest.take(b - a)) + words_of(
                chars@.skip(b as int),
            ));
            done = done.push(rest.take(b - a));
        }
        words.push(word);
        at = b;
    }
    words
}

/// Whether a character is a decimal digit.
pub open spec fn is_digit(c: char) -> bool {
    '0' <= c <= '9'
}

/// The number that a text of decimal digits stands for; `None` where the
/// text holds anything but digits. The empty text stands for zero.
pub open spec fn digits_value(s: Seq<char>) -> Option<nat>
    decreases s.len(),
{
    if s.len() == 0 {
        Some(0nat)
    } else if !is_digit(s.last()) {
        None
    } else {
        match digits_value(s.drop_last()) {
            Some(v) => Some((10 * v + (s.last() as u32 - '0' as u32)) as nat),
            None => None,
        }
    }
}

/// The number that a text stands for as an unsigned 32-bit number: one or
/// more decimal digits, with a plus sign before them or without, that
/// make a number up to `u32::MAX`.
pub open spec fn u32_of_text(s: Seq<char>) -> Option<u32> {
    let digits = if s.len() > 0 && s[0] == '+' {
        s.drop_first()
    } else {
        s
    };
    if digits.len() == 0 {
        None
    } else {
        match digits_value(digits) {
            Some(v) => if v <= u32::MAX {
                Some(v as u32)
            } else {
                None
            },
            None => None,
        }
    }
}

/// A number does not shrink when a digit is added.
proof fn lemma_digits_grow(s: Seq<char>, n: int)
    requires
        0 <= n <= s.len(),
        digits_value(s) is Some,
    ensures
        digits_value(s.take(n)) is Some,
        digits_value(s.take(n))->0 <= digits_value(s)->0,
    decreases s.len() - n,
{
    if n < s.len() {
        assert(s.take(n + 1).drop_last() =~= s.take(n));
        lemma_digits_grow(s, n + 1);
    } else {
        assert(s.take(n) =~= s);
    }
}

/// Reads an unsigned 32-bit number from the characters from `from` up to
/// `to`.
pub fn parse_u32(chars: &Vec<char>, from: usize, to: usize) -> (r: Option<u32>)
    requires
        from <= to <= chars@.len(),
    ensures
        r == u32_of_text(chars@.subrange(from as int, to as int)),
{
    let ghost whole = chars@.subrange(from as int, to as int);
    let start: usize = if from < to && chars[from] == '+' {
        from + 1
    } else {
        from
    };
    let ghost digits = chars@.subrange(start as int, to as int);
    proof {
        if from < to {
            assert(whole[0] == chars@[from as int]);
        }
        if start > from {
            assert(whole.drop_first() =~= digits);
        } else {
            assert(whole =~= digits);
        }
    }
    if start == to {
        return None;
    }
    let mut value: u64 = 0;
    let mut i: usize = start;
    assert(digits.take(0) =~= Seq::empty());
    while i < to
        invariant
            start <= i <= to <= chars@.len(),
            start < to,
            digits == chars@.subrange(start as int, to as int),
            u32_of_text(chars@.subrange(from as int, to as int)) == (match digits_value(digits) {
                Some(v) => if v <= u32::MAX {
                    Some(v as u32)
                } else {
                    None
                },
                None => None,
            }),
            digits_value(digits.take(i - start)) == Some(value as nat),
            value <= u32::MAX,
        decreases to - i,
    {
        let c = chars[i];
        proof {
            assert(digits.take(i - start + 1).drop_last() =~= digits.take(i - start));
            assert(digits.take(i - start + 1).last() == c);
        }
        if c < '0' || c > '9' {
            proof {
                if digits_value(digits) is Some {
                    lemma_digits_grow(digits, i - start + 1);
                }
            }
            return None;
        }
        let digit = (c as u32 - '0' as u32) as u64;
        let next = 10 * value + digit;
        if next > u32::MAX as u64 {
            proof {
                if digits_value(digits) is Some {
                    lemma_digits_grow(digits, i - start + 1);
                }
            }
            return None;
        }
        value = next;
        i = i + 1;
    }
    assert(digits.take(to - start) =~= digits);
    Some(value as u32)
}

} // verus!
