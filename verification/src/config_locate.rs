//! Locating configuration problems in the source text: the line and column
//! of a byte offset, and the line an error message most likely refers to.

use vstd::prelude::*;

use crate::text::slice_chars;

verus! {

/// The number of bytes UTF-8 takes for `c`.
pub open spec fn utf8_width(c: char) -> nat {
    if (c as u32) < 0x80 {
        1
    } else if (c as u32) < 0x800 {
        2
    } else if (c as u32) < 0x10000 {
        3
    } else {
        4
    }
}

/// The number of leading characters of `s` whose UTF-8 encoding ends at or
/// before byte `offset`: the character position of a byte offset.
pub open spec fn chars_within(s: Seq<char>, offset: int) -> int
    decreases s.len(),
{
    if s.len() == 0 || offset < utf8_width(s[0]) {
        0
    } else {
        1 + chars_within(s.skip(1), offset - utf8_width(s[0]))
    }
}

/// The number of newlines in `s`.
pub open spec fn newlines(s: Seq<char>) -> nat
    decreases s.len(),
{
    if s.len() == 0 {
        0
    } else {
        newlines(s.drop_last()) + if s.last() == '\n' {
            1nat
        } else {
            0nat
        }
    }
}

/// The position just after the last newline of `s` before position `p` (zero
/// when there is none): where the line holding `p` starts.
pub open spec fn line_start(s: Seq<char>, p: int) -> int
    decreases p,
{
    if p <= 0 {
        0
    } else if s[p - 1] == '\n' {
        p
    } else {
        line_start(s, p - 1)
    }
}

/// The position of the first newline of `s` at or after `p` (the length of
/// `s` when there is none): where the line holding `p` ends.
pub open spec fn line_end(s: Seq<char>, p: int) -> int
    decreases s.len() - p,
{
    if p >= s.len() {
        s.len() as int
    } else if s[p] == '\n' {
        p
    } else {
        line_end(s, p + 1)
    }
}

/// `line_end` lies between its start and the end of the text.
pub proof fn lemma_line_end_bounds(s: Seq<char>, p: int)
    requires
        0 <= p,
    ensures
        p <= line_end(s, p) || p > s.len(),
        line_end(s, p) <= s.len(),
    decreases s.len() - p,
{
    if p < s.len() && s[p] != '\n' {
        lemma_line_end_bounds(s, p + 1);
    }
}

/// The line (from 1), column (from 1, in characters) and line text of byte
/// `offset` of the UTF-8 text `s`; an offset past the end stands for the end.
pub open spec fn location(s: Seq<char>, offset: int) -> (int, int, Seq<char>) {
    let p = chars_within(s, offset);
    let start = line_start(s, p);
    let end = line_end(s, p);
    ((newlines(s.take(p)) + 1) as int, p - start + 1, s.subrange(start, end))
}

fn width_of(c: char) -> (w: usize)
    ensures
        w == utf8_width(c),
{
    let u = c as u32;
    if u < 0x80 {
        1
    } else if u < 0x800 {
        2
    } else if u < 0x10000 {
        3
    } else {
        4
    }
}

proof fn lemma_chars_within_bound(s: Seq<char>, offset: int)
    ensures
        0 <= chars_within(s, offset) <= s.len(),
    decreases s.len(),
{
    if s.len() > 0 && offset >= utf8_width(s[0]) {
        lemma_chars_within_bound(s.skip(1), offset - utf8_width(s[0]));
    }
}

proof fn lemma_ascii_chars_within(s: Seq<char>, offset: int)
    requires
        forall|i: int| 0 <= i < s.len() ==> (#[trigger] s[i] as u32) < 0x80,
        0 <= offset,
    ensures
        chars_within(s, offset) == if offset <= s.len() { offset } else { s.len() as int },
    decreases s.len(),
{
    if s.len() > 0 && offset >= 1 {
        assert((s[0] as u32) < 0x80);
        assert forall|i: int| 0 <= i < s.skip(1).len() implies (#[trigger] s.skip(1)[i] as u32) < 0x80 by {
            assert(s.skip(1)[i] == s[i + 1]);
        }
        lemma_ascii_chars_within(s.skip(1), offset - 1);
    } else if s.len() > 0 {
        assert((s[0] as u32) < 0x80);
    }
}

proof fn lemma_line_start_facts(s: Seq<char>, p: int)
    requires
        0 <= p <= s.len(),
    ensures
        0 <= line_start(s, p) <= p,
        line_start(s, p) > 0 ==> s[line_start(s, p) - 1] == '\n',
        forall|i: int| line_start(s, p) <= i < p ==> s[i] != '\n',
    decreases p,
{
    if p > 0 && s[p - 1] != '\n' {
        lemma_line_start_facts(s, p - 1);
    }
}

proof fn lemma_line_end_facts(s: Seq<char>, p: int)
    requires
        0 <= p <= s.len(),
    ensures
        p <= line_end(s, p) <= s.len(),
        line_end(s, p) < s.len() ==> s[line_end(s, p)] == '\n',
        forall|i: int| p <= i < line_end(s, p) ==> s[i] != '\n',
    decreases s.len() - p,
{
    if p < s.len() && s[p] != '\n' {
        lemma_line_end_facts(s, p + 1);
    }
}

/// In ASCII text a byte offset is a character position: the line of offset
/// `k` is one more than the newlines before it, its column is one more than
/// the characters between it and the newline before it, and the line text
/// runs from just after that newline to the next one, holding no newline.
pub proof fn lemma_ascii_location(s: Seq<char>, offset: int)
    requires
        forall|i: int| 0 <= i < s.len() ==> (#[trigger] s[i] as u32) < 0x80,
        0 <= offset <= s.len(),
    ensures
        ({
            let (line, column, text) = location(s, offset);
            &&& line == newlines(s.take(offset)) + 1
            &&& 1 <= column <= offset + 1
            &&& forall|i: int| offset - column < i < offset ==> s[i] != '\n'
            &&& (column <= offset ==> s[offset - column] == '\n')
            &&& forall|i: int| 0 <= i < text.len() ==> text[i] != '\n'
            &&& text == s.subrange(offset - column + 1, offset - column + 1 + text.len())
            &&& (offset - column + 1 + text.len() < s.len() ==> s[offset - column + 1 + text.len()] == '\n')
        }),
{
    lemma_ascii_chars_within(s, offset);
    lemma_line_start_facts(s, offset);
    lemma_line_end_facts(s, offset);
    let start = line_start(s, offset);
    let end = line_end(s, offset);
    let text = s.subrange(start, end);
    assert forall|i: int| 0 <= i < text.len() implies text[i] != '\n' by {
        assert(text[i] == s[start + i]);
        if start + i < offset {
        } else {
        }
    }
}

fn position_of(s: &Vec<char>, offset: usize) -> (p: usize)
    ensures
        p == chars_within(s@, offset as int),
        p <= s@.len(),
{
    let mut p: usize = 0;
    let mut left: usize = offset;
    proof {
        assert(s@.skip(0) =~= s@);
    }
    while p < s.len()
        invariant
            p <= s.len(),
            left <= offset,
            chars_within(s@, offset as int) == p + chars_within(s@.skip(p as int), left as int),
        decreases s.len() - p,
    {
        let w = width_of(s[p]);
        assert(s@.skip(p as int)[0] == s@[p as int]);
        if left < w {
            return p;
        }
        assert(s@.skip(p as int).skip(1) =~= s@.skip(p as int + 1));
        left = left - w;
        p = p + 1;
    }
    p
}

fn count_newlines(s: &Vec<char>, p: usize) -> (n: usize)
    requires
        p <= s@.len(),
    ensures
        n == newlines(s@.take(p as int)),
        n <= p,
{
    let mut n: usize = 0;
    let mut i: usize = 0;
    while i < p
        invariant
            i <= p,
            p <= s@.len(),
            n == newlines(s@.take(i as int)),
            n <= i,
        decreases p - i,
    {
        assert(s@.take(i as int + 1).drop_last() =~= s@.take(i as int));
        if s[i] == '\n' {
            n = n + 1;
        }
        i = i + 1;
    }
    n
}

fn start_of_line(s: &Vec<char>, p: usize) -> (start: usize)
    requires
        p <= s@.len(),
    ensures
        start == line_start(s@, p as int),
        start <= p,
{
    let mut q: usize = p;
    while q > 0
        invariant
            q <= p,
            p <= s@.len(),
            line_start(s@, p as int) == line_start(s@, q as int),
        decreases q,
    {
        if s[q - 1] == '\n' {
            return q;
        }
        q = q - 1;
    }
    0
}

fn end_of_line(s: &Vec<char>, p: usize) -> (end: usize)
    requires
        p <= s@.len(),
    ensures
        end == line_end(s@, p as int),
        p <= end <= s@.len(),
{
    let mut q: usize = p;
    while q < s.len()
        invariant
            p <= q <= s@.len(),
            line_end(s@, p as int) == line_end(s@, q as int),
        decreases s.len() - q,
    {
        if s[q] == '\n' {
            return q;
        }
        q = q + 1;
    }
    q
}

/// The line, column and line text of byte `offset` of the text `source`.
pub fn source_location(source: &Vec<char>, offset: usize) -> (r: (usize, usize, Vec<char>))
    requires
        source@.len() < usize::MAX,
    ensures
        (r.0 as int, r.1 as int, r.2@) == location(source@, offset as int),
{
    let p = position_of(source, offset);
    let start = start_of_line(source, p);
    let end = end_of_line(source, p);
    let line = count_newlines(source, p) + 1;
    (line, p - start + 1, slice_chars(source, start, end))
}

/// The lines of `s` as `str::lines` gives them: cut at each newline, with a
/// carriage return before the newline removed and no empty line after a final
/// newline.
pub open spec fn lines(s: Seq<char>) -> Seq<Seq<char>>
    decreases s.len(),
{
    if s.len() == 0 {
        Seq::empty()
    } else {
        let end = line_end(s, 0);
        if end >= s.len() {
            seq![s]
        } else {
            proof {
                lemma_line_end_bounds(s, 0);
            }
            let line = s.take(end);
            let stripped = if line.len() > 0 && line.last() == '\r' {
                line.drop_last()
            } else {
                line
            };
            seq![stripped] + lines(s.skip(end + 1))
        }
    }
}

/// Whether `needle` occurs in `hay` at position `i`.
pub open spec fn occurs_at(hay: Seq<char>, needle: Seq<char>, i: int) -> bool {
    0 <= i && i + needle.len() <= hay.len() && hay.subrange(i, i + needle.len()) == needle
}

/// Whether `needle` occurs in `hay`.
pub open spec fn contains_text(hay: Seq<char>, needle: Seq<char>) -> bool {
    exists|i: int| occurs_at(hay, needle, i)
}

fn occurs_from(hay: &Vec<char>, needle: &Vec<char>) -> (found: bool)
    ensures
        found == contains_text(hay@, needle@),
{
    if needle.len() > hay.len() {
        assert forall|i: int| !occurs_at(hay@, needle@, i) by {}
        return false;
    }
    let last = hay.len() - needle.len();
    let mut i: usize = 0;
    loop
        invariant
            last == hay@.len() - needle@.len(),
            needle@.len() <= hay@.len(),
            i <= last,
            forall|j: int| 0 <= j < i ==> !occurs_at(hay@, needle@, j),
        ensures
            forall|j: int| 0 <= j <= last ==> !occurs_at(hay@, needle@, j),
        decreases last - i,
    {
        let mut k: usize = 0;
        let mut same = true;
        while k < needle.len()
            invariant
                k <= needle@.len(),
                i <= last,
                last == hay@.len() - needle@.len(),
                needle@.len() <= hay@.len(),
                same == (forall|m: int| 0 <= m < k ==> hay@[i + m] == needle@[m]),
            decreases needle.len() - k,
        {
            assert(i + k < hay.len());
            if hay[i + k] != needle[k] {
                same = false;
            }
            k = k + 1;
        }
        if same {
            assert(hay@.subrange(i as int, i + needle@.len()) =~= needle@);
            assert(occurs_at(hay@, needle@, i as int));
            return true;
        }
        assert(!occurs_at(hay@, needle@, i as int)) by {
            if occurs_at(hay@, needle@, i as int) {
                let m = choose|m: int| 0 <= m < needle@.len() && hay@[i + m] != needle@[m];
                assert(hay@.subrange(i as int, i + needle@.len())[m] == hay@[i + m]);
            }
        }
        if i == last {
            break;
        }
        i = i + 1;
    }
    assert forall|j: int| !occurs_at(hay@, needle@, j) by {
        if 0 <= j && j + needle@.len() <= hay@.len() {
            assert(j <= last);
        }
    }
    false
}

/// Whether `needle` occurs in `hay`.
pub fn contains_chars(hay: &Vec<char>, needle: &Vec<char>) -> (found: bool)
    ensures
        found == contains_text(hay@, needle@),
{
    occurs_from(hay, needle)
}

/// The text between the first two backticks of `s`, if it has two.
pub open spec fn first_quoted(s: Seq<char>) -> Option<Seq<char>> {
    let open = line_end_of(s, 0, '`');
    if open >= s.len() {
        None
    } else {
        let close = line_end_of(s, open + 1, '`');
        if close >= s.len() {
            None
        } else {
            Some(s.subrange(open + 1, close))
        }
    }
}

/// The position of the first `c` of `s` at or after `p` (the length of `s`
/// when there is none).
pub open spec fn line_end_of(s: Seq<char>, p: int, c: char) -> int
    decreases s.len() - p,
{
    if p >= s.len() {
        s.len() as int
    } else if s[p] == c {
        p
    } else {
        line_end_of(s, p + 1, c)
    }
}

fn find_char(s: &Vec<char>, p: usize, c: char) -> (q: usize)
    requires
        p <= s@.len(),
    ensures
        q == line_end_of(s@, p as int, c),
        p <= q <= s@.len(),
{
    let mut q: usize = p;
    while q < s.len()
        invariant
            p <= q <= s@.len(),
            line_end_of(s@, p as int, c) == line_end_of(s@, q as int, c),
        decreases s.len() - q,
    {
        if s[q] == c {
            return q;
        }
        q = q + 1;
    }
    q
}

fn quoted_part(s: &Vec<char>) -> (r: Option<Vec<char>>)
    ensures
        match first_quoted(s@) {
            Some(q) => r matches Some(v) && v@ == q,
            None => r is None,
        },
{
    let open = find_char(s, 0, '`');
    if open >= s.len() {
        return None;
    }
    let close = find_char(s, open + 1, '`');
    if close >= s.len() {
        return None;
    }
    Some(slice_chars(s, open + 1, close))
}

/// The option names an error message may mention without quoting, in the
/// order they are looked for.
pub open spec fn hint_keywords() -> Seq<Seq<char>> {
    seq![
        "spawn-at-startup"@,
        "background-color"@,
        "window-border-width"@,
        "window-border-color"@,
        "focus-indicator-color"@,
        "focus-indicator-width"@,
        "focus-indicator-height"@,
        "corner-radius"@,
        "gaps"@,
        "opacity-toggle"@,
        "opacity"@,
        "speed"@,
        "floating"@,
        "blur"@,
        "blur-passes"@,
        "blur-offset"@,
        "shadow-radius"@,
        "shadow-offset"@,
        "shadow-color"@,
        "cursor-wake"@,
        "cursor-wake-threshold"@,
        "cursor-wake-strength"@,
        "cursor-wake-width"@,
        "cursor-wake-duration"@,
        "window-transition"@,
        "window-transition-duration"@,
        "camera-pan"@,
        "camera-zoom"@,
        "move-window"@,
        "resize-window"@,
        "reset-window"@,
        "center-window"@,
        "toggle-floating"@,
        "place-next"@,
        "close-window"@,
    ]
}

fn keyword_list() -> (list: Vec<Vec<char>>)
    ensures
        list@.map_values(|k: Vec<char>| k@) == hint_keywords(),
{
    let mut list: Vec<Vec<char>> = Vec::new();
    list.push(crate::text::chars_of("spawn-at-startup"));
    list.push(crate::text::chars_of("background-color"));
    list.push(crate::text::chars_of("window-border-width"));
    list.push(crate::text::chars_of("window-border-color"));
    list.push(crate::text::chars_of("focus-indicator-color"));
    list.push(crate::text::chars_of("focus-indicator-width"));
    list.push(crate::text::chars_of("focus-indicator-height"));
    list.push(crate::text::chars_of("corner-radius"));
    list.push(crate::text::chars_of("gaps"));
    list.push(crate::text::chars_of("opacity-toggle"));
    list.push(crate::text::chars_of("opacity"));
    list.push(crate::text::chars_of("speed"));
    list.push(crate::text::chars_of("floating"));
    list.push(crate::text::chars_of("blur"));
    list.push(crate::text::chars_of("blur-passes"));
    list.push(crate::text::chars_of("blur-offset"));
    list.push(crate::text::chars_of("shadow-radius"));
    list.push(crate::text::chars_of("shadow-offset"));
    list.push(crate::text::chars_of("shadow-color"));
    list.push(crate::text::chars_of("cursor-wake"));
    list.push(crate::text::chars_of("cursor-wake-threshold"));
    list.push(crate::text::chars_of("cursor-wake-strength"));
    list.push(crate::text::chars_of("cursor-wake-width"));
    list.push(crate::text::chars_of("cursor-wake-duration"));
    list.push(crate::text::chars_of("window-transition"));
    list.push(crate::text::chars_of("window-transition-duration"));
    list.push(crate::text::chars_of("camera-pan"));
    list.push(crate::text::chars_of("camera-zoom"));
    list.push(crate::text::chars_of("move-window"));
    list.push(crate::text::chars_of("resize-window"));
    list.push(crate::text::chars_of("reset-window"));
    list.push(crate::text::chars_of("center-window"));
    list.push(crate::text::chars_of("toggle-floating"));
    list.push(crate::text::chars_of("place-next"));
    list.push(crate::text::chars_of("close-window"));
    assert(list@.map_values(|k: Vec<char>| k@) =~= hint_keywords());
    list
}

/// The first of `keywords` from position `i` on that occurs in `error`.
pub open spec fn first_keyword(keywords: Seq<Seq<char>>, error: Seq<char>, i: int) -> Option<Seq<char>>
    decreases keywords.len() - i,
{
    if i < 0 || i >= keywords.len() {
        None
    } else if contains_text(error, keywords[i]) {
        Some(keywords[i])
    } else {
        first_keyword(keywords, error, i + 1)
    }
}

/// The name an error message refers to: its first backtick-quoted text, or
/// else the first option name it mentions.
pub open spec fn hint_keyword(error: Seq<char>) -> Option<Seq<char>> {
    match first_quoted(error) {
        Some(q) => Some(q),
        None => first_keyword(hint_keywords(), error, 0),
    }
}

/// The first of `ls` from position `i` on that contains `keyword`, with its
/// number counted from 1.
pub open spec fn first_line_with(ls: Seq<Seq<char>>, keyword: Seq<char>, i: int) -> Option<(int, Seq<char>)>
    decreases ls.len() - i,
{
    if i < 0 || i >= ls.len() {
        None
    } else if contains_text(ls[i], keyword) {
        Some((i + 1, ls[i]))
    } else {
        first_line_with(ls, keyword, i + 1)
    }
}

/// The line of `source` an error message most likely refers to: the first
/// line containing the name the message refers to.
pub open spec fn line_hint(source: Seq<char>, error: Seq<char>) -> Option<(int, Seq<char>)> {
    match hint_keyword(error) {
        None => None,
        Some(k) => first_line_with(lines(source), k, 0),
    }
}

fn keyword_of(error: &Vec<char>) -> (r: Option<Vec<char>>)
    ensures
        match hint_keyword(error@) {
            Some(k) => r matches Some(v) && v@ == k,
            None => r is None,
        },
{
    match quoted_part(error) {
        Some(q) => return Some(q),
        None => {},
    }
    let list = keyword_list();
    let ghost ks = hint_keywords();
    let mut i: usize = 0;
    assert(ks.len() == list@.len());
    while i < list.len()
        invariant
            i <= list@.len(),
            ks == hint_keywords(),
            ks.len() == list@.len(),
            list@.map_values(|k: Vec<char>| k@) == ks,
            first_keyword(ks, error@, 0) == first_keyword(ks, error@, i as int),
            first_quoted(error@) is None,
        decreases list.len() - i,
    {
        assert(ks[i as int] == list@[i as int]@);
        if contains_chars(error, &list[i]) {
            let found = slice_chars(&list[i], 0, list[i].len());
            assert(found@ =~= list@[i as int]@);
            return Some(found);
        }
        i = i + 1;
    }
    None
}

proof fn lemma_lines_split(s: Seq<char>, end: int)
    requires
        s.len() > 0,
        end == line_end(s, 0),
        end < s.len(),
    ensures
        lines(s) == seq![
            if s.take(end).len() > 0 && s.take(end).last() == '\r' {
                s.take(end).drop_last()
            } else {
                s.take(end)
            },
        ] + lines(s.skip(end + 1)),
{
}

proof fn lemma_line_end_shift(s: Seq<char>, base: int, p: int)
    requires
        0 <= base <= p <= s.len(),
    ensures
        line_end(s.skip(base), p - base) == line_end(s, p) - base,
    decreases s.len() - p,
{
    if p < s.len() {
        assert(s.skip(base)[p - base] == s[p]);
        if s[p] != '\n' {
            lemma_line_end_shift(s, base, p + 1);
        }
    }
}

/// The line of `source` that an error message most likely refers to, with
/// its number counted from 1.
pub fn error_line_hint(source: &Vec<char>, error: &Vec<char>) -> (r: Option<(usize, Vec<char>)>)
    ensures
        match line_hint(source@, error@) {
            Some((n, line)) => r matches Some(h) && h.0 as int == n && h.1@ == line,
            None => r is None,
        },
{
    let keyword = match keyword_of(error) {
        Some(k) => k,
        None => return None,
    };
    let ghost all = lines(source@);
    let mut start: usize = 0;
    let mut number: usize = 0;
    assert(source@.skip(0) =~= source@);
    assert(all.skip(0) =~= all);
    while start < source.len()
        invariant
            start <= source@.len(),
            all == lines(source@),
            number <= all.len(),
            number <= start,
            all.skip(number as int) == lines(source@.skip(start as int)),
            first_line_with(all, keyword@, 0) == first_line_with(all, keyword@, number as int),
            hint_keyword(error@) == Some(keyword@),
        decreases source.len() - start,
    {
        let ghost rest = source@.skip(start as int);
        let end = end_of_line(source, start);
        proof {
            lemma_line_end_shift(source@, start as int, start as int);
            assert(line_end(rest, 0) == end - start);
        }
        let mut line = slice_chars(source, start, end);
        let ends_line = end < source.len();
        if ends_line && line.len() > 0 && line[line.len() - 1] == '\r' {
            line.pop();
        }
        let ghost tail = lines(rest);
        proof {
            if end - start < rest.len() {
                assert(rest.take(end - start) =~= source@.subrange(start as int, end as int));
                lemma_lines_split(rest, end - start);
                assert(rest.skip(end - start + 1) =~= source@.skip(end + 1));
            } else {
                assert(rest =~= source@.subrange(start as int, end as int));
            }
            assert(tail.len() >= 1);
            assert(tail[0] == line@);
            assert(all.skip(number as int)[0] == all[number as int]);
        }
        if contains_chars(&line, &keyword) {
            assert(first_line_with(all, keyword@, number as int) == Some((number + 1, line@)));
            assert(hint_keyword(error@) == Some(keyword@));
            assert(line_hint(source@, error@) == Some((number + 1, line@)));
            return Some((number + 1, line));
        }
        if !ends_line {
            proof {
                assert(tail.len() == 1);
                assert(first_line_with(all, keyword@, number as int + 1) is None);
            }
            return None;
        }
        proof {
            assert(all.skip(number as int + 1) =~= tail.skip(1));
            assert(tail.skip(1) =~= lines(source@.skip(end + 1)));
        }
        number = number + 1;
        start = end + 1;
    }
    proof {
        assert(source@.skip(start as int) =~= Seq::<char>::empty());
    }
    None
}

} // verus!
