//! Text as sequences of characters: lines, words, trimming and decimal numbers.
//!
//! Executable functions work on `Vec<char>`; `chars_of` and `string_of` convert
//! from and to Rust strings.
use vstd::prelude::*;

verus! {

/// `String::push` appends the given character to the end of the string.
pub assume_specification[ String::push ](s: &mut String, c: char)
    ensures
        final(s)@ == old(s)@.push(c),
;

/// The Unicode `White_Space` property.
pub open spec fn white(c: char) -> bool {
    ||| '\u{9}' <= c <= '\u{d}'
    ||| c == ' '
    ||| c == '\u{85}'
    ||| c == '\u{a0}'
    ||| c == '\u{1680}'
    ||| '\u{2000}' <= c <= '\u{200a}'
    ||| c == '\u{2028}'
    ||| c == '\u{2029}'
    ||| c == '\u{202f}'
    ||| c == '\u{205f}'
    ||| c == '\u{3000}'
}

/// Whether `c` has the Unicode `White_Space` property.
pub fn is_white(c: char) -> (r: bool)
    ensures
        r == white(c),
{
    ('\u{9}' <= c && c <= '\u{d}') || c == ' ' || c == '\u{85}' || c == '\u{a0}' || c == '\u{1680}'
        || ('\u{2000}' <= c && c <= '\u{200a}') || c == '\u{2028}' || c == '\u{2029}'
        || c == '\u{202f}' || c == '\u{205f}' || c == '\u{3000}'
}

/// The characters of a string.
pub fn chars_of(s: &str) -> (r: Vec<char>)
    ensures
        r@ == s@,
{
    let mut out: Vec<char> = Vec::new();
    for c in it: s.chars()
        invariant
            out@ == it.seq().take(it.index()),
            it.seq() == s@,
    {
        proof {
            assert(it.seq().take(it.index()).push(c) =~= it.seq().take(it.index() + 1));
        }
        out.push(c);
    }
    proof {
        assert(s@.take(s@.len() as int) =~= s@);
    }
    out
}

/// The string of the given characters.
pub fn string_of(chars: &Vec<char>) -> (r: String)
    ensures
        r@ == chars@,
{
    let mut out = String::new();
    let mut i: usize = 0;
    while i < chars.len()
        invariant
            i <= chars@.len(),
            out@ == chars@.take(i as int),
        decreases chars@.len() - i,
    {
        out.push(chars[i]);
        proof {
            assert(chars@.take(i as int).push(chars@[i as int]) =~= chars@.take(i + 1));
        }
        i += 1;
    }
    proof {
        assert(chars@.take(i as int) =~= chars@);
    }
    out
}

/// `s` without its leading white space.
pub open spec fn trimmed_start(s: Seq<char>) -> Seq<char>
    decreases s.len(),
{
    if s.len() > 0 && white(s.first()) {
        trimmed_start(s.skip(1))
    } else {
        s
    }
}

/// `s` without its trailing white space.
pub open spec fn trimmed_end(s: Seq<char>) -> Seq<char>
    decreases s.len(),
{
    if s.len() > 0 && white(s.last()) {
        trimmed_end(s.drop_last())
    } else {
        s
    }
}

/// `s` without leading and trailing white space.
pub open spec fn trimmed(s: Seq<char>) -> Seq<char> {
    trimmed_end(trimmed_start(s))
}

/// The part `chars[from..to]`.
pub fn part(chars: &Vec<char>, from: usize, to: usize) -> (r: Vec<char>)
    requires
        from <= to <= chars@.len(),
    ensures
        r@ == chars@.subrange(from as int, to as int),
{
    let mut out: Vec<char> = Vec::new();
    let mut i: usize = from;
    while i < to
        invariant
            from <= i <= to <= chars@.len(),
            out@ == chars@.subrange(from as int, i as int),
        decreases to - i,
    {
        out.push(chars[i]);
        proof {
            assert(chars@.subrange(from as int, i as int).push(chars@[i as int])
                =~= chars@.subrange(from as int, i + 1));
        }
        i += 1;
    }
    out
}

/// The text without leading and trailing white space.
pub fn trim(chars: &Vec<char>) -> (r: Vec<char>)
    ensures
        r@ == trimmed(chars@),
{
    let mut from: usize = 0;
    proof {
        assert(chars@.skip(0) =~= chars@);
    }
    while from < chars.len() && is_white(chars[from])
        invariant
            from <= chars@.len(),
            trimmed_start(chars@.skip(from as int)) == trimmed_start(chars@),
        decreases chars@.len() - from,
    {
        proof {
            assert(chars@.skip(from as int).skip(1) =~= chars@.skip(from + 1));
        }
        from += 1;
    }
    let mut to: usize = chars.len();
    let ghost lead = chars@.skip(from as int);
    proof {
        assert(chars@.subrange(from as int, to as int) =~= lead);
    }
    while to > from && is_white(chars[to - 1])
        invariant
            from <= to <= chars@.len(),
            trimmed_end(chars@.subrange(from as int, to as int)) == trimmed_end(lead),
        decreases to,
    {
        proof {
            let s = chars@.subrange(from as int, to as int);
            assert(s.drop_last() =~= chars@.subrange(from as int, to - 1));
            assert(s.last() == chars@[to - 1]);
        }
        to -= 1;
    }
    part(chars, from, to)
}

/// The position of the first `c` in `s`, or its length.
pub open spec fn first_at(s: Seq<char>, c: char) -> int
    decreases s.len(),
{
    if s.len() == 0 || s[0] == c {
        0
    } else {
        1 + first_at(s.skip(1), c)
    }
}

/// The first position holds `c`, if any does.
proof fn first_at_bounds(s: Seq<char>, c: char)
    ensures
        0 <= first_at(s, c) <= s.len(),
        first_at(s, c) < s.len() ==> s[first_at(s, c)] == c,
        forall|i: int| 0 <= i < first_at(s, c) ==> s[i] != c,
    decreases s.len(),
{
    if s.len() > 0 && s[0] != c {
        first_at_bounds(s.skip(1), c);
        assert forall|i: int| 0 <= i < first_at(s, c) implies s[i] != c by {
            if i > 0 {
                assert(s.skip(1)[i - 1] == s[i]);
            }
        }
    }
}

/// `s` without one trailing carriage return.
pub open spec fn without_return(s: Seq<char>) -> Seq<char> {
    if s.len() > 0 && s.last() == '\r' {
        s.drop_last()
    } else {
        s
    }
}

/// A position with no `c` before it, and `c` or the end at it, is the first one.
proof fn first_at_is(s: Seq<char>, c: char, n: int)
    requires
        0 <= n <= s.len(),
        n < s.len() ==> s[n] == c,
        forall|i: int| 0 <= i < n ==> s[i] != c,
    ensures
        first_at(s, c) == n,
{
    first_at_bounds(s, c);
}

/// The lines of `s`: each ends at a line feed, which a carriage return may precede,
/// or at the end of the text. Line endings are not part of the lines, and nothing
/// follows a line ending that ends the text.
pub open spec fn lines(s: Seq<char>) -> Seq<Seq<char>>
    decreases s.len(),
    when s.len() >= 0
    via lines_decreases
{
    if s.len() == 0 {
        Seq::empty()
    } else if first_at(s, '\n') < s.len() {
        seq![without_return(s.take(first_at(s, '\n')))] + lines(s.skip(first_at(s, '\n') + 1))
    } else {
        seq![s]
    }
}

#[via_fn]
proof fn lines_decreases(s: Seq<char>) {
    first_at_bounds(s, '\n');
}

/// What the texts in `v` hold.
pub open spec fn views(v: Seq<Vec<char>>) -> Seq<Seq<char>> {
    v.map_values(|t: Vec<char>| t@)
}

/// The lines of a text.
pub fn split_lines(chars: &Vec<char>) -> (r: Vec<Vec<char>>)
    ensures
        views(r@) == lines(chars@),
{
    let mut out: Vec<Vec<char>> = Vec::new();
    let mut from: usize = 0;
    let mut i: usize = 0;
    proof {
        assert(chars@.skip(0) =~= chars@);
        assert(views(out@) + lines(chars@) =~= lines(chars@));
    }
    while i < chars.len()
        invariant
            from <= i <= chars@.len(),
            forall|k: int| from <= k < i ==> chars@[k] != '\n',
            views(out@) + lines(chars@.skip(from as int)) == lines(chars@),
        decreases chars@.len() - i,
    {
        if chars[i] == '\n' {
            let end: usize = if i > from && chars[i - 1] == '\r' { i - 1 } else { i };
            let line = part(chars, from, end);
            let ghost rest = chars@.skip(from as int);
            let ghost before = out@;
            proof {
                first_at_is(rest, '\n', i - from);
                assert(line@ =~= without_return(rest.take(i - from)));
                assert(rest.skip(i - from + 1) =~= chars@.skip(i + 1));
            }
            out.push(line);
            proof {
                assert(views(out@) =~= views(before).push(line@));
                assert(views(before).push(line@) + lines(chars@.skip(i + 1)) =~= views(before) + (
                seq![line@] + lines(chars@.skip(i + 1))));
            }
            from = i + 1;
        }
        i += 1;
    }
    proof {
        assert(chars@.skip(from as int).len() == chars@.len() - from);
    }
    if from < chars.len() {
        let line = part(chars, from, chars.len());
        let ghost rest = chars@.skip(from as int);
        let ghost before = out@;
        proof {
            first_at_is(rest, '\n', rest.len() as int);
            assert(line@ =~= rest);
        }
        out.push(line);
        proof {
            assert(views(out@) =~= views(before) + seq![rest]);
        }
    } else {
        proof {
            assert(views(out@) + Seq::<Seq<char>>::empty() =~= views(out@));
        }
    }
    out
}

/// The position of the first white space in `s`, or its length.
pub open spec fn first_white(s: Seq<char>) -> int
    decreases s.len(),
{
    if s.len() == 0 || white(s[0]) {
        0
    } else {
        1 + first_white(s.skip(1))
    }
}

/// The first position is white space, if there is any.
proof fn first_white_bounds(s: Seq<char>)
    ensures
        0 <= first_white(s) <= s.len(),
        first_white(s) < s.len() ==> white(s[first_white(s)]),
        forall|i: int| 0 <= i < first_white(s) ==> !white(s[i]),
    decreases s.len(),
{
    if s.len() > 0 && !white(s[0]) {
        first_white_bounds(s.skip(1));
        assert forall|i: int| 0 <= i < first_white(s) implies !white(s[i]) by {
            if i > 0 {
                assert(s.skip(1)[i - 1] == s[i]);
            }
        }
    }
}

/// Trimming does not lengthen a text, and leaves something solid at its front.
proof fn trimmed_start_bounds(s: Seq<char>)
    ensures
        trimmed_start(s).len() <= s.len(),
        trimmed_start(s).len() > 0 ==> !white(trimmed_start(s)[0]),
    decreases s.len(),
{
    if s.len() > 0 && white(s.first()) {
        trimmed_start_bounds(s.skip(1));
    }
}

/// The words of `s`: its longest parts without white space, in order.
pub open spec fn words(s: Seq<char>) -> Seq<Seq<char>>
    decreases s.len(),
    when s.len() >= 0
    via words_decreases
{
    let t = trimmed_start(s);
    if t.len() == 0 {
        Seq::empty()
    } else {
        seq![t.take(first_white(t))] + words(t.skip(first_white(t)))
    }
}

#[via_fn]
proof fn words_decreases(s: Seq<char>) {
    trimmed_start_bounds(s);
    first_white_bounds(trimmed_start(s));
}

/// Leading white space does not change the words.
proof fn words_after_white(s: Seq<char>)
    requires
        s.len() > 0,
        white(s[0]),
    ensures
        words(s) == words(s.skip(1)),
{
    assert(trimmed_start(s) == trimmed_start(s.skip(1)));
}

/// The words of a text.
pub fn split_words(chars: &Vec<char>) -> (r: Vec<Vec<char>>)
    ensures
        views(r@) == words(chars@),
{
    let mut out: Vec<Vec<char>> = Vec::new();
    let mut i: usize = 0;
    proof {
        assert(chars@.skip(0) =~= chars@);
        assert(views(out@) + words(chars@) =~= words(chars@));
    }
    while i < chars.len()
        invariant
            i <= chars@.len(),
            views(out@) + words(chars@.skip(i as int)) == words(chars@),
        decreases chars@.len() - i,
    {
        let ghost rest = chars@.skip(i as int);
        if is_white(chars[i]) {
            proof {
                words_after_white(rest);
                assert(rest.skip(1) =~= chars@.skip(i + 1));
            }
            i += 1;
        } else {
            let from: usize = i;
            while i < chars.len() && !is_white(chars[i])
                invariant
                    from <= i <= chars@.len(),
                    forall|k: int| from <= k < i ==> !white(chars@[k]),
                decreases chars@.len() - i,
            {
                i += 1;
            }
            let word = part(chars, from, i);
            let ghost before = out@;
            proof {
                first_white_bounds(rest);
                let n = first_white(rest);
                assert(n == i - from) by {
                    if n < i - from {
                        assert(rest[n] == chars@[from + n]);
                    }
                    if i - from < n {
                        assert(rest[i - from] == chars@[i as int]);
                    }
                }
                assert(trimmed_start(rest) == rest);
                assert(word@ =~= rest.take(n));
                assert(rest.skip(n) =~= chars@.skip(i as int));
            }
            out.push(word);
            proof {
                assert(views(out@) =~= views(before).push(word@));
                assert(views(before).push(word@) + words(chars@.skip(i as int)) =~= views(before)
                    + (seq![word@] + words(chars@.skip(i as int))));
            }
        }
    }
    proof {
        assert(chars@.skip(i as int).len() == 0);
        assert(views(out@) + Seq::<Seq<char>>::empty() =~= views(out@));
    }
    out
}

/// Whether `chars` starts with `prefix`.
pub fn starts_with(chars: &Vec<char>, prefix: &str) -> (r: bool)
    ensures
        r == prefix@.is_prefix_of(chars@),
{
    let p = chars_of(prefix);
    starts_at(chars, 0, &p)
}

/// Whether `p` stands in `chars` at position `at`.
fn starts_at(chars: &Vec<char>, at: usize, p: &Vec<char>) -> (r: bool)
    requires
        at <= chars@.len(),
    ensures
        r == p@.is_prefix_of(chars@.skip(at as int)),
{
    let ghost rest = chars@.skip(at as int);
    if chars.len() - at < p.len() {
        return false;
    }
    let mut i: usize = 0;
    while i < p.len()
        invariant
            i <= p@.len(),
            at + p@.len() <= chars@.len(),
            chars@.len() <= usize::MAX,
            rest == chars@.skip(at as int),
            forall|k: int| 0 <= k < i ==> p@[k] == rest[k],
        decreases p@.len() - i,
    {
        if chars[at + i] != p[i] {
            proof {
                assert(rest[i as int] != p@[i as int]);
                assert(rest.subrange(0, p@.len() as int)[i as int] == rest[i as int]);
            }
            return false;
        }
        i += 1;
    }
    proof {
        assert(p@ =~= rest.subrange(0, p@.len() as int));
    }
    true
}

/// Whether `chars` ends with `suffix`.
pub fn ends_with(chars: &Vec<char>, suffix: &str) -> (r: bool)
    ensures
        r == suffix@.is_suffix_of(chars@),
{
    let p = chars_of(suffix);
    if chars.len() < p.len() {
        return false;
    }
    let at: usize = chars.len() - p.len();
    let r = starts_at(chars, at, &p);
    proof {
        let rest = chars@.skip(at as int);
        assert(rest.subrange(0, p@.len() as int) =~= chars@.subrange(at as int, chars@.len() as int));
    }
    r
}

/// What follows the first occurrence of `p` in `s`, if `p` occurs there.
pub open spec fn after_first(s: Seq<char>, p: Seq<char>) -> Option<Seq<char>>
    decreases s.len(),
{
    if p.is_prefix_of(s) {
        Some(s.skip(p.len() as int))
    } else if s.len() == 0 {
        None
    } else {
        after_first(s.skip(1), p)
    }
}

/// What follows the first occurrence of `needle` in `chars`, if it occurs there.
pub fn find_after(chars: &Vec<char>, needle: &str) -> (r: Option<Vec<char>>)
    ensures
        match r {
            Some(rest) => after_first(chars@, needle@) == Some(rest@),
            None => after_first(chars@, needle@) is None,
        },
{
    let p = chars_of(needle);
    let mut at: usize = 0;
    proof {
        assert(chars@.skip(0) =~= chars@);
    }
    loop
        invariant
            at <= chars@.len(),
            p@ == needle@,
            after_first(chars@.skip(at as int), p@) == after_first(chars@, p@),
        decreases chars@.len() - at,
    {
        let ghost rest = chars@.skip(at as int);
        if starts_at(chars, at, &p) {
            let len: usize = chars.len();
            let found = part(chars, at + p.len(), len);
            proof {
                assert(found@ =~= rest.skip(p@.len() as int));
            }
            return Some(found);
        }
        if at == chars.len() {
            return None;
        }
        proof {
            assert(rest.skip(1) =~= chars@.skip(at + 1));
        }
        at += 1;
    }
}

/// Whether two texts hold the same characters.
pub fn same_chars(a: &Vec<char>, b: &Vec<char>) -> (r: bool)
    ensures
        r == (a@ == b@),
{
    if a.len() != b.len() {
        return false;
    }
    let mut i: usize = 0;
    while i < a.len()
        invariant
            i <= a@.len(),
            a@.len() == b@.len(),
            forall|k: int| 0 <= k < i ==> a@[k] == b@[k],
        decreases a@.len() - i,
    {
        if a[i] != b[i] {
            return false;
        }
        i += 1;
    }
    proof {
        assert(a@ =~= b@);
    }
    true
}

/// Whether `chars` holds the characters of `s`.
pub fn is_text(chars: &Vec<char>, s: &str) -> (r: bool)
    ensures
        r == (chars@ == s@),
{
    let other = chars_of(s);
    same_chars(chars, &other)
}

/// Whether two strings hold the same characters.
pub fn same_text(a: &str, b: &str) -> (r: bool)
    ensures
        r == (a@ == b@),
{
    let left = chars_of(a);
    let right = chars_of(b);
    same_chars(&left, &right)
}

/// `s` without any leading `c`.
pub open spec fn without_leading(s: Seq<char>, c: char) -> Seq<char>
    decreases s.len(),
{
    if s.len() > 0 && s.first() == c {
        without_leading(s.skip(1), c)
    } else {
        s
    }
}

/// The text without any leading `c`.
pub fn strip_leading(chars: &Vec<char>, c: char) -> (r: Vec<char>)
    ensures
        r@ == without_leading(chars@, c),
{
    let mut from: usize = 0;
    proof {
        assert(chars@.skip(0) =~= chars@);
    }
    while from < chars.len() && chars[from] == c
        invariant
            from <= chars@.len(),
            without_leading(chars@.skip(from as int), c) == without_leading(chars@, c),
        decreases chars@.len() - from,
    {
        proof {
            assert(chars@.skip(from as int).skip(1) =~= chars@.skip(from + 1));
        }
        from += 1;
    }
    proof {
        assert(chars@.subrange(from as int, chars@.len() as int) =~= chars@.skip(from as int));
    }
    part(chars, from, chars.len())
}

/// `s` without any trailing `c`.
pub open spec fn without_trailing(s: Seq<char>, c: char) -> Seq<char>
    decreases s.len(),
{
    if s.len() > 0 && s.last() == c {
        without_trailing(s.drop_last(), c)
    } else {
        s
    }
}

/// The text without any trailing `c`.
pub fn strip_trailing(chars: &Vec<char>, c: char) -> (r: Vec<char>)
    ensures
        r@ == without_trailing(chars@, c),
{
    let mut to: usize = chars.len();
    proof {
        assert(chars@.take(to as int) =~= chars@);
    }
    while to > 0 && chars[to - 1] == c
        invariant
            to <= chars@.len(),
            without_trailing(chars@.take(to as int), c) == without_trailing(chars@, c),
        decreases to,
    {
        proof {
            assert(chars@.take(to as int).drop_last() =~= chars@.take(to - 1));
        }
        to -= 1;
    }
    proof {
        assert(chars@.subrange(0, to as int) =~= chars@.take(to as int));
    }
    part(chars, 0, to)
}

/// What the strings in `v` hold.
pub open spec fn texts(v: Seq<String>) -> Seq<Seq<char>> {
    v.map_values(|s: String| s@)
}

/// What the string slices in `v` hold.
pub open spec fn slices(v: Seq<&str>) -> Seq<Seq<char>> {
    v.map_values(|s: &str| s@)
}

/// The parts in order, with `sep` between each two.
pub open spec fn joined(parts: Seq<Seq<char>>, sep: Seq<char>) -> Seq<char>
    decreases parts.len(),
{
    if parts.len() == 0 {
        Seq::empty()
    } else if parts.len() == 1 {
        parts[0]
    } else {
        joined(parts.drop_last(), sep) + sep + parts.last()
    }
}

/// The strings in order, with `sep` between each two.
pub fn join(parts: &Vec<String>, sep: &str) -> (r: String)
    ensures
        r@ == joined(texts(parts@), sep@),
{
    if parts.len() == 0 {
        return String::new();
    }
    let ghost all = texts(parts@);
    let mut out = parts[0].clone();
    let mut i: usize = 1;
    proof {
        assert(all.take(1)[0] == parts@[0]@);
    }
    while i < parts.len()
        invariant
            1 <= i <= parts@.len(),
            all == texts(parts@),
            out@ == joined(all.take(i as int), sep@),
        decreases parts@.len() - i,
    {
        proof {
            assert(all.take(i + 1).drop_last() =~= all.take(i as int));
            assert(all.take(i + 1).last() == parts@[i as int]@);
        }
        out.append(sep);
        out.append(parts[i].as_str());
        i += 1;
    }
    proof {
        assert(all.take(i as int) =~= all);
    }
    out
}

/// Owned copies of string slices.
pub fn own(parts: &Vec<&str>) -> (r: Vec<String>)
    ensures
        texts(r@) == slices(parts@),
{
    let mut out: Vec<String> = Vec::new();
    let mut i: usize = 0;
    while i < parts.len()
        invariant
            i <= parts@.len(),
            texts(out@) == slices(parts@).take(i as int),
        decreases parts@.len() - i,
    {
        let ghost before = out@;
        out.push(parts[i].to_string());
        proof {
            assert(texts(out@) =~= texts(before).push(parts@[i as int]@));
            assert(slices(parts@).take(i + 1) =~= slices(parts@).take(i as int).push(
                parts@[i as int]@,
            ));
        }
        i += 1;
    }
    proof {
        assert(slices(parts@).take(i as int) =~= slices(parts@));
    }
    out
}

/// The string without leading and trailing white space.
pub fn trim_text(s: &str) -> (r: String)
    ensures
        r@ == trimmed(s@),
{
    let chars = chars_of(s);
    let t = trim(&chars);
    string_of(&t)
}

/// `name` inside the directory `dir`.
pub open spec fn path_in(dir: Seq<char>, name: Seq<char>) -> Seq<char> {
    if dir.len() > 0 && dir.last() != '/' {
        dir + "/"@ + name
    } else {
        dir + name
    }
}

/// The path of `name`, which is relative, inside the directory `dir`.
pub fn join_path(dir: &str, name: &str) -> (r: String)
    ensures
        r@ == path_in(dir@, name@),
{
    let chars = chars_of(dir);
    let mut out = dir.to_string();
    if chars.len() > 0 && chars[chars.len() - 1] != '/' {
        out.append("/");
    }
    out.append(name);
    out
}

/// The parts of `s` between the occurrences of `c`: one more than there are occurrences.
pub open spec fn fields(s: Seq<char>, c: char) -> Seq<Seq<char>>
    decreases s.len(),
    when s.len() >= 0
    via fields_decreases
{
    if first_at(s, c) < s.len() {
        seq![s.take(first_at(s, c))] + fields(s.skip(first_at(s, c) + 1), c)
    } else {
        seq![s]
    }
}

#[via_fn]
proof fn fields_decreases(s: Seq<char>, c: char) {
    first_at_bounds(s, c);
}

/// The parts of a text between the occurrences of `c`.
pub fn split_fields(chars: &Vec<char>, c: char) -> (r: Vec<Vec<char>>)
    ensures
        views(r@) == fields(chars@, c),
{
    let mut out: Vec<Vec<char>> = Vec::new();
    let mut from: usize = 0;
    let mut i: usize = 0;
    proof {
        assert(chars@.skip(0) =~= chars@);
        assert(views(out@) + fields(chars@, c) =~= fields(chars@, c));
    }
    while i < chars.len()
        invariant
            from <= i <= chars@.len(),
            forall|k: int| from <= k < i ==> chars@[k] != c,
            views(out@) + fields(chars@.skip(from as int), c) == fields(chars@, c),
        decreases chars@.len() - i,
    {
        if chars[i] == c {
            let field = part(chars, from, i);
            let ghost rest = chars@.skip(from as int);
            let ghost before = out@;
            proof {
                first_at_is(rest, c, i - from);
                assert(field@ =~= rest.take(i - from));
                assert(rest.skip(i - from + 1) =~= chars@.skip(i + 1));
            }
            out.push(field);
            proof {
                assert(views(out@) =~= views(before).push(field@));
                assert(views(before).push(field@) + fields(chars@.skip(i + 1), c) =~= views(before)
                    + (seq![field@] + fields(chars@.skip(i + 1), c)));
            }
            from = i + 1;
        }
        i += 1;
    }
    let field = part(chars, from, chars.len());
    let ghost rest = chars@.skip(from as int);
    let ghost before = out@;
    proof {
        first_at_is(rest, c, rest.len() as int);
        assert(field@ =~= rest);
    }
    out.push(field);
    proof {
        assert(views(out@) =~= views(before) + seq![rest]);
    }
    out
}

/// What an optional string holds.
pub open spec fn optional(s: Option<String>) -> Option<Seq<char>> {
    match s {
        Some(t) => Some(t@),
        None => None,
    }
}

/// A front without the first character of `p` does not hide `p`.
pub proof fn after_first_skips(front: Seq<char>, rest: Seq<char>, p: Seq<char>)
    requires
        p.len() > 0,
        !front.contains(p[0]),
    ensures
        after_first(front + rest, p) == after_first(rest, p),
    decreases front.len(),
{
    if front.len() == 0 {
        assert(front + rest =~= rest);
    } else {
        let s = front + rest;
        assert(front.contains(front[0]));
        assert(s[0] == front[0]);
        if p.is_prefix_of(s) {
            assert(p[0] == s.subrange(0, p.len() as int)[0]);
        }
        assert(s.skip(1) =~= front.skip(1) + rest);
        assert forall|c: char| front.skip(1).contains(c) implies front.contains(c) by {
            let i = choose|i: int| 0 <= i < front.skip(1).len() && front.skip(1)[i] == c;
            assert(front[i + 1] == c);
        }
        after_first_skips(front.skip(1), rest, p);
    }
}

/// A text without line feeds, ended by one, is one line.
pub proof fn one_line(s: Seq<char>)
    requires
        !s.contains('\n'),
        s.len() > 0,
        s.last() != '\r',
    ensures
        lines(s + "\n"@) == seq![s],
{
    reveal_strlit("\n");
    let t = s + "\n"@;
    assert forall|i: int| 0 <= i < s.len() implies t[i] != '\n' by {
        assert(s.contains(s[i]));
    }
    first_at_is(t, '\n', s.len() as int);
    assert(t.take(s.len() as int) =~= s);
    assert(t.skip(s.len() as int + 1) =~= Seq::empty());
    assert(lines(Seq::<char>::empty()) =~= Seq::empty());
    assert(lines(t) =~= seq![s]);
}

/// Whether no character of `s` is white space.
pub open spec fn solid(s: Seq<char>) -> bool {
    forall|i: int| 0 <= i < s.len() ==> !white(#[trigger] s[i])
}

/// Whether every character of `s` is white space.
pub open spec fn blank(s: Seq<char>) -> bool {
    forall|i: int| 0 <= i < s.len() ==> white(#[trigger] s[i])
}

/// Among the ASCII characters, white space is the space and what stands from the tabulator to
/// the carriage return.
pub proof fn ascii_white(c: char)
    requires
        (c as int) < 128,
    ensures
        white(c) <==> (c as int == 32 || 9 <= c as int <= 13),
        is_white.requires((c,)),
        forall|r: bool| call_ensures(is_white, (c,), r) ==> r == (c as int == 32 || 9 <= c as int
            <= 13),
{
}

/// White space in front does not outlive trimming.
proof fn trimmed_start_skips(lead: Seq<char>, s: Seq<char>)
    requires
        blank(lead),
    ensures
        trimmed_start(lead + s) == trimmed_start(s),
    decreases lead.len(),
{
    if lead.len() == 0 {
        assert(lead + s =~= s);
    } else {
        assert(white(lead[0]));
        assert((lead + s).first() == lead[0]);
        assert((lead + s).skip(1) =~= lead.skip(1) + s);
        assert forall|i: int| 0 <= i < lead.skip(1).len() implies white(
            #[trigger] lead.skip(1)[i],
        ) by {
            assert(white(lead[i + 1]));
        }
        trimmed_start_skips(lead.skip(1), s);
    }
}

/// White space at the end does not outlive trimming.
proof fn trimmed_end_skips(s: Seq<char>, tail: Seq<char>)
    requires
        blank(tail),
    ensures
        trimmed_end(s + tail) == trimmed_end(s),
    decreases tail.len(),
{
    if tail.len() == 0 {
        assert(s + tail =~= s);
    } else {
        assert(white(tail[tail.len() - 1]));
        assert((s + tail).last() == tail.last());
        assert((s + tail).drop_last() =~= s + tail.drop_last());
        assert forall|i: int| 0 <= i < tail.drop_last().len() implies white(
            #[trigger] tail.drop_last()[i],
        ) by {
            assert(white(tail[i]));
        }
        trimmed_end_skips(s, tail.drop_last());
    }
}

/// White space at both ends goes, and a text that begins and ends solid stays whole.
pub proof fn trimmed_takes_ends(lead: Seq<char>, s: Seq<char>, tail: Seq<char>)
    requires
        blank(lead),
        blank(tail),
        s.len() == 0 || (!white(s.first()) && !white(s.last())),
    ensures
        trimmed(lead + s + tail) == s,
        forall|text: &str, r: String|
            call_ensures(trim_text, (text,), r) && text@ == lead + s + tail ==> r@ == s,
{
    assert(lead + s + tail =~= lead + (s + tail));
    trimmed_start_skips(lead, s + tail);
    if s.len() == 0 {
        assert(s + tail =~= tail + Seq::<char>::empty());
        trimmed_start_skips(tail, Seq::empty());
        assert(trimmed_start(Seq::<char>::empty()) =~= Seq::empty());
    } else {
        assert((s + tail).first() == s.first());
        assert(trimmed_start(s + tail) == s + tail);
        trimmed_end_skips(s, tail);
    }
}

/// A text of white space has no words.
pub proof fn blank_has_no_words(s: Seq<char>)
    requires
        blank(s),
    ensures
        words(s) == Seq::<Seq<char>>::empty(),
{
    assert(s =~= s + Seq::<char>::empty());
    trimmed_start_skips(s, Seq::empty());
    assert(trimmed_start(Seq::<char>::empty()) =~= Seq::empty());
}

/// White space in front of a text does not change its words. A solid part that white space or
/// the end follows is the first word; what follows it holds the others.
pub proof fn first_word(lead: Seq<char>, word: Seq<char>, rest: Seq<char>)
    requires
        blank(lead),
        solid(word),
        word.len() > 0,
        rest.len() == 0 || white(rest[0]),
    ensures
        words(lead + word + rest) == seq![word] + words(rest),
{
    let s = lead + word + rest;
    let t = word + rest;
    assert(s =~= lead + t);
    trimmed_start_skips(lead, t);
    assert(!white(word[0]));
    assert(t.first() == word[0]);
    assert(trimmed_start(t) == t);
    first_white_bounds(t);
    let n = first_white(t);
    assert(n == word.len()) by {
        if n < word.len() {
            assert(t[n] == word[n]);
        }
        if n > word.len() {
            assert(t[word.len() as int] == rest[0]);
        }
    }
    assert(t.take(n) =~= word);
    assert(t.skip(n) =~= rest);
    assert(trimmed_start(s) == t);
    assert(words(s) == seq![t.take(n)] + words(t.skip(n)));
}

/// A part without line feeds that a line feed follows is the first line, without a carriage
/// return before the line feed; what follows holds the other lines.
pub proof fn first_line(line: Seq<char>, rest: Seq<char>)
    requires
        !line.contains('\n'),
    ensures
        line.len() == 0 || line.last() != '\r' ==> lines(line + seq!['\n'] + rest) == seq![line]
            + lines(rest),
        lines(line + seq!['\r', '\n'] + rest) == seq![line] + lines(rest),
{
    let s = line + seq!['\n'] + rest;
    let n = line.len() as int;
    assert forall|i: int| 0 <= i < n implies s[i] != '\n' by {
        assert(line.contains(line[i]));
    }
    assert(s[n] == '\n');
    first_at_is(s, '\n', n);
    assert(s.take(n) =~= line);
    assert(s.skip(n + 1) =~= rest);
    assert(lines(s) == seq![without_return(line)] + lines(rest));
    let t = line + seq!['\r', '\n'] + rest;
    assert forall|i: int| 0 <= i < n + 1 implies t[i] != '\n' by {
        if i < n {
            assert(line.contains(line[i]));
        }
    }
    assert(t[n + 1] == '\n');
    first_at_is(t, '\n', n + 1);
    assert(t.take(n + 1) =~= line.push('\r'));
    assert(t.skip(n + 2) =~= rest);
    assert(line.push('\r').drop_last() =~= line);
    assert(lines(t) == seq![line] + lines(rest));
}

/// A text without line feeds is one line, unless it is empty.
pub proof fn last_line(line: Seq<char>)
    requires
        !line.contains('\n'),
    ensures
        lines(line) == if line.len() == 0 {
            Seq::empty()
        } else {
            seq![line]
        },
{
    assert forall|i: int| 0 <= i < line.len() implies line[i] != '\n' by {
        assert(line.contains(line[i]));
    }
    first_at_is(line, '\n', line.len() as int);
}

/// No line holds a line feed.
pub proof fn lines_hold_no_feed(s: Seq<char>)
    ensures
        forall|i: int| 0 <= i < lines(s).len() ==> !(#[trigger] lines(s)[i]).contains('\n'),
    decreases s.len(),
{
    first_at_bounds(s, '\n');
    let n = first_at(s, '\n');
    if n < s.len() {
        let rest = s.skip(n + 1);
        lines_hold_no_feed(rest);
        let head = without_return(s.take(n));
        assert(!head.contains('\n')) by {
            if head.contains('\n') {
                let i = choose|i: int| 0 <= i < head.len() && head[i] == '\n';
                assert(s[i] == '\n');
            }
        }
        assert forall|i: int| 0 <= i < lines(s).len() implies !(#[trigger] lines(
            s,
        )[i]).contains('\n') by {
            if i > 0 {
                assert(lines(s)[i] == lines(rest)[i - 1]);
            }
        }
    } else if s.len() > 0 {
        assert(!s.contains('\n'));
    }
}

/// A part without `c` that `c` follows is the first field; what follows holds the others.
pub proof fn first_field(field: Seq<char>, c: char, rest: Seq<char>)
    requires
        !field.contains(c),
    ensures
        fields(field + seq![c] + rest, c) == seq![field] + fields(rest, c),
        fields(field, c) == seq![field],
{
    let s = field + seq![c] + rest;
    let n = field.len() as int;
    assert forall|i: int| 0 <= i < n implies s[i] != c && field[i] != c by {
        assert(field.contains(field[i]));
    }
    assert(s[n] == c);
    first_at_is(s, c, n);
    assert(s.take(n) =~= field);
    assert(s.skip(n + 1) =~= rest);
    first_at_is(field, c, n);
}

/// What is found behind `p` stands behind its first occurrence; where nothing is found, `p`
/// does not occur.
pub proof fn after_first_is_first(s: Seq<char>, p: Seq<char>)
    ensures
        match after_first(s, p) {
            Some(rest) => exists|at: int|
                {
                    &&& 0 <= at <= s.len()
                    &&& p.is_prefix_of(#[trigger] s.skip(at))
                    &&& rest == s.skip(at).skip(p.len() as int)
                    &&& forall|i: int| 0 <= i < at ==> !p.is_prefix_of(#[trigger] s.skip(i))
                },
            None => forall|i: int| 0 <= i <= s.len() ==> !p.is_prefix_of(#[trigger] s.skip(i)),
        },
    decreases s.len(),
{
    assert(s.skip(0) =~= s);
    if !p.is_prefix_of(s) && s.len() > 0 {
        after_first_is_first(s.skip(1), p);
        assert forall|i: int| 0 < i <= s.len() implies #[trigger] s.skip(i) == s.skip(1).skip(
            i - 1,
        ) by {
            assert(s.skip(1).skip(i - 1) =~= s.skip(i));
        }
        match after_first(s, p) {
            Some(rest) => {
                let at = choose|at: int|
                    {
                        &&& 0 <= at <= s.skip(1).len()
                        &&& p.is_prefix_of(#[trigger] s.skip(1).skip(at))
                        &&& rest == s.skip(1).skip(at).skip(p.len() as int)
                        &&& forall|i: int|
                            0 <= i < at ==> !p.is_prefix_of(#[trigger] s.skip(1).skip(i))
                    };
                assert(p.is_prefix_of(s.skip(at + 1)));
            },
            None => {},
        }
    }
}

/// Any number of `c` in front goes, and a text that does not begin with `c` stays whole.
pub proof fn without_leading_takes_all(lead: Seq<char>, s: Seq<char>, c: char)
    requires
        forall|i: int| 0 <= i < lead.len() ==> #[trigger] lead[i] == c,
        s.len() == 0 || s[0] != c,
    ensures
        without_leading(lead + s, c) == s,
    decreases lead.len(),
{
    if lead.len() == 0 {
        assert(lead + s =~= s);
    } else {
        assert(lead[0] == c);
        assert((lead + s).skip(1) =~= lead.skip(1) + s);
        without_leading_takes_all(lead.skip(1), s, c);
    }
}

/// Any number of `c` at the end goes, and a text that does not end with `c` stays whole.
pub proof fn without_trailing_takes_all(s: Seq<char>, tail: Seq<char>, c: char)
    requires
        forall|i: int| 0 <= i < tail.len() ==> #[trigger] tail[i] == c,
        s.len() == 0 || s.last() != c,
    ensures
        without_trailing(s + tail, c) == s,
    decreases tail.len(),
{
    if tail.len() == 0 {
        assert(s + tail =~= s);
    } else {
        assert(tail[tail.len() - 1] == c);
        assert((s + tail).drop_last() =~= s + tail.drop_last());
        without_trailing_takes_all(s, tail.drop_last(), c);
    }
}

/// The fields behind the first, when one more is appended.
proof fn fields_append(s: Seq<char>, c: char, field: Seq<char>)
    requires
        !field.contains(c),
    ensures
        fields(s + seq![c] + field, c) == fields(s, c).push(field),
    decreases s.len(),
{
    first_at_bounds(s, c);
    let n = first_at(s, c);
    first_field(field, c, Seq::empty());
    if n < s.len() {
        let front = s.take(n);
        let rest = s.skip(n + 1);
        assert(!front.contains(c)) by {
            if front.contains(c) {
                let i = choose|i: int| 0 <= i < front.len() && front[i] == c;
                assert(s[i] == c);
            }
        }
        fields_append(rest, c, field);
        assert(s + seq![c] + field =~= front + seq![c] + (rest + seq![c] + field));
        first_field(front, c, rest + seq![c] + field);
        assert(fields(s + seq![c] + field, c) =~= fields(s, c).push(field));
    } else {
        assert(!s.contains(c));
        first_field(s, c, field);
        assert(seq![s] + seq![field] =~= seq![s].push(field));
    }
}

/// Texts without `c` that are joined with `c` between them are the fields of what results.
pub proof fn joined_fields(parts: Seq<Seq<char>>, c: char)
    requires
        parts.len() > 0,
        forall|i: int| 0 <= i < parts.len() ==> !(#[trigger] parts[i]).contains(c),
    ensures
        fields(joined(parts, seq![c]), c) == parts,
    decreases parts.len(),
{
    if parts.len() == 1 {
        assert(!parts[0].contains(c));
        first_field(parts[0], c, Seq::empty());
        assert(seq![parts[0]] =~= parts);
    } else {
        assert forall|i: int| 0 <= i < parts.drop_last().len() implies !(
        #[trigger] parts.drop_last()[i]).contains(c) by {
            assert(!parts[i].contains(c));
        }
        joined_fields(parts.drop_last(), c);
        assert(!parts[parts.len() - 1].contains(c));
        fields_append(joined(parts.drop_last(), seq![c]), c, parts.last());
        assert(parts.drop_last().push(parts.last()) =~= parts);
    }
}

/// A name inside a directory stands behind the directory and one slash: the last that the
/// directory has, or one between the two.
pub proof fn path_in_directory(dir: Seq<char>, name: Seq<char>)
    requires
        dir.len() > 0,
    ensures
        dir.is_prefix_of(path_in(dir, name)),
        name.is_suffix_of(path_in(dir, name)),
        path_in(dir, name)[path_in(dir, name).len() - name.len() - 1] == '/',
        path_in(dir, name).len() == dir.len() + name.len() + if dir.last() == '/' {
            0int
        } else {
            1
        },
        forall|d: &str, n: &str, r: String|
            call_ensures(join_path, (d, n), r) && d@ == dir && n@ == name ==> r@ == path_in(
                dir,
                name,
            ),
{
    reveal_strlit("/");
    let path = path_in(dir, name);
    assert(dir =~= path.subrange(0, dir.len() as int));
    assert(name =~= path.subrange(path.len() - name.len(), path.len() as int));
}

/// The contents of texts are taken one by one, in order.
pub proof fn contents_in_order(a: Seq<Vec<char>>, b: Seq<String>, c: Seq<&str>)
    ensures
        views(a).len() == a.len(),
        forall|i: int| 0 <= i < a.len() ==> #[trigger] views(a)[i] == a[i]@,
        texts(b).len() == b.len(),
        forall|i: int| 0 <= i < b.len() ==> #[trigger] texts(b)[i] == b[i]@,
        slices(c).len() == c.len(),
        forall|i: int| 0 <= i < c.len() ==> #[trigger] slices(c)[i] == c[i]@,
{
}

/// A text is its trimmed part with white space before and behind.
pub proof fn trimmed_parts(s: Seq<char>) -> (r: (Seq<char>, Seq<char>))
    ensures
        s == r.0 + trimmed(s) + r.1,
        blank(r.0),
        blank(r.1),
        trimmed(s).len() > 0 ==> !white(trimmed(s).first()) && !white(trimmed(s).last()),
{
    let (lead, t) = trimmed_start_part(s);
    let tail = trimmed_end_part(t);
    assert(s =~= lead + trimmed_end(t) + tail);
    if trimmed_end(t).len() > 0 {
        assert(trimmed_end(t).first() == t.first());
    }
    (lead, tail)
}

/// What goes in front, and what stays.
proof fn trimmed_start_part(s: Seq<char>) -> (r: (Seq<char>, Seq<char>))
    ensures
        s == r.0 + r.1,
        r.1 == trimmed_start(s),
        blank(r.0),
        r.1.len() > 0 ==> !white(r.1.first()),
    decreases s.len(),
{
    if s.len() > 0 && white(s.first()) {
        let (lead, t) = trimmed_start_part(s.skip(1));
        let longer = seq![s.first()] + lead;
        assert(s =~= seq![s.first()] + s.skip(1));
        assert(longer + t =~= seq![s.first()] + (lead + t));
        (longer, t)
    } else {
        assert(s =~= Seq::<char>::empty() + s);
        (Seq::empty(), s)
    }
}

/// What goes at the end.
proof fn trimmed_end_part(s: Seq<char>) -> (r: Seq<char>)
    ensures
        s == trimmed_end(s) + r,
        blank(r),
        trimmed_end(s).len() > 0 ==> !white(trimmed_end(s).last()),
    decreases s.len(),
{
    if s.len() > 0 && white(s.last()) {
        let tail = trimmed_end_part(s.drop_last());
        let longer = tail.push(s.last());
        assert(s =~= s.drop_last().push(s.last()));
        assert(trimmed_end(s) + longer =~= (trimmed_end(s.drop_last()) + tail).push(s.last()));
        longer
    } else {
        assert(s =~= s + Seq::<char>::empty());
        Seq::empty()
    }
}

/// White space at the end does not change the words.
proof fn words_before_white(s: Seq<char>, tail: Seq<char>)
    requires
        blank(tail),
    ensures
        words(s + tail) == words(s),
    decreases s.len(),
{
    let (lead, t) = trimmed_start_part(s);
    if t.len() == 0 {
        assert(s =~= lead);
        assert(s + tail =~= lead + tail);
        assert(blank(lead + tail)) by {
            assert forall|i: int| 0 <= i < (lead + tail).len() implies white(
                #[trigger] (lead + tail)[i],
            ) by {
                if i >= lead.len() {
                    assert(white(tail[i - lead.len()]));
                } else {
                    assert(white(lead[i]));
                }
            }
        }
        blank_has_no_words(lead + tail);
        blank_has_no_words(lead);
    } else {
        first_white_bounds(t);
        let n = first_white(t);
        let word = t.take(n);
        let rest = t.skip(n);
        assert(solid(word)) by {
            assert forall|i: int| 0 <= i < word.len() implies !white(#[trigger] word[i]) by {
                assert(word[i] == t[i]);
            }
        }
        assert(s =~= lead + word + rest);
        assert(s + tail =~= lead + word + (rest + tail));
        if rest.len() == 0 && tail.len() > 0 {
            assert((rest + tail)[0] == tail[0]);
            assert(white(tail[0]));
        } else if rest.len() > 0 {
            assert((rest + tail)[0] == rest[0]);
        }
        first_word(lead, word, rest);
        first_word(lead, word, rest + tail);
        words_before_white(rest, tail);
    }
}

/// Trimming does not change the words.
pub proof fn words_of_trimmed(s: Seq<char>)
    ensures
        words(trimmed(s)) == words(s),
{
    let (lead, tail) = trimmed_parts(s);
    let t = trimmed(s);
    assert(lead + t + tail =~= lead + (t + tail));
    trimmed_start_skips(lead, t + tail);
    words_before_white(t, tail);
    assert(trimmed_start(s) == trimmed_start(t + tail));
    assert(words(s) == words(t + tail));
}

/// Two solid parts that white space parts are the first two words, whatever follows behind
/// more white space.
pub proof fn first_two_words(
    lead: Seq<char>,
    first: Seq<char>,
    gap: Seq<char>,
    second: Seq<char>,
    rest: Seq<char>,
)
    requires
        blank(lead),
        solid(first),
        first.len() > 0,
        blank(gap),
        gap.len() > 0,
        solid(second),
        second.len() > 0,
        rest.len() == 0 || white(rest[0]),
    ensures
        words(lead + first + gap + second + rest) == seq![first, second] + words(rest),
        words(lead + first + gap + second + rest).len() >= 2,
        words(lead + first + gap + second + rest)[0] == first,
        words(lead + first + gap + second + rest)[1] == second,
{
    let behind = gap + second + rest;
    assert(lead + first + gap + second + rest =~= lead + first + behind);
    assert(behind[0] == gap[0]);
    assert(white(gap[0]));
    first_word(lead, first, behind);
    first_word(gap, second, rest);
    assert(seq![first] + (seq![second] + words(rest)) =~= seq![first, second] + words(rest));
}

/// The first word of a text that begins solid begins with the text's first character.
pub proof fn first_character_of_words(t: Seq<char>)
    requires
        t.len() > 0,
        !white(t[0]),
    ensures
        words(t).len() > 0,
        words(t)[0].len() > 0,
        words(t)[0][0] == t[0],
{
    first_white_bounds(t);
    assert(trimmed_start(t) == t);
    assert(words(t) == seq![t.take(first_white(t))] + words(t.skip(first_white(t))));
}

/// The lines of a text that is empty or ends with a line feed, followed by another text, are
/// the lines of the two.
pub proof fn lines_concat(before: Seq<char>, s: Seq<char>)
    requires
        before.len() == 0 || before.last() == '\n',
    ensures
        lines(before + s) == lines(before) + lines(s),
    decreases before.len(),
{
    if before.len() == 0 {
        assert(before + s =~= s);
        assert(lines(before) + lines(s) =~= lines(s));
    } else {
        first_at_bounds(before, '\n');
        let n = first_at(before, '\n');
        assert(n < before.len()) by {
            if n == before.len() {
                assert(before[before.len() - 1] != '\n');
            }
        }
        let all = before + s;
        assert forall|i: int| 0 <= i < n implies all[i] != '\n' by {
            assert(all[i] == before[i]);
        }
        first_at_is(all, '\n', n);
        assert(all.take(n) =~= before.take(n));
        assert(all.skip(n + 1) =~= before.skip(n + 1) + s);
        let rest = before.skip(n + 1);
        if rest.len() > 0 {
            assert(rest.last() == before.last());
        }
        lines_concat(rest, s);
        assert(lines(all) =~= lines(before) + lines(s));
    }
}

/// A line between others is one of the lines.
pub proof fn line_among_others(before: Seq<char>, line: Seq<char>, after: Seq<char>)
    requires
        before.len() == 0 || before.last() == '\n',
        !line.contains('\n'),
        line.len() == 0 || line.last() != '\r',
    ensures
        lines(before + line + seq!['\n'] + after) == lines(before) + seq![line] + lines(after),
        lines(before + line + seq!['\n'] + after).contains(line),
{
    let behind = line + seq!['\n'] + after;
    assert(before + line + seq!['\n'] + after =~= before + behind);
    lines_concat(before, behind);
    first_line(line, after);
    let all = lines(before) + seq![line] + lines(after);
    assert(lines(before) + (seq![line] + lines(after)) =~= all);
    assert(all[lines(before).len() as int] == line);
}

/// What a text does not hold, no line of it holds.
pub proof fn lines_are_parts(s: Seq<char>, c: char)
    requires
        !s.contains(c),
    ensures
        forall|i: int| 0 <= i < lines(s).len() ==> !(#[trigger] lines(s)[i]).contains(c),
    decreases s.len(),
{
    first_at_bounds(s, '\n');
    let n = first_at(s, '\n');
    if n < s.len() {
        let rest = s.skip(n + 1);
        assert(!rest.contains(c)) by {
            if rest.contains(c) {
                let i = choose|i: int| 0 <= i < rest.len() && rest[i] == c;
                assert(s[i + n + 1] == c);
            }
        }
        lines_are_parts(rest, c);
        let head = without_return(s.take(n));
        assert(!head.contains(c)) by {
            if head.contains(c) {
                let i = choose|i: int| 0 <= i < head.len() && head[i] == c;
                assert(s[i] == c);
            }
        }
        assert forall|i: int| 0 <= i < lines(s).len() implies !(#[trigger] lines(s)[i]).contains(
            c,
        ) by {
            if i > 0 {
                assert(lines(s)[i] == lines(rest)[i - 1]);
            }
        }
    }
}

/// White space is what has one of these codes, and nothing else.
pub proof fn white_by_code(c: char, r: bool)
    requires
        call_ensures(is_white, (c,), r),
    ensures
        r == white(c),
        r <==> {
            let n = c as int;
            ||| 0x9 <= n <= 0xd
            ||| n == 0x20
            ||| n == 0x85
            ||| n == 0xa0
            ||| n == 0x1680
            ||| 0x2000 <= n <= 0x200a
            ||| n == 0x2028
            ||| n == 0x2029
            ||| n == 0x202f
            ||| n == 0x205f
            ||| n == 0x3000
        },
{
}

/// Joining nothing gives nothing, one part gives that part, and each part more stands behind
/// the others and the separator, whatever the parts hold.
pub proof fn joined_grows(parts: Seq<Seq<char>>, part: Seq<char>, sep: Seq<char>)
    ensures
        joined(Seq::empty(), sep).len() == 0,
        joined(seq![part], sep) == part,
        parts.len() > 0 ==> joined(parts.push(part), sep) == joined(parts, sep) + sep + part,
{
    assert(parts.push(part).drop_last() =~= parts);
}

/// A name inside no directory is that name.
pub proof fn path_in_no_directory(name: Seq<char>)
    ensures
        path_in(Seq::empty(), name) == name,
{
    assert(Seq::<char>::empty() + name =~= name);
}

/// A text begins or ends with another exactly if the characters there are the same, one by one.
pub proof fn ends_are_compared(
    chars: Vec<char>,
    s: &str,
    starts: bool,
    ends: bool,
    same: bool,
)
    requires
        call_ensures(starts_with, (&chars, s), starts),
        call_ensures(ends_with, (&chars, s), ends),
        call_ensures(is_text, (&chars, s), same),
    ensures
        starts <==> s@.len() <= chars@.len() && forall|i: int|
            0 <= i < s@.len() ==> #[trigger] s@[i] == chars@[i],
        ends <==> s@.len() <= chars@.len() && forall|i: int|
            0 <= i < s@.len() ==> #[trigger] s@[i] == chars@[chars@.len() - s@.len() + i],
        same <==> s@.len() == chars@.len() && forall|i: int|
            0 <= i < s@.len() ==> #[trigger] s@[i] == chars@[i],
{
    if s@.len() <= chars@.len() {
        let n = chars@.len() - s@.len();
        let front = chars@.subrange(0, s@.len() as int);
        let back = chars@.subrange(n, chars@.len() as int);
        assert forall|i: int| 0 <= i < s@.len() implies #[trigger] front[i] == chars@[i] by {}
        assert forall|i: int| 0 <= i < s@.len() implies #[trigger] back[i] == chars@[n + i] by {}
        if starts {
            assert forall|i: int| 0 <= i < s@.len() implies #[trigger] s@[i] == chars@[i] by {
                assert(front[i] == chars@[i]);
            }
        }
        if forall|i: int| 0 <= i < s@.len() ==> #[trigger] s@[i] == chars@[i] {
            assert(s@ =~= front);
        }
        if ends {
            assert forall|i: int| 0 <= i < s@.len() implies #[trigger] s@[i] == chars@[n + i] by {
                assert(back[i] == chars@[n + i]);
            }
        }
        if forall|i: int| 0 <= i < s@.len() ==> #[trigger] s@[i] == chars@[n + i] {
            assert(s@ =~= back);
        }
        if s@.len() == chars@.len() && forall|i: int|
            0 <= i < s@.len() ==> #[trigger] s@[i] == chars@[i] {
            assert(s@ =~= chars@);
        }
    }
}

/// What is split, trimmed, stripped or found is what the text holds, in its order.
pub proof fn texts_are_taken_apart(
    chars: Vec<char>,
    c: char,
    needle: &str,
    all_lines: Vec<Vec<char>>,
    all_words: Vec<Vec<char>>,
    all_fields: Vec<Vec<char>>,
    t: Vec<char>,
    front: Vec<char>,
    back: Vec<char>,
    found: Option<Vec<char>>,
)
    requires
        call_ensures(split_lines, (&chars,), all_lines),
        call_ensures(split_words, (&chars,), all_words),
        call_ensures(split_fields, (&chars, c), all_fields),
        call_ensures(trim, (&chars,), t),
        call_ensures(strip_leading, (&chars, c), front),
        call_ensures(strip_trailing, (&chars, c), back),
        call_ensures(find_after, (&chars, needle), found),
    ensures
        all_lines@.len() == lines(chars@).len(),
        forall|i: int|
            0 <= i < all_lines@.len() ==> (#[trigger] all_lines@[i])@ == lines(chars@)[i],
        all_words@.len() == words(chars@).len(),
        forall|i: int|
            0 <= i < all_words@.len() ==> (#[trigger] all_words@[i])@ == words(chars@)[i],
        all_fields@.len() == fields(chars@, c).len(),
        forall|i: int|
            0 <= i < all_fields@.len() ==> (#[trigger] all_fields@[i])@ == fields(chars@, c)[i],
        t@ == trimmed(chars@),
        front@ == without_leading(chars@, c),
        back@ == without_trailing(chars@, c),
        found is Some <==> after_first(chars@, needle@) is Some,
        found matches Some(rest) ==> rest@ == after_first(chars@, needle@)->0,
{
    contents_in_order(all_lines@, Seq::empty(), Seq::empty());
    contents_in_order(all_words@, Seq::empty(), Seq::empty());
    contents_in_order(all_fields@, Seq::empty(), Seq::empty());
    assert forall|i: int| 0 <= i < all_lines@.len() implies (#[trigger] all_lines@[i])@ == lines(
        chars@,
    )[i] by {
        assert(views(all_lines@)[i] == all_lines@[i]@);
    }
    assert forall|i: int| 0 <= i < all_words@.len() implies (#[trigger] all_words@[i])@ == words(
        chars@,
    )[i] by {
        assert(views(all_words@)[i] == all_words@[i]@);
    }
    assert forall|i: int| 0 <= i < all_fields@.len() implies (#[trigger] all_fields@[i])@
        == fields(chars@, c)[i] by {
        assert(views(all_fields@)[i] == all_fields@[i]@);
    }
}

/// Texts are copied and compared character by character.
pub proof fn texts_are_copied(
    s: &str,
    other: &str,
    chars: Vec<char>,
    from: usize,
    to: usize,
    cut: Vec<char>,
    text: String,
    copied: Vec<char>,
    same: bool,
)
    requires
        from <= to <= chars@.len(),
        call_ensures(part, (&chars, from, to), cut),
        call_ensures(string_of, (&chars,), text),
        call_ensures(chars_of, (s,), copied),
        call_ensures(same_text, (s, other), same),
    ensures
        cut@.len() == to - from,
        forall|i: int| 0 <= i < cut@.len() ==> #[trigger] cut@[i] == chars@[from + i],
        text@ == chars@,
        copied@ == s@,
        same <==> s@ == other@,
{
}

} // verus!
