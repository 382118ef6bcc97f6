//! Text helpers shared by the other modules.
//!
//! Strings are modelled by their view, a `Seq<char>`.  Where an operation is
//! defined on bytes by the standard library (ordering), the model is the
//! UTF-8 encoding of that view.

use vstd::prelude::*;
use vstd::string::*;

verus! {

/// `String::push` appends one character.
pub assume_specification[ String::push ](s: &mut String, c: char)
    ensures
        final(s)@ == old(s)@.push(c),
;

/// What `str::to_lowercase` returns for a string with the given characters.
pub uninterp spec fn lowercase(s: Seq<char>) -> Seq<char>;

/// `str::to_lowercase` maps a string to its lowercase form as Unicode defines
/// it; the result depends on the characters alone.
pub assume_specification[ str::to_lowercase ](s: &str) -> (r: String)
    ensures
        r@ == lowercase(s@),
;

/// The characters of a string, in order.
pub fn chars_of(s: &str) -> (v: Vec<char>)
    ensures
        v@ == s@,
{
    let mut v: Vec<char> = Vec::new();
    for c in it: s.chars()
        invariant
            it.seq() == s@,
            v@ == s@.take(it.index() as int),
    {
        v.push(c);
    }
    v
}

/// The string made of the characters `v[from..to]`.
pub fn string_of_range(v: &Vec<char>, from: usize, to: usize) -> (s: String)
    requires
        from <= to <= v.len(),
    ensures
        s@ == v@.subrange(from as int, to as int),
{
    let mut s = String::new();
    let mut i: usize = from;
    while i < to
        invariant
            from <= i <= to <= v.len(),
            s@ == v@.subrange(from as int, i as int),
        decreases to - i,
    {
        s.push(v[i]);
        i += 1;
    }
    s
}

/// The string made of the characters of `v`.
pub fn string_of(v: &Vec<char>) -> (s: String)
    ensures
        s@ == v@,
{
    string_of_range(v, 0, v.len())
}

/// `needle` occurs in `hay` at position `at`.
pub open spec fn occurs_at(hay: Seq<char>, needle: Seq<char>, at: int) -> bool {
    &&& 0 <= at
    &&& at + needle.len() <= hay.len()
    &&& hay.subrange(at, at + needle.len()) == needle
}

/// `needle` occurs somewhere in `hay`.
pub open spec fn is_substring(needle: Seq<char>, hay: Seq<char>) -> bool {
    exists|at: int| occurs_at(hay, needle, at)
}

/// Whether `needle` occurs in `hay` at position `at`.
pub(crate) fn matches_at(hay: &Vec<char>, needle: &Vec<char>, at: usize) -> (r: bool)
    requires
        at + needle.len() <= hay.len(),
    ensures
        r == occurs_at(hay@, needle@, at as int),
{
    let mut k: usize = 0;
    while k < needle.len()
        invariant
            k <= needle.len(),
            at + needle.len() <= hay.len(),
            hay@.subrange(at as int, at + k) == needle@.take(k as int),
        decreases needle.len() - k,
    {
        if hay[at + k] != needle[k] {
            proof {
                let sub = hay@.subrange(at as int, at + needle.len());
                assert(sub[k as int] != needle@[k as int]);
            }
            return false;
        }
        proof {
            assert(hay@.subrange(at as int, at + k + 1) =~= hay@.subrange(at as int, at + k).push(
                hay@[at + k],
            ));
            assert(needle@.take(k + 1) =~= needle@.take(k as int).push(needle@[k as int]));
        }
        k += 1;
    }
    proof {
        assert(needle@.take(needle.len() as int) =~= needle@);
    }
    true
}

/// Whether `needle` occurs in `hay`.
pub fn contains(hay: &str, needle: &str) -> (r: bool)
    ensures
        r == is_substring(needle@, hay@),
{
    let h = chars_of(hay);
    let n = chars_of(needle);
    if n.len() > h.len() {
        return false;
    }
    let last: usize = h.len() - n.len();
    let mut at: usize = 0;
    loop
        invariant
            at <= last,
            last == h.len() - n.len(),
            n.len() <= h.len(),
            h@ == hay@,
            n@ == needle@,
            forall|j: int| 0 <= j < at ==> !occurs_at(h@, n@, j),
        decreases last - at,
    {
        if matches_at(&h, &n, at) {
            return true;
        }
        if at == last {
            return false;
        }
        at += 1;
    }
}

/// `text` ends with `suffix`.
pub open spec fn ends_with(text: Seq<char>, suffix: Seq<char>) -> bool {
    occurs_at(text, suffix, text.len() - suffix.len())
}

/// Whether `text` ends with `suffix`.
pub fn has_suffix(text: &str, suffix: &str) -> (r: bool)
    ensures
        r == ends_with(text@, suffix@),
{
    let t = chars_of(text);
    let s = chars_of(suffix);
    if s.len() > t.len() {
        return false;
    }
    matches_at(&t, &s, t.len() - s.len())
}

/// A name is hidden when it begins with a dot.
pub open spec fn is_hidden(name: Seq<char>) -> bool {
    name.len() > 0 && name[0] == '.'
}

/// Whether `name` begins with a dot.
pub fn starts_with_dot(name: &str) -> (r: bool)
    ensures
        r == is_hidden(name@),
{
    let mut it = name.chars();
    match it.next() {
        Some(c) => c == '.',
        None => false,
    }
}

/// The order of byte strings: at the first position where two differ the
/// smaller byte decides, and a proper prefix comes before what extends it.
pub open spec fn bytes_le(a: Seq<u8>, b: Seq<u8>) -> bool
    decreases a.len(),
{
    if a.len() == 0 {
        true
    } else if b.len() == 0 {
        false
    } else if a[0] != b[0] {
        a[0] < b[0]
    } else {
        bytes_le(a.skip(1), b.skip(1))
    }
}

/// The order in which the standard library sorts strings: that of their
/// UTF-8 encodings.
pub open spec fn str_le(a: Seq<char>, b: Seq<char>) -> bool {
    bytes_le(vstd::utf8::encode_utf8(a), vstd::utf8::encode_utf8(b))
}

/// Of two byte strings one comes before the other or they are equal.
pub proof fn lemma_bytes_le_total(a: Seq<u8>, b: Seq<u8>)
    ensures
        bytes_le(a, b) || bytes_le(b, a),
    decreases a.len(),
{
    if a.len() > 0 && b.len() > 0 && a[0] == b[0] {
        lemma_bytes_le_total(a.skip(1), b.skip(1));
    }
}

/// The order of byte strings is transitive.
pub proof fn lemma_bytes_le_transitive(a: Seq<u8>, b: Seq<u8>, c: Seq<u8>)
    requires
        bytes_le(a, b),
        bytes_le(b, c),
    ensures
        bytes_le(a, c),
    decreases a.len(),
{
    if a.len() > 0 && b.len() > 0 && c.len() > 0 && a[0] == b[0] && b[0] == c[0] {
        lemma_bytes_le_transitive(a.skip(1), b.skip(1), c.skip(1));
    }
}

/// Two byte strings that come before each other are equal.
pub proof fn lemma_bytes_le_antisymmetric(a: Seq<u8>, b: Seq<u8>)
    requires
        bytes_le(a, b),
        bytes_le(b, a),
    ensures
        a == b,
    decreases a.len(),
{
    if a.len() > 0 && b.len() > 0 {
        lemma_bytes_le_antisymmetric(a.skip(1), b.skip(1));
        assert(a =~= seq![a[0]] + a.skip(1));
        assert(b =~= seq![b[0]] + b.skip(1));
    } else {
        assert(a =~= b);
    }
}

/// Whether `a` comes before `b`, or equals it, in the order of strings.
pub fn str_le_exec(a: &str, b: &str) -> (r: bool)
    ensures
        r == str_le(a@, b@),
{
    let x = a.as_bytes();
    let y = b.as_bytes();
    let mut i: usize = 0;
    proof {
        assert(x@.skip(0) =~= x@);
        assert(y@.skip(0) =~= y@);
    }
    while i < x.len() && i < y.len()
        invariant
            i <= x.len(),
            i <= y.len(),
            x@ == vstd::utf8::encode_utf8(a@),
            y@ == vstd::utf8::encode_utf8(b@),
            bytes_le(x@, y@) == bytes_le(x@.skip(i as int), y@.skip(i as int)),
        decreases x.len() - i,
    {
        if x[i] != y[i] {
            return x[i] < y[i];
        }
        proof {
            assert(x@.skip(i as int).skip(1) =~= x@.skip(i + 1));
            assert(y@.skip(i as int).skip(1) =~= y@.skip(i + 1));
        }
        i += 1;
    }
    i == x.len()
}

/// The character of a decimal digit.
pub open spec fn digit(d: int) -> char {
    ((48 + d) as u8) as char
}

/// A number in decimal digits, without leading zeros.
pub open spec fn decimal(n: nat) -> Seq<char>
    decreases n,
{
    if n < 10 {
        seq![digit(n as int)]
    } else {
        decimal(n / 10).push(digit((n % 10) as int))
    }
}

/// A number in decimal digits, with a leading zero where it has one digit.
pub open spec fn two_digits(n: nat) -> Seq<char> {
    if n < 10 {
        seq!['0'] + decimal(n)
    } else {
        decimal(n)
    }
}

fn digit_of(d: u128) -> (c: char)
    requires
        d < 10,
    ensures
        c == digit(d as int),
{
    ((48 + d) as u8) as char
}

/// `n` in decimal digits.
pub fn decimal_of(n: u64) -> (s: String)
    ensures
        s@ == decimal(n as nat),
{
    decimal_of_wide(n as u128)
}

/// `n` in decimal digits.
pub fn decimal_of_wide(n: u128) -> (s: String)
    ensures
        s@ == decimal(n as nat),
{
    let mut rest: u128 = n;
    let mut tail: Vec<char> = Vec::new();
    while rest >= 10
        invariant
            decimal(n as nat) =~= decimal(rest as nat) + tail@,
        decreases rest,
    {
        let ghost before = tail@;
        tail.insert(0, digit_of(rest % 10));
        proof {
            assert(tail@ =~= seq![digit((rest % 10) as int)] + before);
        }
        rest = rest / 10;
    }
    tail.insert(0, digit_of(rest));
    crate::text::string_of(&tail)
}

/// `n` in at least two decimal digits.
pub fn two_digits_of(n: u64) -> (s: String)
    ensures
        s@ == two_digits(n as nat),
{
    if n < 10 {
        let mut s = String::new();
        s.push('0');
        s.append(decimal_of(n).as_str());
        s
    } else {
        decimal_of(n)
    }
}

/// What the standard library's `Debug` writes for a character.
pub uninterp spec fn char_debug(c: char) -> Seq<char>;

/// `<char as Debug>::fmt`: the character between single quotes, escaped
/// where it could not be read otherwise.  The text depends on the
/// character alone.
#[verifier::external_body]
pub(crate) fn debug_char(c: char) -> (s: String)
    ensures
        s@ == char_debug(c),
{
    format!("{:?}", c)
}

/// Whether Unicode counts a character as white space.
pub uninterp spec fn is_whitespace(c: char) -> bool;

/// `char::is_whitespace` says whether the character has the Unicode
/// property `White_Space`.
pub assume_specification[ char::is_whitespace ](c: char) -> (r: bool)
    ensures
        r == is_whitespace(c),
;

/// A text without the white space at its start.
pub open spec fn trim_start(text: Seq<char>) -> Seq<char>
    decreases text.len(),
{
    if text.len() > 0 && is_whitespace(text[0]) {
        trim_start(text.skip(1))
    } else {
        text
    }
}

/// A text without the white space at its end.
pub open spec fn trim_end(text: Seq<char>) -> Seq<char>
    decreases text.len(),
{
    if text.len() > 0 && is_whitespace(text.last()) {
        trim_end(text.drop_last())
    } else {
        text
    }
}

/// A text without the white space at its start and at its end.
pub open spec fn trimmed(text: Seq<char>) -> Seq<char> {
    trim_end(trim_start(text))
}

/// The characters `v[from..to]` without the white space at their start and
/// at their end.
pub fn trim(v: &Vec<char>, from: usize, to: usize) -> (s: String)
    requires
        from <= to <= v.len(),
    ensures
        s@ == trimmed(v@.subrange(from as int, to as int)),
{
    let ghost text = v@.subrange(from as int, to as int);
    let mut start: usize = from;
    while start < to && v[start].is_whitespace()
        invariant
            from <= start <= to <= v.len(),
            trim_start(text) == trim_start(v@.subrange(start as int, to as int)),
        decreases to - start,
    {
        proof {
            let rest = v@.subrange(start as int, to as int);
            assert(rest.skip(1) =~= v@.subrange(start + 1, to as int));
        }
        start += 1;
    }
    let ghost body = v@.subrange(start as int, to as int);
    assert(trim_start(text) == body);
    let mut end: usize = to;
    while end > start && v[end - 1].is_whitespace()
        invariant
            start <= end <= to <= v.len(),
            trim_end(body) == trim_end(v@.subrange(start as int, end as int)),
        decreases end,
    {
        proof {
            let rest = v@.subrange(start as int, end as int);
            assert(rest.drop_last() =~= v@.subrange(start as int, end - 1));
        }
        end -= 1;
    }
    string_of_range(v, start, end)
}

/// The pieces of a text between the separators.  A text without a
/// separator is one piece, and so is the empty text.
pub open spec fn split_on(text: Seq<char>, separator: char) -> Seq<Seq<char>>
    decreases text.len(),
{
    if text.len() == 0 {
        seq![Seq::empty()]
    } else {
        let pieces = split_on(text.drop_last(), separator);
        if text.last() == separator {
            pieces.push(Seq::empty())
        } else {
            pieces.drop_last().push(pieces.last().push(text.last()))
        }
    }
}

/// The pieces of a text between the separators, each without the white
/// space around it.
pub open spec fn trimmed_pieces(text: Seq<char>, separator: char) -> Seq<Seq<char>> {
    split_on(text, separator).map_values(|p: Seq<char>| trimmed(p))
}

/// The pieces of `text` between the separators, each without the white
/// space around it.
pub fn split_trimmed(text: &str, separator: char) -> (pieces: Vec<String>)
    ensures
        pieces.deep_view() == trimmed_pieces(text@, separator),
{
    let v = chars_of(text);
    let mut pieces: Vec<String> = Vec::new();
    let mut from: usize = 0;
    let mut i: usize = 0;
    let ghost trimming = |p: Seq<char>| trimmed(p);
    proof {
        assert(v@.take(0) =~= Seq::<char>::empty());
        assert(v@.subrange(0, 0) =~= Seq::<char>::empty());
        assert(pieces.deep_view() =~= split_on(v@.take(0), separator).drop_last().map_values(
            trimming,
        ));
    }
    while i < v.len()
        invariant
            from <= i <= v.len(),
            v@ == text@,
            trimming == |p: Seq<char>| trimmed(p),
            split_on(v@.take(i as int), separator).len() > 0,
            split_on(v@.take(i as int), separator).last() == v@.subrange(from as int, i as int),
            pieces.deep_view() == split_on(v@.take(i as int), separator).drop_last().map_values(
                trimming,
            ),
        decreases v.len() - i,
    {
        let ghost seen = split_on(v@.take(i as int), separator);
        let ghost done = pieces.deep_view();
        proof {
            assert(v@.take(i + 1).drop_last() =~= v@.take(i as int));
            assert(v@.take(i + 1).last() == v@[i as int]);
        }
        if v[i] == separator {
            pieces.push(trim(&v, from, i));
            from = i + 1;
            proof {
                let next = split_on(v@.take(i + 1), separator);
                assert(next == seen.push(Seq::empty()));
                assert(next.drop_last() =~= seen);
                assert(seen =~= seen.drop_last().push(seen.last()));
                assert(pieces.deep_view() =~= done.push(trimmed(seen.last())));
                assert(next.drop_last().map_values(trimming) =~= done.push(trimmed(seen.last())));
                assert(v@.subrange(from as int, i + 1) =~= Seq::<char>::empty());
            }
        } else {
            proof {
                let next = split_on(v@.take(i + 1), separator);
                assert(next == seen.drop_last().push(seen.last().push(v@[i as int])));
                assert(next.drop_last() =~= seen.drop_last());
                assert(v@.subrange(from as int, i + 1) =~= v@.subrange(
                    from as int,
                    i as int,
                ).push(v@[i as int]));
            }
        }
        i += 1;
    }
    pieces.push(trim(&v, from, i));
    proof {
        assert(v@.take(v.len() as int) =~= v@);
        let all = split_on(v@, separator);
        assert(all =~= all.drop_last().push(all.last()));
        assert(pieces.deep_view() =~= all.drop_last().map_values(trimming).push(
            trimmed(all.last()),
        ));
        assert(pieces.deep_view() =~= all.map_values(trimming));
    }
    pieces
}

} // verus!
