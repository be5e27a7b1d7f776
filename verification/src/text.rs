//! Text: the small vocabulary of string operations the rest of the library is
//! written in, each with its meaning over sequences of characters.

use vstd::prelude::*;
use vstd::utf8::*;

verus! {

broadcast use vstd::string::group_string_axioms;

// ---------------------------------------------------------------------------
// Meaning
// ---------------------------------------------------------------------------

/// Whether `needle` occurs in `hay` at position `at`.
pub open spec fn occurs_at(hay: Seq<char>, needle: Seq<char>, at: int) -> bool {
    &&& 0 <= at
    &&& at + needle.len() <= hay.len()
    &&& hay.subrange(at, at + needle.len()) == needle
}

/// Whether `needle` occurs somewhere in `hay`.
pub open spec fn contains_text(hay: Seq<char>, needle: Seq<char>) -> bool {
    exists|at: int| occurs_at(hay, needle, at)
}

/// Whether `s` begins with `prefix`.
pub open spec fn begins(s: Seq<char>, prefix: Seq<char>) -> bool {
    occurs_at(s, prefix, 0)
}

/// `s` without its leading white space.
pub open spec fn trimmed_start(s: Seq<char>) -> Seq<char>
    decreases s.len(),
{
    if s.len() > 0 && white_space(s[0]) {
        trimmed_start(s.subrange(1, s.len() as int))
    } else {
        s
    }
}

/// `s` without its trailing white space.
pub open spec fn trimmed_end(s: Seq<char>) -> Seq<char>
    decreases s.len(),
{
    if s.len() > 0 && white_space(s.last()) {
        trimmed_end(s.drop_last())
    } else {
        s
    }
}

/// `s` without leading and trailing white space.
pub open spec fn trimmed(s: Seq<char>) -> Seq<char> {
    trimmed_end(trimmed_start(s))
}

/// Whether `s` holds nothing but white space.
pub open spec fn blank(s: Seq<char>) -> bool {
    trimmed(s).len() == 0
}

/// The pieces of `s` between occurrences of `sep` (one more than there are
/// separators).
pub open spec fn pieces(s: Seq<char>, sep: char) -> Seq<Seq<char>>
    decreases s.len(),
{
    if s.len() == 0 {
        seq![Seq::<char>::empty()]
    } else {
        let before = pieces(s.drop_last(), sep);
        if s.last() == sep {
            before.push(Seq::<char>::empty())
        } else {
            before.drop_last().push(before.last().push(s.last()))
        }
    }
}

/// The trimmed pieces that are not empty, in order.
pub open spec fn kept_lines(lines: Seq<Seq<char>>) -> Seq<Seq<char>>
    decreases lines.len(),
{
    if lines.len() == 0 {
        Seq::empty()
    } else {
        let before = kept_lines(lines.drop_last());
        let line = trimmed(lines.last());
        if line.len() == 0 {
            before
        } else {
            before.push(line)
        }
    }
}

/// The lines of `s`, trimmed, without the blank ones.
pub open spec fn content_lines(s: Seq<char>) -> Seq<Seq<char>> {
    kept_lines(pieces(s, '\n'))
}

/// The items one after the other with `sep` between them.
pub open spec fn joined(items: Seq<Seq<char>>, sep: Seq<char>) -> Seq<char>
    decreases items.len(),
{
    if items.len() == 0 {
        Seq::empty()
    } else if items.len() == 1 {
        items[0]
    } else {
        joined(items.drop_last(), sep) + sep + items.last()
    }
}

/// What stands before the first `sep` in `s` (all of it where there is none).
pub open spec fn head(s: Seq<char>, sep: char) -> Seq<char>
    decreases s.len(),
{
    if s.len() == 0 || s[0] == sep {
        Seq::empty()
    } else {
        seq![s[0]] + head(s.subrange(1, s.len() as int), sep)
    }
}

/// A path with another path behind it: an absolute one replaces it, and a
/// separator goes between the two where there is none.
pub open spec fn path_joined(base: Seq<char>, rest: Seq<char>) -> Seq<char> {
    if rest.len() > 0 && rest[0] == '/' {
        rest
    } else if base.len() == 0 || base.last() == '/' {
        base + rest
    } else {
        base + seq!['/'] + rest
    }
}

/// The decimal digit for a number below ten.
pub open spec fn digit(d: int) -> char {
    (48 + d) as char
}

/// A natural number in decimal.
pub open spec fn decimal(n: nat) -> Seq<char>
    decreases n,
{
    if n < 10 {
        seq![digit(n as int)]
    } else {
        decimal(n / 10).push(digit((n % 10) as int))
    }
}

/// An integer in decimal, with a minus sign where it is negative.
pub open spec fn decimal_int(i: int) -> Seq<char> {
    if i < 0 {
        seq!['-'] + decimal((-i) as nat)
    } else {
        decimal(i as nat)
    }
}

/// `n` spaces.
pub open spec fn spaces(n: nat) -> Seq<char> {
    Seq::new(n, |i: int| ' ')
}

/// `s` filled up on the right with spaces to `width` characters.
pub open spec fn padded_right(s: Seq<char>, width: nat) -> Seq<char> {
    if s.len() >= width {
        s
    } else {
        s + spaces((width - s.len()) as nat)
    }
}

/// `s` filled up on the left with spaces to `width` characters.
pub open spec fn padded_left(s: Seq<char>, width: nat) -> Seq<char> {
    if s.len() >= width {
        s
    } else {
        spaces((width - s.len()) as nat) + s
    }
}

/// The value of a sequence of decimal digits, or nothing where a character is
/// not one.
pub open spec fn digits_value(s: Seq<char>) -> Option<nat>
    decreases s.len(),
{
    if s.len() == 0 {
        Some(0)
    } else {
        match digits_value(s.drop_last()) {
            Some(v) if '0' <= s.last() <= '9' => Some(v * 10 + (s.last() as nat - 48) as nat),
            _ => None,
        }
    }
}

/// The unsigned number that `s` spells: an optional plus sign, then at least
/// one digit, within the range of `u64`.
pub open spec fn spelled_u64(s: Seq<char>) -> Option<u64> {
    let body = if s.len() > 0 && s[0] == '+' {
        s.subrange(1, s.len() as int)
    } else {
        s
    };
    if body.len() == 0 {
        None
    } else {
        match digits_value(body) {
            Some(v) if v <= u64::MAX => Some(v as u64),
            _ => None,
        }
    }
}

// ---------------------------------------------------------------------------
// Outside functions
// ---------------------------------------------------------------------------

/// The name for the answer of [`char::is_whitespace`]: whether a character has
/// the Unicode `White_Space` property.
pub uninterp spec fn white_space(c: char) -> bool;

/// [`char::is_whitespace`] answers with the `White_Space` property of its
/// argument, and the space character has it.
pub assume_specification[ char::is_whitespace ](c: char) -> (r: bool)
    ensures
        r == white_space(c),
        c == ' ' ==> r,
;

/// The name for the result of [`str::to_lowercase`].
pub uninterp spec fn lowercase(s: Seq<char>) -> Seq<char>;

/// [`str::to_lowercase`] gives the lower-case equivalent of its argument, which
/// depends on the argument alone.
pub assume_specification[ str::to_lowercase ](s: &str) -> (r: String)
    ensures
        r@ == lowercase(s@),
;

/// [`String::push`] appends one character.
pub assume_specification[ String::push ](s: &mut String, c: char)
    ensures
        final(s)@ == old(s)@.push(c),
;

/// The name for a text's debug form: quoted, with the escapes of
/// [`str::escape_debug`].
pub uninterp spec fn quoted(s: Seq<char>) -> Seq<char>;

/// `Debug` of [`str`] through `format!("{:?}")`: the quoted and escaped form of
/// the text, which depends on the text alone.
#[verifier::external_body]
pub(crate) fn quote(s: &str) -> (r: String)
    ensures
        r@ == quoted(s@),
{
    format!("{s:?}")
}

// ---------------------------------------------------------------------------
// Operations
// ---------------------------------------------------------------------------

/// Whether two texts are equal, character for character.
pub fn same(a: &str, b: &str) -> (r: bool)
    ensures
        r == (a@ == b@),
{
    let x = a.as_bytes();
    let y = b.as_bytes();
    proof {
        encode_utf8_decode_utf8(a@);
        encode_utf8_decode_utf8(b@);
    }
    if x.len() != y.len() {
        return false;
    }
    let n: usize = x.len();
    let mut i: usize = 0;
    while i < n
        invariant
            n == x@.len() == y@.len(),
            i <= n,
            x@ == encode_utf8(a@),
            y@ == encode_utf8(b@),
            forall|j: int| 0 <= j < i ==> x@[j] == y@[j],
        decreases n - i,
    {
        if x[i] != y[i] {
            return false;
        }
        i = i + 1;
    }
    assert(x@ =~= y@);
    true
}

/// Whether an optional text is present and equal to `b`.
pub fn opt_is(a: &Option<String>, b: &str) -> (r: bool)
    ensures
        r == (a.deep_view() == Some(b@)),
{
    match a {
        Some(s) => same(s, b),
        None => false,
    }
}

/// The characters of a text.
pub fn chars_of(s: &str) -> (r: Vec<char>)
    ensures
        r@ == s@,
{
    let mut out: Vec<char> = Vec::new();
    for c in it: s.chars()
        invariant
            it.seq() == s@,
            out@ == s@.take(it.index() as int),
    {
        assert(s@.take(it.index() + 1) =~= s@.take(it.index() as int).push(c));
        out.push(c);
    }
    assert(s@.take(s@.len() as int) =~= s@);
    out
}

/// Whether `needle` occurs in `hay`.
pub fn contains(hay: &str, needle: &str) -> (r: bool)
    ensures
        r == contains_text(hay@, needle@),
{
    let h = chars_of(hay);
    let n = chars_of(needle);
    if n.len() > h.len() {
        assert(forall|at: int| !occurs_at(hay@, needle@, at));
        return false;
    }
    let len: usize = h.len();
    let last: usize = len - n.len();
    let mut at: usize = 0;
    while at <= last
        invariant
            h@ == hay@,
            n@ == needle@,
            n@.len() <= h@.len(),
            len == h@.len(),
            last == h@.len() - n@.len(),
            last < usize::MAX || at <= last,
            at <= last + 1,
            forall|k: int| 0 <= k < at ==> !occurs_at(hay@, needle@, k),
        decreases last + 1 - at,
    {
        let mut i: usize = 0;
        while i < n.len() && h[at + i] == n[i]
            invariant
                h@ == hay@,
                n@ == needle@,
                at + n@.len() <= h@.len(),
                len == h@.len(),
                i <= n@.len(),
                forall|k: int| 0 <= k < i ==> h@[at + k] == n@[k],
            decreases n@.len() - i,
        {
            i = i + 1;
        }
        if i == n.len() {
            assert(hay@.subrange(at as int, at + needle@.len()) =~= needle@);
            assert(occurs_at(hay@, needle@, at as int));
            return true;
        }
        assert(!occurs_at(hay@, needle@, at as int)) by {
            if occurs_at(hay@, needle@, at as int) {
                assert(hay@.subrange(at as int, at + needle@.len())[i as int] == needle@[i as int]);
            }
        }
        if at == last {
            assert forall|k: int| !occurs_at(hay@, needle@, k) by {
                if occurs_at(hay@, needle@, k) {
                    assert(0 <= k <= last);
                }
            }
            return false;
        }
        at = at + 1;
    }
    false
}

/// What follows `prefix` in `s`, where `s` begins with it.
pub fn strip_prefix<'a>(s: &'a str, prefix: &str) -> (r: Option<&'a str>)
    ensures
        match r {
            Some(rest) => begins(s@, prefix@) && rest@ == s@.subrange(
                prefix@.len() as int,
                s@.len() as int,
            ),
            None => !begins(s@, prefix@),
        },
{
    let n: usize = s.unicode_len();
    let k: usize = prefix.unicode_len();
    if k > n {
        return None;
    }
    if same(s.substring_char(0, k), prefix) {
        Some(s.substring_char(k, n))
    } else {
        None
    }
}

/// Whether `s` begins with `prefix`.
pub fn starts_with(s: &str, prefix: &str) -> (r: bool)
    ensures
        r == begins(s@, prefix@),
{
    strip_prefix(s, prefix).is_some()
}

/// `s` without leading and trailing white space.
pub fn trim(s: &str) -> (r: &str)
    ensures
        r@ == trimmed(s@),
{
    let cs = chars_of(s);
    let n: usize = cs.len();
    let mut from: usize = 0;
    assert(s@.subrange(0, n as int) =~= s@);
    while from < n && cs[from].is_whitespace()
        invariant
            cs@ == s@,
            n == s@.len(),
            from <= n,
            trimmed_start(s@) == trimmed_start(s@.subrange(from as int, n as int)),
        decreases n - from,
    {
        proof {
            let rest = s@.subrange(from as int, n as int);
            assert(rest.subrange(1, rest.len() as int) =~= s@.subrange(from + 1, n as int));
        }
        from = from + 1;
    }
    proof {
        if from < n {
            assert(s@.subrange(from as int, n as int)[0] == s@[from as int]);
        }
    }
    let ghost started = s@.subrange(from as int, n as int);
    assert(trimmed_start(s@) == started);
    let mut to: usize = n;
    while to > from && cs[to - 1].is_whitespace()
        invariant
            cs@ == s@,
            n == s@.len(),
            from <= to <= n,
            trimmed_end(started) == trimmed_end(s@.subrange(from as int, to as int)),
        decreases to,
    {
        proof {
            let rest = s@.subrange(from as int, to as int);
            assert(rest.last() == s@[to - 1]);
            assert(rest.drop_last() =~= s@.subrange(from as int, to - 1));
        }
        to = to - 1;
    }
    proof {
        let rest = s@.subrange(from as int, to as int);
        if to > from {
            assert(rest.last() == s@[to - 1]);
        }
    }
    s.substring_char(from, to)
}

/// `s` without trailing white space.
pub fn trim_end(s: &str) -> (r: &str)
    ensures
        r@ == trimmed_end(s@),
{
    let cs = chars_of(s);
    let mut to: usize = cs.len();
    assert(s@.take(to as int) =~= s@);
    while to > 0 && cs[to - 1].is_whitespace()
        invariant
            cs@ == s@,
            to <= s@.len(),
            trimmed_end(s@) == trimmed_end(s@.take(to as int)),
        decreases to,
    {
        proof {
            let rest = s@.take(to as int);
            assert(rest.last() == s@[to - 1]);
            assert(rest.drop_last() =~= s@.take(to - 1));
        }
        to = to - 1;
    }
    proof {
        let rest = s@.take(to as int);
        if to > 0 {
            assert(rest.last() == s@[to - 1]);
        }
        assert(s@.subrange(0, to as int) =~= rest);
    }
    s.substring_char(0, to)
}

/// Whether `s` holds nothing but white space.
pub fn is_blank(s: &str) -> (r: bool)
    ensures
        r == blank(s@),
{
    trim(s).is_empty()
}

/// The pieces of `s` between occurrences of `sep`.
pub fn split(s: &str, sep: char) -> (r: Vec<String>)
    ensures
        r.deep_view() == pieces(s@, sep),
        r@.len() > 0,
{
    let mut out: Vec<String> = Vec::new();
    let mut piece: String = String::new();
    for c in it: s.chars()
        invariant
            it.seq() == s@,
            pieces(s@.take(it.index() as int), sep) == out.deep_view().push(piece@),
    {
        proof {
            let now = s@.take(it.index() + 1);
            assert(now.drop_last() =~= s@.take(it.index() as int));
            assert(now.last() == c);
            assert(out.deep_view().push(piece@).drop_last() =~= out.deep_view());
        }
        if c == sep {
            let ghost before = out.deep_view();
            let ghost done = piece@;
            out.push(piece);
            piece = String::new();
            assert(out.deep_view() =~= before.push(done));
        } else {
            piece.push(c);
        }
    }
    let ghost before = out.deep_view();
    let ghost done = piece@;
    out.push(piece);
    assert(s@.take(s@.len() as int) =~= s@);
    assert(out.deep_view() =~= before.push(done));
    out
}

/// The lines of `s`, trimmed, without the blank ones.
pub fn lines_with_content(s: &str) -> (r: Vec<String>)
    ensures
        r.deep_view() == content_lines(s@),
{
    let lines = split(s, '\n');
    let mut out: Vec<String> = Vec::new();
    let mut i: usize = 0;
    assert(lines.deep_view().take(0) =~= Seq::<Seq<char>>::empty());
    assert(out.deep_view() =~= Seq::<Seq<char>>::empty());
    while i < lines.len()
        invariant
            i <= lines@.len(),
            lines.deep_view() == pieces(s@, '\n'),
            out.deep_view() == kept_lines(lines.deep_view().take(i as int)),
        decreases lines@.len() - i,
    {
        let line = trim(&lines[i]);
        proof {
            let now = lines.deep_view().take(i + 1);
            assert(now.drop_last() =~= lines.deep_view().take(i as int));
            assert(now.last() == lines@[i as int]@);
        }
        if !line.is_empty() {
            let ghost before = out.deep_view();
            let owned = line.to_owned();
            out.push(owned);
            assert(out.deep_view() =~= before.push(line@));
        }
        i = i + 1;
    }
    assert(lines.deep_view().take(lines@.len() as int) =~= lines.deep_view());
    out
}

/// The items one after the other with `sep` between them.
pub fn join(items: &Vec<String>, sep: &str) -> (r: String)
    ensures
        r@ == joined(items.deep_view(), sep@),
{
    let mut out: String = String::new();
    let mut i: usize = 0;
    assert(items.deep_view().take(0) =~= Seq::<Seq<char>>::empty());
    while i < items.len()
        invariant
            i <= items@.len(),
            out@ == joined(items.deep_view().take(i as int), sep@),
        decreases items@.len() - i,
    {
        proof {
            let now = items.deep_view().take(i + 1);
            assert(now.drop_last() =~= items.deep_view().take(i as int));
            assert(now.last() == items@[i as int]@);
        }
        if i > 0 {
            out.append(sep);
        } else {
            assert(Seq::<char>::empty() + items@[0]@ =~= items@[0]@);
        }
        out.append(&items[i]);
        i = i + 1;
    }
    assert(items.deep_view().take(items@.len() as int) =~= items.deep_view());
    out
}

/// The first `n` characters of `s` (all of it where it is shorter).
pub fn take_chars(s: &str, n: usize) -> (r: String)
    ensures
        r@ == s@.take(if n < s@.len() { n as int } else { s@.len() as int }),
{
    let len: usize = s.unicode_len();
    let k: usize = if n < len { n } else { len };
    s.substring_char(0, k).to_owned()
}

proof fn lemma_head(s: Seq<char>, sep: char, n: int)
    requires
        0 <= n <= s.len(),
        forall|j: int| 0 <= j < n ==> s[j] != sep,
        n < s.len() ==> s[n] == sep,
    ensures
        head(s, sep) == s.take(n),
    decreases n,
{
    if n > 0 {
        let rest = s.subrange(1, s.len() as int);
        assert(forall|j: int| 0 <= j < n - 1 ==> rest[j] == s[j + 1]);
        assert(n < s.len() ==> rest[n - 1] == s[n]);
        lemma_head(rest, sep, n - 1);
        assert(seq![s[0]] + rest.take(n - 1) =~= s.take(n));
    } else {
        assert(s.take(0) =~= Seq::<char>::empty());
    }
}

/// What stands before the first `sep` in `s` (all of it where there is none).
pub fn before(s: &str, sep: char) -> (r: &str)
    ensures
        r@ == head(s@, sep),
{
    let cs = chars_of(s);
    let n: usize = cs.len();
    let mut i: usize = 0;
    while i < n && cs[i] != sep
        invariant
            cs@ == s@,
            n == s@.len(),
            i <= n,
            forall|j: int| 0 <= j < i ==> s@[j] != sep,
        decreases n - i,
    {
        i = i + 1;
    }
    proof {
        lemma_head(s@, sep, i as int);
    }
    s.substring_char(0, i)
}

/// Two texts in a row.
pub fn cat2(a: &str, b: &str) -> (r: String)
    ensures
        r@ == a@ + b@,
{
    let mut out = a.to_owned();
    out.append(b);
    out
}

/// Three texts in a row.
pub fn cat3(a: &str, b: &str, c: &str) -> (r: String)
    ensures
        r@ == a@ + b@ + c@,
{
    let mut out = cat2(a, b);
    out.append(c);
    out
}

/// Four texts in a row.
pub fn cat4(a: &str, b: &str, c: &str, d: &str) -> (r: String)
    ensures
        r@ == a@ + b@ + c@ + d@,
{
    let mut out = cat3(a, b, c);
    out.append(d);
    out
}

/// Five texts in a row.
pub fn cat5(a: &str, b: &str, c: &str, d: &str, e: &str) -> (r: String)
    ensures
        r@ == a@ + b@ + c@ + d@ + e@,
{
    let mut out = cat4(a, b, c, d);
    out.append(e);
    out
}

/// A path with another path behind it.
pub fn path_join(base: &str, rest: &str) -> (r: String)
    ensures
        r@ == path_joined(base@, rest@),
{
    let n: usize = base.unicode_len();
    if !rest.is_empty() && rest.get_char(0) == '/' {
        return rest.to_owned();
    }
    let mut out = base.to_owned();
    if n > 0 && base.get_char(n - 1) != '/' {
        out.push('/');
        assert(out@ =~= base@ + seq!['/']);
    }
    out.append(rest);
    out
}

fn push_decimal(out: &mut String, n: u64)
    ensures
        final(out)@ == old(out)@ + decimal(n as nat),
    decreases n,
{
    if n >= 10 {
        push_decimal(out, n / 10);
    }
    let d: u64 = n % 10;
    let c: char = (48u8 + d as u8) as char;
    out.push(c);
    assert(out@ =~= old(out)@ + decimal(n as nat));
}

/// An unsigned number in decimal.
pub fn u64_text(n: u64) -> (r: String)
    ensures
        r@ == decimal(n as nat),
{
    let mut out = String::new();
    push_decimal(&mut out, n);
    assert(out@ =~= decimal(n as nat));
    out
}

/// A signed number in decimal.
pub fn i64_text(i: i64) -> (r: String)
    ensures
        r@ == decimal_int(i as int),
{
    let mut out = String::new();
    if i < 0 {
        out.push('-');
        let magnitude: u64 = (-(i as i128)) as u64;
        push_decimal(&mut out, magnitude);
        assert(out@ =~= decimal_int(i as int));
    } else {
        push_decimal(&mut out, i as u64);
        assert(out@ =~= decimal_int(i as int));
    }
    out
}

fn push_spaces(out: &mut String, n: usize)
    ensures
        final(out)@ == old(out)@ + spaces(n as nat),
{
    let mut i: usize = 0;
    while i < n
        invariant
            i <= n,
            out@ == old(out)@ + spaces(i as nat),
        decreases n - i,
    {
        out.push(' ');
        i = i + 1;
        assert(out@ =~= old(out)@ + spaces(i as nat));
    }
    assert(out@ =~= old(out)@ + spaces(n as nat));
}

/// `s` filled up on the right with spaces to `width` characters.
pub fn pad_right(s: &str, width: usize) -> (r: String)
    ensures
        r@ == padded_right(s@, width as nat),
{
    let len: usize = s.unicode_len();
    let mut out = s.to_owned();
    if len < width {
        push_spaces(&mut out, width - len);
    }
    out
}

/// `s` filled up on the left with spaces to `width` characters.
pub fn pad_left(s: &str, width: usize) -> (r: String)
    ensures
        r@ == padded_left(s@, width as nat),
{
    let len: usize = s.unicode_len();
    let mut out = String::new();
    if len < width {
        push_spaces(&mut out, width - len);
        assert(out@ =~= spaces((width - len) as nat));
    } else {
        assert(out@ + s@ =~= s@);
    }
    out.append(s);
    out
}

/// The unsigned number that `s` spells, if it spells one.
pub fn parse_u64(s: &str) -> (r: Option<u64>)
    ensures
        r == spelled_u64(s@),
{
    let cs = chars_of(s);
    let n: usize = cs.len();
    let from: usize = if n > 0 && cs[0] == '+' { 1 } else { 0 };
    let ghost body = s@.subrange(from as int, n as int);
    assert(from == 0 ==> body =~= s@);
    if from == n {
        return None;
    }
    let mut value: u128 = 0;
    let mut i: usize = from;
    assert(body.take(0) =~= Seq::<char>::empty());
    while i < n
        invariant
            cs@ == s@,
            n == s@.len(),
            from <= i <= n,
            body == s@.subrange(from as int, n as int),
            digits_value(body.take(i - from)) == Some(value as nat),
            value <= u64::MAX,
            spelled_u64(s@) == (match digits_value(body) {
                Some(v) if v <= u64::MAX => Some(v as u64),
                _ => None,
            }),
        decreases n - i,
    {
        let c: char = cs[i];
        proof {
            let now = body.take(i - from + 1);
            assert(now.drop_last() =~= body.take(i - from));
            assert(now.last() == c);
        }
        if c < '0' || c > '9' {
            proof {
                lemma_no_digits(body, i - from + 1);
            }
            return None;
        }
        value = value * 10 + (c as u32 - 48) as u128;
        if value > u64::MAX as u128 {
            proof {
                lemma_digits_grow(body, i - from + 1);
            }
            return None;
        }
        i = i + 1;
    }
    assert(body.take(n - from) =~= body);
    Some(value as u64)
}

proof fn lemma_no_digits(s: Seq<char>, k: int)
    requires
        0 <= k <= s.len(),
        digits_value(s.take(k)) is None,
    ensures
        digits_value(s) is None,
    decreases s.len() - k,
{
    if k == s.len() {
        assert(s.take(k) =~= s);
    } else {
        assert(s.take(k + 1).drop_last() =~= s.take(k));
        lemma_no_digits(s, k + 1);
    }
}

proof fn lemma_digits_grow(s: Seq<char>, k: int)
    requires
        0 <= k <= s.len(),
        digits_value(s.take(k)) matches Some(v) && v > u64::MAX,
    ensures
        digits_value(s) matches Some(v) ==> v > u64::MAX,
    decreases s.len() - k,
{
    if k == s.len() {
        assert(s.take(k) =~= s);
    } else {
        assert(s.take(k + 1).drop_last() =~= s.take(k));
        if digits_value(s.take(k + 1)) is None {
            lemma_no_digits(s, k + 1);
        } else {
            lemma_digits_grow(s, k + 1);
        }
    }
}

// ---------------------------------------------------------------------------
// Order
// ---------------------------------------------------------------------------

/// Whether one text stands before another, by the code points of the first
/// characters in which they differ.
pub open spec fn sorts_before(a: Seq<char>, b: Seq<char>) -> bool
    decreases a.len(),
{
    if b.len() == 0 {
        false
    } else if a.len() == 0 {
        true
    } else if a[0] != b[0] {
        (a[0] as int) < (b[0] as int)
    } else {
        sorts_before(a.skip(1), b.skip(1))
    }
}

/// Whether one text stands before another.
pub fn stands_before(a: &str, b: &str) -> (r: bool)
    ensures
        r == sorts_before(a@, b@),
{
    let ca = chars_of(a);
    let cb = chars_of(b);
    let mut i: usize = 0;
    assert(a@.skip(0) =~= a@);
    assert(b@.skip(0) =~= b@);
    while i < ca.len() && i < cb.len()
        invariant
            ca@ == a@,
            cb@ == b@,
            i <= a@.len(),
            i <= b@.len(),
            sorts_before(a@, b@) == sorts_before(a@.skip(i as int), b@.skip(i as int)),
        decreases a@.len() - i,
    {
        let x = ca[i];
        let y = cb[i];
        proof {
            assert(a@.skip(i as int)[0] == x);
            assert(b@.skip(i as int)[0] == y);
            assert(a@.skip(i as int).skip(1) =~= a@.skip(i + 1));
            assert(b@.skip(i as int).skip(1) =~= b@.skip(i + 1));
        }
        if x != y {
            return x < y;
        }
        i = i + 1;
    }
    i < cb.len()
}

pub(crate) proof fn lemma_sorting_is_an_order(a: Seq<char>, b: Seq<char>)
    ensures
        !(sorts_before(a, b) && sorts_before(b, a)),
        !sorts_before(a, a),
        a == b || sorts_before(a, b) || sorts_before(b, a),
    decreases a.len(),
{
    if a.len() > 0 && b.len() > 0 && a[0] == b[0] {
        lemma_sorting_is_an_order(a.skip(1), b.skip(1));
        if a.skip(1) == b.skip(1) {
            assert(a =~= seq![a[0]] + a.skip(1));
            assert(b =~= seq![b[0]] + b.skip(1));
            assert(a == b);
        }
    }
    if a.len() > 0 {
        lemma_sorting_is_an_order(a.skip(1), a.skip(1));
    }
    if a.len() == 0 && b.len() == 0 {
        assert(a =~= b);
    }
}

pub(crate) proof fn lemma_sorting_chains(a: Seq<char>, b: Seq<char>, c: Seq<char>)
    requires
        sorts_before(a, b),
        sorts_before(b, c),
    ensures
        sorts_before(a, c),
    decreases a.len(),
{
    if a.len() > 0 && a[0] == b[0] && b[0] == c[0] {
        lemma_sorting_chains(a.skip(1), b.skip(1), c.skip(1));
    }
}

// ---------------------------------------------------------------------------
// Laws
// ---------------------------------------------------------------------------

proof fn lemma_trimmed_start(s: Seq<char>) -> (i: int)
    ensures
        0 <= i <= s.len(),
        trimmed_start(s) == s.subrange(i, s.len() as int),
        forall|k: int| 0 <= k < i ==> white_space(#[trigger] s[k]),
        i < s.len() ==> !white_space(s[i]),
    decreases s.len(),
{
    if s.len() > 0 && white_space(s[0]) {
        let rest = s.subrange(1, s.len() as int);
        let j = lemma_trimmed_start(rest);
        assert(rest.subrange(j, rest.len() as int) =~= s.subrange(j + 1, s.len() as int));
        assert forall|k: int| 0 <= k < j + 1 implies white_space(#[trigger] s[k]) by {
            if k > 0 {
                assert(rest[k - 1] == s[k]);
            }
        }
        if j < rest.len() {
            assert(rest[j] == s[j + 1]);
        }
        j + 1
    } else {
        assert(s.subrange(0, s.len() as int) =~= s);
        0
    }
}

proof fn lemma_trimmed_end(s: Seq<char>) -> (j: int)
    ensures
        0 <= j <= s.len(),
        trimmed_end(s) == s.take(j),
        forall|k: int| j <= k < s.len() ==> white_space(#[trigger] s[k]),
        j > 0 ==> !white_space(s[j - 1]),
    decreases s.len(),
{
    if s.len() > 0 && white_space(s.last()) {
        let rest = s.drop_last();
        let j = lemma_trimmed_end(rest);
        assert(rest.take(j) =~= s.take(j));
        assert forall|k: int| j <= k < s.len() implies white_space(#[trigger] s[k]) by {
            if k < rest.len() {
                assert(rest[k] == s[k]);
            }
        }
        j
    } else {
        assert(s.take(s.len() as int) =~= s);
        s.len() as int
    }
}

/// Trimming takes white space off both ends, all of it, and nothing else: what
/// is left is one stretch of the text that neither begins nor ends in any.
pub proof fn law_trimming_takes_only_the_ends(s: Seq<char>) -> (cut: (int, int))
    ensures
        0 <= cut.0 <= cut.1 <= s.len(),
        trimmed(s) == s.subrange(cut.0, cut.1),
        forall|k: int| 0 <= k < cut.0 ==> white_space(#[trigger] s[k]),
        forall|k: int| cut.1 <= k < s.len() ==> white_space(#[trigger] s[k]),
        cut.0 < cut.1 ==> !white_space(s[cut.0]) && !white_space(s[cut.1 - 1]),
{
    let i = lemma_trimmed_start(s);
    let rest = s.subrange(i, s.len() as int);
    let j = lemma_trimmed_end(rest);
    assert(rest.take(j) =~= s.subrange(i, i + j));
    assert forall|k: int| i + j <= k < s.len() implies white_space(#[trigger] s[k]) by {
        assert(rest[k - i] == s[k]);
    }
    if j > 0 {
        assert(rest[j - 1] == s[i + j - 1]);
    }
    (i, i + j)
}

/// A text is blank exactly where every character of it is white space.
pub proof fn law_blank_is_all_white_space(s: Seq<char>)
    ensures
        blank(s) <==> (forall|k: int| 0 <= k < s.len() ==> white_space(#[trigger] s[k])),
{
    let (i, j) = law_trimming_takes_only_the_ends(s);
    if blank(s) {
        assert forall|k: int| 0 <= k < s.len() implies white_space(#[trigger] s[k]) by {
            assert(k < i || k >= j);
        }
    } else if forall|k: int| 0 <= k < s.len() ==> white_space(#[trigger] s[k]) {
        assert(white_space(s[i]));
    }
}

proof fn lemma_joined_last(items: Seq<Seq<char>>, sep: Seq<char>, more: Seq<char>)
    requires
        items.len() > 0,
    ensures
        joined(items.drop_last().push(items.last() + more), sep) == joined(items, sep) + more,
{
    let grown = items.drop_last().push(items.last() + more);
    if items.len() == 1 {
        assert(grown[0] == items[0] + more);
    } else {
        assert(grown.drop_last() =~= items.drop_last());
        assert(joined(items.drop_last(), sep) + sep + (items.last() + more) =~= (joined(
            items.drop_last(),
            sep,
        ) + sep + items.last()) + more);
    }
}

/// Splitting loses nothing: the pieces joined by the separator are the text
/// again, there is at least one, and none holds the separator.
pub proof fn law_pieces_join_again(s: Seq<char>, sep: char)
    ensures
        pieces(s, sep).len() >= 1,
        joined(pieces(s, sep), seq![sep]) == s,
        forall|i: int| 0 <= i < pieces(s, sep).len() ==> !(#[trigger] pieces(s, sep)[i]).contains(sep),
    decreases s.len(),
{
    let all = pieces(s, sep);
    if s.len() == 0 {
        assert(all[0] =~= s);
    } else {
        law_pieces_join_again(s.drop_last(), sep);
        let before = pieces(s.drop_last(), sep);
        if s.last() == sep {
            assert(all.drop_last() =~= before);
            assert(joined(all, seq![sep]) =~= s);
            assert forall|i: int| 0 <= i < all.len() implies !(#[trigger] all[i]).contains(sep) by {
                if i < before.len() {
                    assert(all[i] == before[i]);
                }
            }
        } else {
            assert(before.last().push(s.last()) =~= before.last() + seq![s.last()]);
            lemma_joined_last(before, seq![sep], seq![s.last()]);
            assert(joined(all, seq![sep]) =~= s);
            assert forall|i: int| 0 <= i < all.len() implies !(#[trigger] all[i]).contains(sep) by {
                if i < before.len() - 1 {
                    assert(all[i] == before[i]);
                } else {
                    let whole = before.last().push(s.last());
                    assert(all[i] == whole);
                    assert(!before[before.len() - 1].contains(sep));
                    assert forall|k: int| 0 <= k < whole.len() implies whole[k] != sep by {
                        if k < before.last().len() {
                            assert(before.last()[k] == whole[k]);
                            assert(before.last().contains(whole[k]));
                        }
                    }
                }
            }
        }
    }
}

/// Joining two lists of items one behind the other joins each and puts one
/// separator between.
pub proof fn law_joining_is_in_order(
    front: Seq<Seq<char>>,
    back: Seq<Seq<char>>,
    sep: Seq<char>,
)
    requires
        front.len() > 0,
        back.len() > 0,
    ensures
        joined(front + back, sep) == joined(front, sep) + sep + joined(back, sep),
        joined(seq![front[0]], sep) == front[0],
        joined(Seq::<Seq<char>>::empty(), sep) == Seq::<char>::empty(),
    decreases back.len(),
{
    let all = front + back;
    assert(all.drop_last() =~= front + back.drop_last());
    if back.len() == 1 {
        assert(front + back.drop_last() =~= front);
    } else {
        law_joining_is_in_order(front, back.drop_last(), sep);
        assert(joined(front, sep) + sep + joined(back.drop_last(), sep) + sep + back.last() =~= joined(
            front,
            sep,
        ) + sep + (joined(back.drop_last(), sep) + sep + back.last()));
    }
}

/// The lines that are kept are the ones with content, trimmed, in their order.
pub proof fn law_lines_with_content_are_kept(lines: Seq<Seq<char>>)
    ensures
        kept_lines(lines) == lines.map_values(|l: Seq<char>| trimmed(l)).filter(
            |l: Seq<char>| l.len() > 0,
        ),
    decreases lines.len(),
{
    reveal(Seq::filter);
    let all = lines.map_values(|l: Seq<char>| trimmed(l));
    if lines.len() > 0 {
        law_lines_with_content_are_kept(lines.drop_last());
        assert(all.drop_last() =~= lines.drop_last().map_values(|l: Seq<char>| trimmed(l)));
    }
}

/// What stands before the first separator is a prefix of the text without one,
/// and it ends where the text ends or at a separator.
pub proof fn law_head_ends_at_the_separator(s: Seq<char>, sep: char)
    ensures
        head(s, sep).len() <= s.len(),
        head(s, sep) == s.take(head(s, sep).len() as int),
        !head(s, sep).contains(sep),
        head(s, sep).len() < s.len() ==> s[head(s, sep).len() as int] == sep,
    decreases s.len(),
{
    if s.len() > 0 && s[0] != sep {
        let rest = s.subrange(1, s.len() as int);
        law_head_ends_at_the_separator(rest, sep);
        let n = head(rest, sep).len() as int;
        assert(head(s, sep) =~= s.take(n + 1));
        assert forall|k: int| 0 <= k < n + 1 implies head(s, sep)[k] != sep by {
            if k > 0 {
                assert(head(rest, sep)[k - 1] == head(s, sep)[k]);
                assert(head(rest, sep).contains(head(s, sep)[k]));
            }
        }
        if n + 1 < s.len() {
            assert(rest[n] == s[n + 1]);
        }
    } else {
        assert(s.take(0) =~= Seq::<char>::empty());
    }
}

/// A path behind another stands at its end, with one separator before it where
/// there was none; only an absolute path takes the other's place.
pub proof fn law_paths_are_joined_by_one_separator(base: Seq<char>, rest: Seq<char>)
    ensures
        rest.len() > 0 && rest[0] == '/' ==> path_joined(base, rest) == rest,
        !(rest.len() > 0 && rest[0] == '/') ==> {
            let p = path_joined(base, rest);
            &&& p.take(base.len() as int) == base
            &&& p.skip(p.len() - rest.len()) == rest
            &&& base.len() > 0 && base.last() != '/' ==> p.len() == base.len() + 1 + rest.len()
                && p[base.len() as int] == '/'
            &&& base.len() == 0 || base.last() == '/' ==> p.len() == base.len() + rest.len()
        },
{
    let p = path_joined(base, rest);
    if !(rest.len() > 0 && rest[0] == '/') {
        assert(p.take(base.len() as int) =~= base);
        assert(p.skip(p.len() - rest.len()) =~= rest);
    }
}

/// A number written down reads back as itself, without a leading zero.
pub proof fn law_decimals_read_back(n: nat)
    ensures
        digits_value(decimal(n)) == Some(n),
        decimal(n).len() > 0,
        decimal(n)[0] == '0' ==> n == 0,
        forall|k: int| 0 <= k < decimal(n).len() ==> '0' <= #[trigger] decimal(n)[k] <= '9',
    decreases n,
{
    let d = (n % 10) as int;
    assert(digit(d) as nat == 48 + d);
    if n < 10 {
        let s = decimal(n);
        assert(s.drop_last() =~= Seq::<char>::empty());
        assert(digits_value(s.drop_last()) == Some(0nat));
    } else {
        law_decimals_read_back(n / 10);
        let s = decimal(n);
        assert(s.drop_last() =~= decimal(n / 10));
        assert forall|k: int| 0 <= k < s.len() implies '0' <= #[trigger] s[k] <= '9' by {
            if k < s.len() - 1 {
                assert(s[k] == decimal(n / 10)[k]);
            }
        }
        assert(s[0] == decimal(n / 10)[0]);
    }
}

/// Every unsigned number is spelled by its decimals, with or without a plus
/// sign; a number below zero is its decimals behind a minus sign, and spells
/// none.
pub proof fn law_numbers_are_spelled_in_decimal(n: u64, below: int)
    requires
        below < 0,
    ensures
        spelled_u64(decimal(n as nat)) == Some(n),
        spelled_u64(seq!['+'] + decimal(n as nat)) == Some(n),
        decimal_int(n as int) == decimal(n as nat),
        decimal_int(below) == seq!['-'] + decimal((-below) as nat),
        spelled_u64(decimal_int(below)) is None,
        spelled_u64(Seq::<char>::empty()) is None,
{
    law_decimals_read_back(n as nat);
    let plain = decimal(n as nat);
    assert(plain[0] != '+');
    let signed = seq!['+'] + plain;
    assert(signed.subrange(1, signed.len() as int) =~= plain);
    let minus = decimal_int(below);
    lemma_not_all_digits(minus);
}

proof fn lemma_not_all_digits(s: Seq<char>)
    requires
        s.len() > 0,
        s[0] == '-',
    ensures
        digits_value(s) is None,
    decreases s.len(),
{
    if s.len() > 1 {
        assert(s.drop_last()[0] == '-');
        lemma_not_all_digits(s.drop_last());
    }
}

/// Padding only adds spaces, on one side, and only up to the width asked for.
pub proof fn law_padding_adds_spaces(s: Seq<char>, width: nat)
    ensures
        s.len() >= width ==> padded_right(s, width) == s && padded_left(s, width) == s,
        s.len() < width ==> {
            &&& padded_right(s, width).len() == width
            &&& padded_left(s, width).len() == width
            &&& padded_right(s, width).take(s.len() as int) == s
            &&& padded_left(s, width).skip(width - s.len()) == s
            &&& forall|k: int|
                s.len() <= k < width ==> #[trigger] padded_right(s, width)[k] == ' '
            &&& forall|k: int|
                0 <= k < width - s.len() ==> #[trigger] padded_left(s, width)[k] == ' '
        },
{
    if s.len() < width {
        assert(padded_right(s, width).take(s.len() as int) =~= s);
        assert(padded_left(s, width).skip(width - s.len()) =~= s);
    }
}

/// Texts stand in the order of the first characters in which they differ, a text
/// before every longer one that begins with it; of two texts that are not equal
/// exactly one stands before the other.
pub proof fn law_texts_stand_in_order(a: Seq<char>, b: Seq<char>, n: int)
    requires
        0 <= n <= a.len(),
        n <= b.len(),
        a.take(n) == b.take(n),
    ensures
        n < a.len() && n < b.len() && a[n] != b[n] ==> (sorts_before(a, b) <==> (a[n] as int) < (
        b[n] as int)),
        n == a.len() && n < b.len() ==> sorts_before(a, b),
        !(sorts_before(a, b) && sorts_before(b, a)),
        a != b ==> sorts_before(a, b) || sorts_before(b, a),
    decreases n,
{
    lemma_sorting_is_an_order(a, b);
    if n > 0 {
        assert(a.take(n)[0] == a[0] && b.take(n)[0] == b[0]);
        let x = a.skip(1);
        let y = b.skip(1);
        assert forall|k: int| 0 <= k < n - 1 implies x[k] == y[k] by {
            assert(a.take(n)[k + 1] == a[k + 1]);
            assert(b.take(n)[k + 1] == b[k + 1]);
        }
        assert(x.take(n - 1) =~= y.take(n - 1));
        law_texts_stand_in_order(x, y, n - 1);
    }
}

pub(crate) proof fn lemma_stands_inside(front: Seq<char>, needle: Seq<char>, back: Seq<char>)
    ensures
        contains_text(front + needle + back, needle),
{
    let all = front + needle + back;
    let at = front.len() as int;
    assert(all.subrange(at, at + needle.len()) =~= needle);
    assert(occurs_at(all, needle, at));
}

pub(crate) proof fn lemma_run_on(items: Seq<Seq<char>>, last: Seq<char>)
    ensures
        joined(items.push(last), Seq::empty()) == joined(items, Seq::empty()) + last,
{
    let all = items.push(last);
    assert(all.drop_last() =~= items);
    if items.len() == 0 {
        assert(joined(items, Seq::empty()) + last =~= last);
    } else {
        assert(joined(items, Seq::empty()) + Seq::<char>::empty() =~= joined(items, Seq::empty()));
    }
}

/// A text holds another exactly where it is something before it, that text, and
/// something behind it; it begins with another where nothing stands before.
pub proof fn law_holding_is_standing_inside(hay: Seq<char>, needle: Seq<char>)
    ensures
        contains_text(hay, needle) <==> exists|front: Seq<char>, back: Seq<char>|
            hay == #[trigger] (front + needle + back),
        begins(hay, needle) <==> needle.is_prefix_of(hay),
{
    if contains_text(hay, needle) {
        let at = choose|at: int| occurs_at(hay, needle, at);
        let front = hay.take(at);
        let back = hay.skip(at + needle.len());
        assert(hay =~= front + needle + back);
    }
    if exists|front: Seq<char>, back: Seq<char>| hay == #[trigger] (front + needle + back) {
        let (front, back) = choose|front: Seq<char>, back: Seq<char>|
            hay == #[trigger] (front + needle + back);
        lemma_stands_inside(front, needle, back);
    }
    if needle.is_prefix_of(hay) {
        assert(hay.subrange(0, needle.len() as int) =~= needle);
    }
    if begins(hay, needle) {
        assert(needle =~= hay.subrange(0, needle.len() as int));
    }
}

/// The lines of a text with content are its pieces between line ends, trimmed,
/// without the blank ones, in their order.
pub proof fn law_content_lines_are_the_lines(s: Seq<char>)
    ensures
        content_lines(s) == pieces(s, '\n').map_values(|l: Seq<char>| trimmed(l)).filter(
            |l: Seq<char>| l.len() > 0,
        ),
{
    law_lines_with_content_are_kept(pieces(s, '\n'));
}

} // verus!
