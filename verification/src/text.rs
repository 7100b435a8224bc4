//! Small text utilities shared by the parsers and formatters of the crate.
use vstd::prelude::*;

verus! {

/// Appends `c` to `s` (`String::push`).
#[verifier::external_body]
pub(crate) fn push_char(s: &mut String, c: char)
    ensures
        final(s)@ == old(s)@.push(c),
{
    s.push(c);
}

/// The characters of `s`, in order.
pub(crate) fn chars_of(s: &str) -> (chars: Vec<char>)
    ensures
        chars@ == s@,
{
    broadcast use vstd::string::group_string_axioms;

    let mut chars: Vec<char> = Vec::new();
    for c in it: s.chars()
        invariant
            chars@ == it.seq().take(it.index() as int),
    {
        chars.push(c);
    }
    assert(chars@ =~= s@);
    chars
}

/// The string made of `chars[from..to]`.
pub(crate) fn string_from_chars(chars: &Vec<char>, from: usize, to: usize) -> (s: String)
    requires
        from <= to <= chars@.len(),
    ensures
        s@ == chars@.subrange(from as int, to as int),
{
    let mut s = String::new();
    let mut i = from;
    while i < to
        invariant
            from <= i <= to <= chars@.len(),
            s@ == chars@.subrange(from as int, i as int),
        decreases to - i,
    {
        push_char(&mut s, chars[i]);
        assert(chars@.subrange(from as int, i + 1) =~= chars@.subrange(from as int, i as int).push(chars@[i as int]));
        i += 1;
    }
    s
}


/// Position of the first `c` in `s`, or `s.len()` where `s` holds none.
pub open spec fn char_position(s: Seq<char>, c: char) -> nat
    decreases s.len(),
{
    if s.len() == 0 {
        0
    } else if s[0] == c {
        0
    } else {
        1 + char_position(s.drop_first(), c)
    }
}

pub proof fn lemma_char_position_bound(s: Seq<char>, c: char)
    ensures
        char_position(s, c) <= s.len(),
        char_position(s, c) < s.len() ==> s[char_position(s, c) as int] == c,
    decreases s.len(),
{
    if s.len() > 0 && s[0] != c {
        lemma_char_position_bound(s.drop_first(), c);
    }
}

proof fn lemma_char_position_at(s: Seq<char>, c: char, i: int)
    requires
        0 <= i <= s.len(),
        forall|k: int| 0 <= k < i ==> s[k] != c,
        i == s.len() || s[i] == c,
    ensures
        char_position(s, c) == i,
    decreases i,
{
    if i > 0 {
        assert(s[0] != c);
        lemma_char_position_at(s.drop_first(), c, i - 1);
    }
}

/// Position of the first `c` in `chars[from..to]`, counted from `from`; `to`
/// where there is none.
pub(crate) fn find_char(chars: &Vec<char>, from: usize, to: usize, c: char) -> (i: usize)
    requires
        from <= to <= chars@.len(),
    ensures
        from <= i <= to,
        i - from == char_position(chars@.subrange(from as int, to as int), c),
{
    let mut i = from;
    while i < to && chars[i] != c
        invariant
            from <= i <= to <= chars@.len(),
            forall|k: int| from <= k < i ==> chars@[k] != c,
        decreases to - i,
    {
        i += 1;
    }
    proof {
        lemma_char_position_at(chars@.subrange(from as int, to as int), c, i - from);
    }
    i
}

/// Whether `c` has the Unicode `White_Space` property (`char::is_whitespace`).
pub open spec fn is_whitespace_char(c: char) -> bool {
    let u = c as u32;
    ||| 0x09 <= u <= 0x0d
    ||| u == 0x20
    ||| u == 0x85
    ||| u == 0xa0
    ||| u == 0x1680
    ||| 0x2000 <= u <= 0x200a
    ||| u == 0x2028
    ||| u == 0x2029
    ||| u == 0x202f
    ||| u == 0x205f
    ||| u == 0x3000
}

pub(crate) fn char_is_whitespace(c: char) -> (b: bool)
    ensures
        b == is_whitespace_char(c),
{
    let u = c as u32;
    (0x09 <= u && u <= 0x0d) || u == 0x20 || u == 0x85 || u == 0xa0 || u == 0x1680 || (0x2000
        <= u && u <= 0x200a) || u == 0x2028 || u == 0x2029 || u == 0x202f || u == 0x205f || u
        == 0x3000
}

/// `s` without its leading whitespace.
pub open spec fn trim_start(s: Seq<char>) -> Seq<char>
    decreases s.len(),
{
    if s.len() > 0 && is_whitespace_char(s[0]) {
        trim_start(s.drop_first())
    } else {
        s
    }
}

/// `s` without its trailing whitespace.
pub open spec fn trim_end(s: Seq<char>) -> Seq<char>
    decreases s.len(),
{
    if s.len() > 0 && is_whitespace_char(s.last()) {
        trim_end(s.drop_last())
    } else {
        s
    }
}

/// `s` without leading and trailing whitespace (`str::trim`).
pub open spec fn trimmed(s: Seq<char>) -> Seq<char> {
    trim_end(trim_start(s))
}

/// The bounds of `chars[from..to]` once trimmed.
pub(crate) fn trim_range(chars: &Vec<char>, from: usize, to: usize) -> (range: (usize, usize))
    requires
        from <= to <= chars@.len(),
    ensures
        from <= range.0 <= range.1 <= to,
        chars@.subrange(range.0 as int, range.1 as int) == trimmed(
            chars@.subrange(from as int, to as int),
        ),
{
    let mut a = from;
    while a < to && char_is_whitespace(chars[a])
        invariant
            from <= a <= to <= chars@.len(),
            trim_start(chars@.subrange(from as int, to as int)) == trim_start(
                chars@.subrange(a as int, to as int),
            ),
        decreases to - a,
    {
        assert(chars@.subrange(a as int, to as int).drop_first() =~= chars@.subrange(
            a + 1,
            to as int,
        ));
        a += 1;
    }
    let mut b = to;
    while b > a && char_is_whitespace(chars[b - 1])
        invariant
            from <= a <= b <= to <= chars@.len(),
            trim_start(chars@.subrange(from as int, to as int)) == chars@.subrange(
                a as int,
                to as int,
            ),
            trim_end(chars@.subrange(a as int, to as int)) == trim_end(
                chars@.subrange(a as int, b as int),
            ),
        decreases b - a,
    {
        assert(chars@.subrange(a as int, b as int).drop_last() =~= chars@.subrange(
            a as int,
            b - 1,
        ));
        b -= 1;
    }
    (a, b)
}

/// The lower-case form of `s`, as `str::to_lowercase` gives it.
pub uninterp spec fn lowercase(s: Seq<char>) -> Seq<char>;

/// Calls `str::to_lowercase`, which maps each character to its Unicode
/// lower-case mapping (with the context rule for a final sigma). The
/// contract only names the result: it depends on `s` alone.
#[verifier::external_body]
pub(crate) fn to_lowercase(s: &str) -> (lower: String)
    ensures
        lower@ == lowercase(s@),
{
    s.to_lowercase()
}

/// The text that `String::from_utf8_lossy` decodes from `bytes`.
pub uninterp spec fn utf8_lossy(bytes: Seq<u8>) -> Seq<char>;

/// Calls `String::from_utf8_lossy`, which decodes UTF-8 and puts U+FFFD in
/// place of each invalid sequence. The contract only names the result: it
/// depends on `bytes` alone.
#[verifier::external_body]
pub(crate) fn decode_utf8_lossy(bytes: &[u8]) -> (text: String)
    ensures
        text@ == utf8_lossy(bytes@),
{
    String::from_utf8_lossy(bytes).into_owned()
}


/// The decimal digit `d` as a character.
pub open spec fn digit_char(d: nat) -> char {
    if d == 0 {
        '0'
    } else if d == 1 {
        '1'
    } else if d == 2 {
        '2'
    } else if d == 3 {
        '3'
    } else if d == 4 {
        '4'
    } else if d == 5 {
        '5'
    } else if d == 6 {
        '6'
    } else if d == 7 {
        '7'
    } else if d == 8 {
        '8'
    } else {
        '9'
    }
}

/// The decimal representation of `n`, without leading zeros.
pub open spec fn decimal(n: nat) -> Seq<char>
    decreases n,
{
    if n < 10 {
        seq![digit_char(n)]
    } else {
        decimal(n / 10).push(digit_char(n % 10))
    }
}

/// The decimal representation of `n`, with a minus sign where negative.
pub open spec fn signed_decimal(n: int) -> Seq<char> {
    if n < 0 {
        seq!['-'] + decimal((-n) as nat)
    } else {
        decimal(n as nat)
    }
}

fn digit(d: u64) -> (c: char)
    requires
        d < 10,
    ensures
        c == digit_char(d as nat),
{
    if d == 0 {
        '0'
    } else if d == 1 {
        '1'
    } else if d == 2 {
        '2'
    } else if d == 3 {
        '3'
    } else if d == 4 {
        '4'
    } else if d == 5 {
        '5'
    } else if d == 6 {
        '6'
    } else if d == 7 {
        '7'
    } else if d == 8 {
        '8'
    } else {
        '9'
    }
}

/// Appends the decimal representation of `n` to `s`.
pub(crate) fn push_decimal(s: &mut String, n: u64)
    ensures
        final(s)@ == old(s)@ + decimal(n as nat),
    decreases n,
{
    if n >= 10 {
        push_decimal(s, n / 10);
    }
    push_char(s, digit(n % 10));
    assert(decimal(n as nat) =~= if n < 10 {
        seq![digit_char(n as nat)]
    } else {
        decimal((n / 10) as nat).push(digit_char((n % 10) as nat))
    });
}

/// Appends the decimal representation of `n` to `s`, with a minus sign
/// where negative.
pub(crate) fn push_signed_decimal(s: &mut String, n: i64)
    ensures
        final(s)@ == old(s)@ + signed_decimal(n as int),
{
    if n < 0 {
        push_char(s, '-');
        let magnitude: u64 = if n == i64::MIN {
            9223372036854775808u64
        } else {
            (-n) as u64
        };
        push_decimal(s, magnitude);
        assert(final(s)@ =~= old(s)@ + signed_decimal(n as int));
    } else {
        push_decimal(s, n as u64);
    }
}

/// `s` without the copies of `c` that start it.
pub open spec fn strip_leading(s: Seq<char>, c: char) -> Seq<char>
    decreases s.len(),
{
    if s.len() > 0 && s[0] == c {
        strip_leading(s.drop_first(), c)
    } else {
        s
    }
}

/// `s` without the copies of `c` that end it.
pub open spec fn strip_trailing(s: Seq<char>, c: char) -> Seq<char>
    decreases s.len(),
{
    if s.len() > 0 && s.last() == c {
        strip_trailing(s.drop_last(), c)
    } else {
        s
    }
}

/// `s` without trailing NUL characters (`trim_end_matches('\0')`).
pub(crate) fn trim_nul_end(s: &str) -> (trimmed: String)
    ensures
        trimmed@ == strip_trailing(s@, '\0'),
{
    let chars = chars_of(s);
    let mut b = chars.len();
    assert(chars@.subrange(0, b as int) =~= chars@);
    while b > 0 && chars[b - 1] == '\0'
        invariant
            b <= chars@.len(),
            strip_trailing(chars@, '\0') == strip_trailing(chars@.subrange(0, b as int), '\0'),
        decreases b,
    {
        assert(chars@.subrange(0, b as int).drop_last() =~= chars@.subrange(0, b - 1));
        b -= 1;
    }
    string_from_chars(&chars, 0, b)
}

/// `s` without leading or trailing NUL characters (`trim_matches('\0')`).
pub(crate) fn trim_nul(s: &str) -> (trimmed: String)
    ensures
        trimmed@ == strip_trailing(strip_leading(s@, '\0'), '\0'),
{
    let chars = chars_of(s);
    let n = chars.len();
    let mut a: usize = 0;
    assert(chars@.subrange(0, n as int) =~= chars@);
    while a < n && chars[a] == '\0'
        invariant
            a <= n == chars@.len(),
            strip_leading(chars@, '\0') == strip_leading(chars@.subrange(a as int, n as int), '\0'),
        decreases n - a,
    {
        assert(chars@.subrange(a as int, n as int).drop_first() =~= chars@.subrange(
            a + 1,
            n as int,
        ));
        a += 1;
    }
    let mut b = n;
    while b > a && chars[b - 1] == '\0'
        invariant
            a <= b <= n == chars@.len(),
            strip_leading(chars@, '\0') == chars@.subrange(a as int, n as int),
            strip_trailing(chars@.subrange(a as int, n as int), '\0') == strip_trailing(
                chars@.subrange(a as int, b as int),
                '\0',
            ),
        decreases b - a,
    {
        assert(chars@.subrange(a as int, b as int).drop_last() =~= chars@.subrange(
            a as int,
            b - 1,
        ));
        b -= 1;
    }
    string_from_chars(&chars, a, b)
}

/// `s` with every occurrence of `pattern` removed, scanning from the left
/// (`str::replace(pattern, "")`).
pub open spec fn remove_all(s: Seq<char>, pattern: Seq<char>) -> Seq<char>
    decreases s.len(),
{
    if pattern.len() == 0 || s.len() < pattern.len() {
        s
    } else if s.take(pattern.len() as int) == pattern {
        remove_all(s.skip(pattern.len() as int), pattern)
    } else {
        seq![s[0]] + remove_all(s.drop_first(), pattern)
    }
}

/// Whether `chars[at..]` starts with `pattern`.
fn matches_at(chars: &Vec<char>, at: usize, pattern: &Vec<char>) -> (b: bool)
    requires
        at + pattern@.len() <= chars@.len(),
    ensures
        b == (chars@.subrange(at as int, at + pattern@.len()) == pattern@),
{
    let mut k: usize = 0;
    while k < pattern.len()
        invariant
            k <= pattern@.len(),
            at + pattern@.len() <= chars.len(),
            forall|j: int| 0 <= j < k ==> chars@[at + j] == pattern@[j],
        decreases pattern@.len() - k,
    {
        if chars[at + k] != pattern[k] {
            assert(chars@.subrange(at as int, at + pattern@.len())[k as int] != pattern@[k as int]);
            return false;
        }
        k += 1;
    }
    assert(chars@.subrange(at as int, at + pattern@.len()) =~= pattern@);
    true
}

/// `s` with every occurrence of `pattern` removed, scanning from the left.
pub(crate) fn remove_pattern(s: &str, pattern: &str) -> (removed: String)
    ensures
        removed@ == remove_all(s@, pattern@),
{
    let chars = chars_of(s);
    let pat = chars_of(pattern);
    let n = chars.len();
    let p = pat.len();
    let mut out = String::new();
    let mut i: usize = 0;
    assert(chars@.skip(0) =~= chars@);
    while i < n
        invariant
            n == chars@.len(),
            chars@ == s@,
            p == pat@.len(),
            pat@ == pattern@,
            i <= n,
            out@ + remove_all(chars@.skip(i as int), pat@) == remove_all(chars@, pat@),
        decreases n - i,
    {
        let ghost rest = chars@.skip(i as int);
        if p == 0 || n - i < p {
            proof {
                assert(remove_all(rest, pat@) == rest);
            }
            let tail = string_from_chars(&chars, i, n);
            assert(tail@ =~= rest);
            let mut result = out;
            result.append(tail.as_str());
            assert(result@ =~= remove_all(chars@, pat@));
            return result;
        }
        if matches_at(&chars, i, &pat) {
            assert(rest.take(p as int) =~= chars@.subrange(i as int, i + p));
            assert(rest.skip(p as int) =~= chars@.skip(i + p));
            i += p;
        } else {
            assert(rest.take(p as int) =~= chars@.subrange(i as int, i + p));
            assert(rest.drop_first() =~= chars@.skip(i + 1));
            assert(rest[0] == chars@[i as int]);
            let ghost before = out@;
            push_char(&mut out, chars[i]);
            assert(out@ + remove_all(chars@.skip(i + 1), pat@) =~= before + (seq![chars@[i as int]]
                + remove_all(chars@.skip(i + 1), pat@)));
            i += 1;
        }
    }
    assert(chars@.skip(n as int) =~= Seq::<char>::empty());
    assert(out@ + Seq::<char>::empty() =~= out@);
    out
}

/// The non-empty pieces of `s` between the copies of `separator`, in order
/// (`str::split(separator)` without the empty pieces).
pub open spec fn nonempty_fields(s: Seq<char>, separator: char) -> Seq<Seq<char>>
    decreases s.len(),
{
    let pos = char_position(s, separator);
    if pos >= s.len() {
        if s.len() > 0 {
            seq![s]
        } else {
            Seq::empty()
        }
    } else {
        let rest = nonempty_fields(s.skip((pos + 1) as int), separator);
        if pos > 0 {
            seq![s.take(pos as int)] + rest
        } else {
            rest
        }
    }
}

/// The non-empty pieces of `s` between the copies of `separator`, in order.
pub(crate) fn split_nonempty(s: &str, separator: char) -> (fields: Vec<String>)
    ensures
        fields@.len() == nonempty_fields(s@, separator).len(),
        forall|i: int|
            0 <= i < fields@.len() ==> #[trigger] fields@[i]@ == nonempty_fields(s@, separator)[i],
{
    let chars = chars_of(s);
    let n = chars.len();
    let mut fields: Vec<String> = Vec::new();
    let mut pos: usize = 0;
    let ghost mut done: Seq<Seq<char>> = Seq::empty();
    assert(chars@.skip(0) =~= chars@);
    while pos < n
        invariant
            n == chars@.len(),
            pos <= n,
            done + nonempty_fields(chars@.skip(pos as int), separator) == nonempty_fields(
                chars@,
                separator,
            ),
            fields@.len() == done.len(),
            forall|i: int| 0 <= i < fields@.len() ==> #[trigger] fields@[i]@ == done[i],
        decreases n - pos,
    {
        let ghost rest = chars@.skip(pos as int);
        let end = find_char(&chars, pos, n, separator);
        assert(chars@.subrange(pos as int, n as int) =~= rest);
        proof {
            lemma_char_position_bound(rest, separator);
        }
        if end > pos {
            let field = string_from_chars(&chars, pos, end);
            fields.push(field);
            proof {
                done = done.push(chars@.subrange(pos as int, end as int));
            }
        }
        if end < n {
            proof {
                assert(rest.skip(end - pos + 1) =~= chars@.skip(end + 1));
                assert(rest.take(end - pos) =~= chars@.subrange(pos as int, end as int));
                if end > pos {
                    assert(done + nonempty_fields(chars@.skip(end + 1), separator) =~= done.drop_last()
                        + nonempty_fields(rest, separator));
                }
            }
            pos = end + 1;
        } else {
            proof {
                assert(chars@.skip(n as int) =~= Seq::<char>::empty());
                assert(rest =~= chars@.subrange(pos as int, n as int));
                if end > pos {
                    assert(done + nonempty_fields(chars@.skip(n as int), separator) =~= done.drop_last()
                        + nonempty_fields(rest, separator));
                }
            }
            pos = n;
        }
    }
    assert(chars@.skip(n as int) =~= Seq::<char>::empty());
    assert(done + nonempty_fields(chars@.skip(n as int), separator) =~= done);
    fields
}


/// The texts of `strings`, in order.
pub open spec fn string_views(strings: Seq<String>) -> Seq<Seq<char>> {
    strings.map_values(|s: String| s@)
}

/// `parts` joined with `separator` between each two (`slice::join`).
pub open spec fn joined(parts: Seq<Seq<char>>, separator: Seq<char>) -> Seq<char>
    decreases parts.len(),
{
    if parts.len() == 0 {
        Seq::empty()
    } else if parts.len() == 1 {
        parts[0]
    } else {
        joined(parts.drop_last(), separator) + separator + parts.last()
    }
}

/// `parts` joined with `separator` between each two.
pub(crate) fn join_strings(parts: &Vec<String>, separator: &str) -> (text: String)
    ensures
        text@ == joined(string_views(parts@), separator@),
{
    let mut text = String::new();
    let mut i: usize = 0;
    while i < parts.len()
        invariant
            i <= parts@.len(),
            text@ == joined(string_views(parts@.take(i as int)), separator@),
        decreases parts@.len() - i,
    {
        let ghost before = string_views(parts@.take(i as int));
        let ghost after = string_views(parts@.take(i + 1));
        assert(after.drop_last() =~= before);
        assert(after.last() == parts@[i as int]@);
        if i > 0 {
            text.append(separator);
        }
        text.append(parts[i].as_str());
        proof {
            if i == 0 {
                assert(text@ =~= joined(after, separator@));
            } else {
                assert(text@ =~= joined(after, separator@));
            }
        }
        i += 1;
    }
    assert(parts@.take(parts@.len() as int) =~= parts@);
    text
}


/// Whether `pattern` occurs in `s` at position `at`.
pub open spec fn occurs_at(s: Seq<char>, pattern: Seq<char>, at: int) -> bool {
    0 <= at && at + pattern.len() <= s.len() && s.subrange(at, at + pattern.len()) == pattern
}

/// Whether `pattern` occurs somewhere in `s` (`str::contains`).
pub open spec fn contains_pattern(s: Seq<char>, pattern: Seq<char>) -> bool {
    exists|at: int| #[trigger] occurs_at(s, pattern, at)
}

/// Whether `pattern` occurs in `s`.
pub(crate) fn contains_str(s: &str, pattern: &str) -> (found: bool)
    ensures
        found == contains_pattern(s@, pattern@),
{
    let chars = chars_of(s);
    let pat = chars_of(pattern);
    let n = chars.len();
    let p = pat.len();
    if p > n {
        assert forall|at: int| !occurs_at(s@, pattern@, at) by {}
        return false;
    }
    if p == 0 {
        assert(s@.subrange(0, 0) =~= pattern@);
        assert(occurs_at(s@, pattern@, 0));
        return true;
    }
    let mut i: usize = 0;
    while i <= n - p
        invariant
            1 <= p <= n,
            n == chars@.len(),
            chars@ == s@,
            p == pat@.len(),
            pat@ == pattern@,
            i <= n - p + 1,
            forall|at: int| 0 <= at < i ==> !occurs_at(s@, pattern@, at),
        decreases n - p + 1 - i,
    {
        if matches_at(&chars, i, &pat) {
            assert(occurs_at(s@, pattern@, i as int));
            return true;
        }
        i += 1;
    }
    assert forall|at: int| !occurs_at(s@, pattern@, at) by {
        if 0 <= at < i {
        }
    }
    false
}

/// Whether `s` starts with `prefix`.
pub open spec fn starts_with(s: Seq<char>, prefix: Seq<char>) -> bool {
    prefix.len() <= s.len() && s.take(prefix.len() as int) == prefix
}

/// Whether `s` starts with `prefix` (`str::starts_with`).
pub(crate) fn starts_with_str(s: &str, prefix: &str) -> (found: bool)
    ensures
        found == starts_with(s@, prefix@),
{
    let chars = chars_of(s);
    let pat = chars_of(prefix);
    if pat.len() > chars.len() {
        return false;
    }
    let found = matches_at(&chars, 0, &pat);
    assert(chars@.subrange(0, pat@.len() as int) =~= chars@.take(pat@.len() as int));
    found
}

} // verus!
