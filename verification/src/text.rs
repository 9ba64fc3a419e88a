//! Text helpers shared by the repositories.

use vstd::prelude::*;

verus! {

/// `String::push`: appends one character.
#[verifier::external_body]
pub(crate) fn push_char(s: &mut String, c: char)
    ensures
        final(s)@ == old(s)@.push(c),
{
    s.push(c);
}

/// The LIKE-escaped form of one character: `\`, `%` and `_` gain a leading backslash.
pub open spec fn like_escape_char(c: char) -> Seq<char> {
    if c == '\\' || c == '%' || c == '_' {
        seq!['\\', c]
    } else {
        seq![c]
    }
}

/// The LIKE-escaped form of a text: each character escaped in turn.
pub open spec fn like_escaped(s: Seq<char>) -> Seq<char>
    decreases s.len(),
{
    if s.len() == 0 {
        Seq::empty()
    } else {
        like_escaped(s.drop_last()) + like_escape_char(s.last())
    }
}

/// Escapes the LIKE wildcards `%` and `_` and the escape character `\` itself.
pub fn escape_like_pattern(raw: &str) -> (escaped: String)
    ensures
        escaped@ == like_escaped(raw@),
{
    let mut escaped = String::new();
    for ch in it: raw.chars()
        invariant
            it.seq() == raw@,
            escaped@ == like_escaped(raw@.take(it.index())),
    {
        assert(raw@.take(it.index() + 1).drop_last() == raw@.take(it.index()));
        if ch == '\\' || ch == '%' || ch == '_' {
            push_char(&mut escaped, '\\');
        }
        push_char(&mut escaped, ch);
    }
    assert(raw@.take(raw@.len() as int) == raw@);
    escaped
}

/// The text `a` followed by the text `b`.
pub fn concat(a: &str, b: &str) -> (r: String)
    ensures
        r@ == a@ + b@,
{
    let mut r = a.to_string();
    r.append(b);
    r
}

/// The text `a`, then `b`, then `c`.
pub fn concat3(a: &str, b: &str, c: &str) -> (r: String)
    ensures
        r@ == a@ + b@ + c@,
{
    let mut r = a.to_string();
    r.append(b);
    r.append(c);
    r
}

/// What `str::to_lowercase` returns for a text: Unicode lower-case mapping, char by char,
/// with the context rule for final sigma. Its tables are Unicode's, so it is named, not spelled out.
pub uninterp spec fn lowercase(s: Seq<char>) -> Seq<char>;

/// `str::to_lowercase`; its result is the named Unicode lower-casing of its argument.
#[verifier::external_body]
pub(crate) fn to_lowercase(s: &str) -> (r: String)
    ensures
        r@ == lowercase(s@),
{
    s.to_lowercase()
}

/// `char::is_whitespace`: the characters with Unicode's `White_Space` property.
pub open spec fn is_whitespace(c: char) -> bool {
    ||| ('\u{9}' <= c && c <= '\u{d}')
    ||| c == ' '
    ||| c == '\u{85}'
    ||| c == '\u{a0}'
    ||| c == '\u{1680}'
    ||| ('\u{2000}' <= c && c <= '\u{200a}')
    ||| c == '\u{2028}'
    ||| c == '\u{2029}'
    ||| c == '\u{202f}'
    ||| c == '\u{205f}'
    ||| c == '\u{3000}'
}

/// Decides [`is_whitespace`].
pub fn char_is_whitespace(c: char) -> (b: bool)
    ensures
        b == is_whitespace(c),
{
    ('\u{9}' <= c && c <= '\u{d}') || c == ' ' || c == '\u{85}' || c == '\u{a0}'
        || c == '\u{1680}' || ('\u{2000}' <= c && c <= '\u{200a}') || c == '\u{2028}'
        || c == '\u{2029}' || c == '\u{202f}' || c == '\u{205f}' || c == '\u{3000}'
}

/// The text without its leading whitespace.
pub open spec fn trim_start(s: Seq<char>) -> Seq<char>
    decreases s.len(),
{
    if s.len() > 0 && is_whitespace(s[0]) {
        trim_start(s.drop_first())
    } else {
        s
    }
}

/// The text without its trailing whitespace.
pub open spec fn trim_end(s: Seq<char>) -> Seq<char>
    decreases s.len(),
{
    if s.len() > 0 && is_whitespace(s.last()) {
        trim_end(s.drop_last())
    } else {
        s
    }
}

/// `str::trim`: the text without leading and trailing whitespace.
pub open spec fn trimmed(s: Seq<char>) -> Seq<char> {
    trim_end(trim_start(s))
}

/// The characters of a text, in order.
pub fn chars_of(s: &str) -> (v: Vec<char>)
    ensures
        v@ == s@,
{
    let mut v: Vec<char> = Vec::new();
    for ch in it: s.chars()
        invariant
            it.seq() == s@,
            v@ == s@.take(it.index()),
    {
        v.push(ch);
        assert(v@ =~= s@.take(it.index() + 1));
    }
    assert(s@.take(s@.len() as int) =~= s@);
    v
}

/// The text made of `v[from..to]`.
pub fn string_from_chars(v: &Vec<char>, from: usize, to: usize) -> (s: String)
    requires
        from <= to <= v.len(),
    ensures
        s@ == v@.subrange(from as int, to as int),
{
    let mut s = String::new();
    let mut i = from;
    while i < to
        invariant
            from <= i <= to <= v.len(),
            s@ == v@.subrange(from as int, i as int),
        decreases to - i,
    {
        push_char(&mut s, v[i]);
        assert(s@ =~= v@.subrange(from as int, i + 1));
        i = i + 1;
    }
    s
}

proof fn lemma_trim_start_skip(s: Seq<char>, i: int)
    requires
        0 <= i <= s.len(),
        forall|k: int| 0 <= k < i ==> is_whitespace(#[trigger] s[k]),
    ensures
        trim_start(s) == trim_start(s.skip(i)),
    decreases i,
{
    if i > 0 {
        assert(is_whitespace(s[0]));
        assert(s.drop_first().skip(i - 1) =~= s.skip(i));
        assert forall|k: int| 0 <= k < i - 1 implies is_whitespace(#[trigger] s.drop_first()[k]) by {
            assert(s.drop_first()[k] == s[k + 1]);
        }
        lemma_trim_start_skip(s.drop_first(), i - 1);
    } else {
        assert(s.skip(0) =~= s);
    }
}

proof fn lemma_trim_end_take(s: Seq<char>, j: int)
    requires
        0 <= j <= s.len(),
        forall|k: int| j <= k < s.len() ==> is_whitespace(#[trigger] s[k]),
    ensures
        trim_end(s) == trim_end(s.take(j)),
    decreases s.len() - j,
{
    if j < s.len() {
        assert(is_whitespace(s[s.len() - 1]));
        assert(s.drop_last().take(j) =~= s.take(j));
        lemma_trim_end_take(s.drop_last(), j);
    } else {
        assert(s.take(j) =~= s);
    }
}

/// `str::trim`: removes leading and trailing whitespace.
pub fn trim(s: &str) -> (r: String)
    ensures
        r@ == trimmed(s@),
{
    let v = chars_of(s);
    let n = v.len();
    let mut i: usize = 0;
    while i < n && char_is_whitespace(v[i])
        invariant
            i <= n == v@.len(),
            forall|k: int| 0 <= k < i ==> is_whitespace(#[trigger] v@[k]),
        decreases n - i,
    {
        i = i + 1;
    }
    proof {
        lemma_trim_start_skip(v@, i as int);
    }
    let mut j: usize = n;
    while j > i && char_is_whitespace(v[j - 1])
        invariant
            i <= j <= n == v@.len(),
            forall|k: int| j <= k < n ==> is_whitespace(#[trigger] v@[k]),
        decreases j,
    {
        j = j - 1;
    }
    let r = string_from_chars(&v, i, j);
    proof {
        let u = v@.skip(i as int);
        if i < n {
            assert(u[0] == v@[i as int]);
        }
        assert(trim_start(u) == u);
        lemma_trim_end_take(u, j - i);
        assert(u.take(j - i) =~= v@.subrange(i as int, j as int));
        let w = v@.subrange(i as int, j as int);
        if j > i {
            assert(w.last() == v@[j - 1]);
        }
        assert(trim_end(w) == w);
    }
    r
}

/// Whether two texts are equal.
pub fn str_eq(a: &str, b: &str) -> (r: bool)
    ensures
        r == (a@ == b@),
{
    let va = chars_of(a);
    let vb = chars_of(b);
    if va.len() != vb.len() {
        return false;
    }
    let mut i: usize = 0;
    while i < va.len()
        invariant
            i <= va@.len() == vb@.len(),
            va@ == a@,
            vb@ == b@,
            forall|k: int| 0 <= k < i ==> va@[k] == vb@[k],
        decreases va@.len() - i,
    {
        if va[i] != vb[i] {
            return false;
        }
        i = i + 1;
    }
    assert(va@ =~= vb@);
    true
}

/// The text with `prefix` removed when it starts with it; otherwise the text itself.
pub open spec fn strip_prefix_or_self(s: Seq<char>, prefix: Seq<char>) -> Seq<char> {
    if prefix.is_prefix_of(s) {
        s.skip(prefix.len() as int)
    } else {
        s
    }
}

/// Whether the text starts with the prefix.
pub fn starts_with(s: &str, prefix: &str) -> (b: bool)
    ensures
        b == prefix@.is_prefix_of(s@),
{
    let v = chars_of(s);
    let p = chars_of(prefix);
    if p.len() > v.len() {
        return false;
    }
    let mut i: usize = 0;
    while i < p.len()
        invariant
            i <= p@.len() <= v@.len(),
            v@ == s@,
            p@ == prefix@,
            forall|k: int| 0 <= k < i ==> p@[k] == v@[k],
        decreases p@.len() - i,
    {
        if p[i] != v[i] {
            return false;
        }
        i = i + 1;
    }
    true
}

/// `s.strip_prefix(prefix).unwrap_or(s)`.
pub fn strip_prefix_or_self_exec(s: &str, prefix: &str) -> (r: String)
    ensures
        r@ == strip_prefix_or_self(s@, prefix@),
{
    let v = chars_of(s);
    let p = chars_of(prefix);
    if starts_with(s, prefix) {
        string_from_chars(&v, p.len(), v.len())
    } else {
        string_from_chars(&v, 0, v.len())
    }
}

/// The decimal digit characters, by value.
pub open spec fn digit_chars() -> Seq<char> {
    seq!['0', '1', '2', '3', '4', '5', '6', '7', '8', '9']
}

/// The decimal digits of a natural number, most significant first, without leading zeros.
pub open spec fn decimal_digits(n: nat) -> Seq<char>
    decreases n,
{
    if n < 10 {
        seq![digit_chars()[n as int]]
    } else {
        decimal_digits(n / 10).push(digit_chars()[(n % 10) as int])
    }
}

/// The decimal text of an integer, as `{}` formats it: a minus sign before negative numbers.
pub open spec fn decimal_text(n: int) -> Seq<char> {
    if n < 0 {
        seq!['-'] + decimal_digits((-n) as nat)
    } else {
        decimal_digits(n as nat)
    }
}

fn digit_char(d: u64) -> (c: char)
    requires
        d < 10,
    ensures
        c == digit_chars()[d as int],
{
    if d == 0 {
        '0'
    } else if d == 1 {
        '1'
    } else if d == 2 {
        '2'
    } else if d == 3 {
        '3'
    } else if d == 4 {
        '4'
    } else if d == 5 {
        '5'
    } else if d == 6 {
        '6'
    } else if d == 7 {
        '7'
    } else if d == 8 {
        '8'
    } else {
        '9'
    }
}

fn push_digits(s: &mut String, n: u64)
    ensures
        final(s)@ == old(s)@ + decimal_digits(n as nat),
    decreases n,
{
    if n >= 10 {
        push_digits(s, n / 10);
    }
    push_char(s, digit_char(n % 10));
}

/// The decimal text of a signed integer.
pub fn decimal_i64(n: i64) -> (r: String)
    ensures
        r@ == decimal_text(n as int),
{
    let mut r = String::new();
    if n < 0 {
        push_char(&mut r, '-');
        let m: u64 = if n == i64::MIN {
            9223372036854775808u64
        } else {
            (-n) as u64
        };
        push_digits(&mut r, m);
    } else {
        push_digits(&mut r, n as u64);
    }
    r
}

/// The decimal text of an unsigned integer.
pub fn decimal_u64(n: u64) -> (r: String)
    ensures
        r@ == decimal_text(n as int),
{
    let mut r = String::new();
    push_digits(&mut r, n);
    r
}

/// The text with `suffix` removed when it ends with it; otherwise the text itself.
pub open spec fn strip_suffix_or_self(s: Seq<char>, suffix: Seq<char>) -> Seq<char> {
    if suffix.len() <= s.len() && s.skip(s.len() - suffix.len()) == suffix {
        s.take(s.len() - suffix.len())
    } else {
        s
    }
}

/// `s.strip_suffix(suffix).unwrap_or(s)`.
pub fn strip_suffix_or_self_exec(s: &str, suffix: &str) -> (r: String)
    ensures
        r@ == strip_suffix_or_self(s@, suffix@),
{
    let v = chars_of(s);
    let p = chars_of(suffix);
    if p.len() > v.len() {
        return string_from_chars(&v, 0, v.len());
    }
    let start = v.len() - p.len();
    let mut i: usize = 0;
    while i < p.len()
        invariant
            i <= p@.len(),
            start + p@.len() == v@.len(),
            v@.len() == v.len(),
            p@.len() == p.len(),
            v@ == s@,
            p@ == suffix@,
            forall|k: int| 0 <= k < i ==> p@[k] == v@[start + k],
        decreases p@.len() - i,
    {
        if p[i] != v[start + i] {
            proof {
                assert(s@.skip(s@.len() - suffix@.len())[i as int] != suffix@[i as int]);
            }
            return string_from_chars(&v, 0, v.len());
        }
        i = i + 1;
    }
    assert(s@.skip(s@.len() - suffix@.len()) =~= suffix@);
    string_from_chars(&v, 0, start)
}

/// How a LIKE pattern with the escape character `\\` reads a text: an escape character
/// takes the next character literally; every other character stands for itself.
pub open spec fn like_unescaped(t: Seq<char>) -> Seq<char>
    decreases t.len(),
{
    if t.len() == 0 {
        Seq::empty()
    } else if t[0] == '\\' && t.len() >= 2 {
        seq![t[1]] + like_unescaped(t.skip(2))
    } else {
        seq![t[0]] + like_unescaped(t.skip(1))
    }
}

/// Whether a LIKE pattern, read as [`like_unescaped`] reads it, holds no wildcard of its own:
/// every `%` and `_` in it is taken literally.
pub open spec fn no_bare_wildcards(t: Seq<char>) -> bool
    decreases t.len(),
{
    if t.len() == 0 {
        true
    } else if t[0] == '\\' && t.len() >= 2 {
        no_bare_wildcards(t.skip(2))
    } else {
        t[0] != '%' && t[0] != '_' && no_bare_wildcards(t.skip(1))
    }
}

proof fn lemma_like_escaped_append(a: Seq<char>, b: Seq<char>)
    ensures
        like_escaped(a + b) == like_escaped(a) + like_escaped(b),
    decreases b.len(),
{
    if b.len() == 0 {
        assert(a + b =~= a);
        assert(like_escaped(a) + like_escaped(b) =~= like_escaped(a));
    } else {
        assert((a + b).drop_last() =~= a + b.drop_last());
        assert((a + b).last() == b.last());
        lemma_like_escaped_append(a, b.drop_last());
        assert(like_escaped(a + b) =~= like_escaped(a) + like_escaped(b));
    }
}

proof fn lemma_like_escaped_front(s: Seq<char>)
    requires
        s.len() > 0,
    ensures
        like_escaped(s) == like_escape_char(s[0]) + like_escaped(s.skip(1)),
{
    assert(s =~= seq![s[0]] + s.skip(1));
    lemma_like_escaped_append(seq![s[0]], s.skip(1));
    assert(seq![s[0]].drop_last() =~= Seq::<char>::empty());
    assert(like_escaped(Seq::<char>::empty()) == Seq::<char>::empty());
    assert(seq![s[0]].last() == s[0]);
    assert(like_escaped(seq![s[0]]) =~= like_escape_char(s[0]));
}

/// Escaping loses nothing: a LIKE pattern reads an escaped text back as the text itself.
pub proof fn lemma_like_escape_round_trip(s: Seq<char>)
    ensures
        like_unescaped(like_escaped(s)) == s,
    decreases s.len(),
{
    if s.len() > 0 {
        lemma_like_escaped_front(s);
        lemma_like_escape_round_trip(s.skip(1));
        let e = like_escape_char(s[0]);
        let rest = like_escaped(s.skip(1));
        let t = e + rest;
        if s[0] == '\\' || s[0] == '%' || s[0] == '_' {
            assert(t[0] == '\\');
            assert(t[1] == s[0]);
            assert(t.skip(2) =~= rest);
        } else {
            assert(t[0] == s[0]);
            assert(t.skip(1) =~= rest);
        }
        assert(seq![s[0]] + s.skip(1) =~= s);
    }
}

/// Escaping leaves no wildcard: every `%` and `_` of an escaped text matches literally.
pub proof fn lemma_like_escaped_literal(s: Seq<char>)
    ensures
        no_bare_wildcards(like_escaped(s)),
    decreases s.len(),
{
    if s.len() > 0 {
        lemma_like_escaped_front(s);
        lemma_like_escaped_literal(s.skip(1));
        let e = like_escape_char(s[0]);
        let rest = like_escaped(s.skip(1));
        let t = e + rest;
        if s[0] == '\\' || s[0] == '%' || s[0] == '_' {
            assert(t[0] == '\\');
            assert(t.skip(2) =~= rest);
        } else {
            assert(t[0] == s[0]);
            assert(t.skip(1) =~= rest);
        }
    }
}


/// Removing a prefix or suffix removes exactly it: what is left, with the prefix put back in
/// front (or the suffix at the end), is the text; a text without it is left as it is.
pub proof fn lemma_strip_affix(s: Seq<char>, affix: Seq<char>)
    ensures
        affix.is_prefix_of(s) ==> affix + strip_prefix_or_self(s, affix) == s,
        !affix.is_prefix_of(s) ==> strip_prefix_or_self(s, affix) == s,
        (affix.len() <= s.len() && s.skip(s.len() - affix.len()) == affix) ==> strip_suffix_or_self(s, affix) + affix == s,
        !(affix.len() <= s.len() && s.skip(s.len() - affix.len()) == affix) ==> strip_suffix_or_self(s, affix) == s,
{
    if affix.is_prefix_of(s) {
        assert(affix + s.skip(affix.len() as int) =~= s);
    }
    if affix.len() <= s.len() && s.skip(s.len() - affix.len()) == affix {
        assert(s.take(s.len() - affix.len()) + s.skip(s.len() - affix.len()) =~= s);
    }
}

proof fn lemma_trim_start_skips(s: Seq<char>) -> (i: int)
    ensures
        0 <= i <= s.len(),
        trim_start(s) == s.skip(i),
        forall|k: int| 0 <= k < i ==> is_whitespace(#[trigger] s[k]),
        i < s.len() ==> !is_whitespace(s[i]),
    decreases s.len(),
{
    if s.len() > 0 && is_whitespace(s[0]) {
        let j = lemma_trim_start_skips(s.drop_first());
        assert(s.drop_first().skip(j) =~= s.skip(j + 1));
        assert forall|k: int| 0 <= k < j + 1 implies is_whitespace(#[trigger] s[k]) by {
            if k > 0 {
                assert(s[k] == s.drop_first()[k - 1]);
            }
        }
        if j + 1 < s.len() {
            assert(s[j + 1] == s.drop_first()[j]);
        }
        j + 1
    } else {
        assert(s.skip(0) =~= s);
        0
    }
}

proof fn lemma_trim_end_takes(s: Seq<char>) -> (j: int)
    ensures
        0 <= j <= s.len(),
        trim_end(s) == s.take(j),
        forall|k: int| j <= k < s.len() ==> is_whitespace(#[trigger] s[k]),
        j > 0 ==> !is_whitespace(s[j - 1]),
    decreases s.len(),
{
    if s.len() > 0 && is_whitespace(s.last()) {
        let j = lemma_trim_end_takes(s.drop_last());
        assert(s.drop_last().take(j) =~= s.take(j));
        assert forall|k: int| j <= k < s.len() implies is_whitespace(#[trigger] s[k]) by {
            if k < s.len() - 1 {
                assert(s[k] == s.drop_last()[k]);
            }
        }
        if j > 0 {
            assert(s[j - 1] == s.drop_last()[j - 1]);
        }
        j
    } else {
        assert(s.take(s.len() as int) =~= s);
        s.len() as int
    }
}

/// Trimming keeps the middle of the text: the part between its leading and its trailing
/// whitespace, which is all whitespace that is cut; the kept part, when not empty, starts and
/// ends with a character that is not whitespace.
pub proof fn lemma_trimmed_is_middle(s: Seq<char>)
    ensures
        exists|i: int, j: int| {
            &&& 0 <= i <= j <= s.len()
            &&& #[trigger] s.subrange(i, j) == trimmed(s)
            &&& forall|k: int| 0 <= k < i ==> is_whitespace(#[trigger] s[k])
            &&& forall|k: int| j <= k < s.len() ==> is_whitespace(#[trigger] s[k])
            &&& i < j ==> !is_whitespace(s[i]) && !is_whitespace(s[j - 1])
        },
{
    let i = lemma_trim_start_skips(s);
    let t = s.skip(i);
    let m = lemma_trim_end_takes(t);
    let j = i + m;
    assert(t.take(m) =~= s.subrange(i, j));
    assert forall|k: int| j <= k < s.len() implies is_whitespace(#[trigger] s[k]) by {
        assert(s[k] == t[k - i]);
    }
    if i < j {
        assert(s[i] == t[0]);
        assert(s[j - 1] == t[m - 1]);
    }
    assert(s.subrange(i, j) == trimmed(s));
}

/// The numeric value of a text of decimal digits, most significant first.
pub open spec fn digits_value(d: Seq<char>) -> int
    decreases d.len(),
{
    if d.len() == 0 {
        0
    } else {
        digits_value(d.drop_last()) * 10 + (d.last() as int - '0' as int)
    }
}

/// The decimal text of a natural number reads back as that number, is made of the digits
/// `0` to `9`, and has no leading zero (except `0` itself).
pub proof fn lemma_decimal_digits_denote(n: nat)
    ensures
        digits_value(decimal_digits(n)) == n,
        forall|k: int| 0 <= k < decimal_digits(n).len() ==> '0' <= #[trigger] decimal_digits(n)[k] <= '9',
        decimal_digits(n).len() >= 1,
        decimal_digits(n)[0] == '0' ==> n == 0,
    decreases n,
{
    assert(digit_chars()[0] == '0' && digit_chars()[1] == '1' && digit_chars()[2] == '2' && digit_chars()[3] == '3'
        && digit_chars()[4] == '4' && digit_chars()[5] == '5' && digit_chars()[6] == '6' && digit_chars()[7] == '7'
        && digit_chars()[8] == '8' && digit_chars()[9] == '9');
    assert('0' as int == 48 && '1' as int == 49 && '2' as int == 50 && '3' as int == 51 && '4' as int == 52
        && '5' as int == 53 && '6' as int == 54 && '7' as int == 55 && '8' as int == 56 && '9' as int == 57);
    assert forall|r: int| 0 <= r < 10 implies #[trigger] digit_chars()[r] as int == 48 + r by {
        if r == 0 {} else if r == 1 {} else if r == 2 {} else if r == 3 {} else if r == 4 {}
        else if r == 5 {} else if r == 6 {} else if r == 7 {} else if r == 8 {} else {}
    }
    if n < 10 {
        let d = decimal_digits(n);
        assert(d.drop_last() =~= Seq::<char>::empty());
        assert(d.last() == digit_chars()[n as int]);
        assert(digit_chars()[n as int] as int == 48 + n);
        assert(digits_value(d.drop_last()) == 0);
        assert(digits_value(d) == digits_value(d.drop_last()) * 10 + (d.last() as int - '0' as int));
    } else {
        lemma_decimal_digits_denote(n / 10);
        let d = decimal_digits(n);
        let r = (n % 10) as int;
        assert(d.drop_last() =~= decimal_digits(n / 10));
        assert(d.last() == digit_chars()[r]);
        assert(digit_chars()[r] as int == 48 + r);
        assert(n == (n / 10) * 10 + r);
        assert(digits_value(d) == digits_value(d.drop_last()) * 10 + (d.last() as int - '0' as int));
        assert(digits_value(d.drop_last()) == (n / 10) as int);
        assert(d[0] == decimal_digits(n / 10)[0]);
        assert forall|k: int| 0 <= k < d.len() implies '0' <= #[trigger] d[k] <= '9' by {
            if k < d.len() - 1 {
                assert(d[k] == decimal_digits(n / 10)[k]);
            }
        }
    }
}

} // verus!
