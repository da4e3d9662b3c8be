//! Text building blocks shared by the rest of the crate: decimal numbers, placeholder
//! substitution, joining, and trimming.

use vstd::prelude::*;

verus! {

/// The character for a decimal digit.
pub open spec fn digit_char(d: nat) -> char
    recommends
        d < 10,
{
    ((d + 48) as u8) as char
}

/// The decimal spelling of `n`, without sign or leading zeros.
pub open spec fn decimal(n: nat) -> Seq<char>
    decreases n,
{
    if n < 10 {
        seq![digit_char(n)]
    } else {
        decimal(n / 10).push(digit_char(n % 10))
    }
}

/// Appends one character to a `String`, through `String::push`.
#[verifier::external_body]
pub(crate) fn push_char(s: &mut String, c: char)
    ensures
        final(s)@ == old(s)@.push(c),
{
    s.push(c);
}

/// The characters of `s`, in order.
pub fn chars_of(s: &str) -> (out: Vec<char>)
    ensures
        out@ == s@,
{
    let mut out: Vec<char> = Vec::new();
    for c in it: s.chars()
        invariant
            it.seq() == s@,
            out@ == it.seq().take(it.index() as int),
    {
        out.push(c);
        assert(out@ == it.seq().take(it.index() + 1));
    }
    out
}

/// A `String` holding exactly the characters of `v`.
pub fn string_of(v: &Vec<char>) -> (s: String)
    ensures
        s@ == v@,
{
    let mut s = String::new();
    let mut i: usize = 0;
    while i < v.len()
        invariant
            i <= v.len(),
            s@ == v@.take(i as int),
        decreases v.len() - i,
    {
        push_char(&mut s, v[i]);
        assert(v@.take(i + 1) == v@.take(i as int).push(v@[i as int]));
        i = i + 1;
    }
    assert(v@.take(v.len() as int) == v@);
    s
}


/// The decimal spelling of `n`: what `n.to_string()` gives for an unsigned integer.
pub fn decimal_text(n: u64) -> (s: String)
    ensures
        s@ == decimal(n as nat),
{
    let mut rev: Vec<char> = Vec::new();
    let mut m: u64 = n;
    while m >= 10
        invariant
            decimal(n as nat) == decimal(m as nat) + rev@.reverse(),
        decreases m,
    {
        let d: u64 = m % 10;
        let c: char = ((d as u8) + 48u8) as char;
        assert(c == digit_char(d as nat));
        proof {
            assert(decimal(m as nat) == decimal((m / 10) as nat).push(digit_char((m % 10) as nat)));
            assert(rev@.push(c).reverse() == seq![c] + rev@.reverse());
        }
        rev.push(c);
        m = m / 10;
    }
    let first: char = ((m as u8) + 48u8) as char;
    let mut s = String::new();
    push_char(&mut s, first);
    assert(s@ == decimal(m as nat));
    let mut i: usize = rev.len();
    while i > 0
        invariant
            i <= rev.len(),
            decimal(n as nat) == decimal(m as nat) + rev@.reverse(),
            s@ == decimal(m as nat) + rev@.subrange(i as int, rev@.len() as int).reverse(),
        decreases i,
    {
        i = i - 1;
        push_char(&mut s, rev[i]);
        assert(rev@.subrange(i as int, rev@.len() as int) == seq![rev@[i as int]] + rev@.subrange(i + 1, rev@.len() as int));
        assert(rev@.subrange(i as int, rev@.len() as int).reverse()
            == rev@.subrange(i + 1, rev@.len() as int).reverse().push(rev@[i as int]));
    }
    assert(rev@.subrange(0, rev@.len() as int) == rev@);
    s
}


/// `s` with its first occurrence of `pat` replaced by `text`, scanning from the left; `s`
/// itself when `pat` does not occur. This is what `str::replacen(pat, text, 1)` gives.
pub open spec fn replaced_first(s: Seq<char>, pat: Seq<char>, text: Seq<char>) -> Seq<char>
    decreases s.len(),
{
    if s.len() < pat.len() {
        s
    } else if s.take(pat.len() as int) == pat {
        text + s.skip(pat.len() as int)
    } else if s.len() == 0 {
        s
    } else {
        seq![s[0]] + replaced_first(s.skip(1), pat, text)
    }
}

/// `s` with every occurrence of `pat` replaced by `text`, taking occurrences from the left
/// without overlap; an empty `pat` occurs before every character and at the end. This is what
/// `str::replace(pat, text)` gives.
pub open spec fn replaced_all(s: Seq<char>, pat: Seq<char>, text: Seq<char>) -> Seq<char>
    decreases s.len(),
{
    if pat.len() == 0 {
        if s.len() == 0 {
            text
        } else {
            text + seq![s[0]] + replaced_all(s.skip(1), pat, text)
        }
    } else if s.len() < pat.len() {
        s
    } else if s.take(pat.len() as int) == pat {
        text + replaced_all(s.skip(pat.len() as int), pat, text)
    } else {
        seq![s[0]] + replaced_all(s.skip(1), pat, text)
    }
}

/// `parts` joined with `sep` between each neighbouring pair, as `[..].join(sep)` does.
pub open spec fn joined(parts: Seq<Seq<char>>, sep: Seq<char>) -> Seq<char>
    decreases parts.len(),
{
    if parts.len() == 0 {
        Seq::empty()
    } else if parts.len() == 1 {
        parts[0]
    } else {
        joined(parts.drop_last(), sep) + sep + parts.last()
    }
}

/// Whether `pat` occurs in `s` starting at position `i`.
fn occurs_at(s: &Vec<char>, i: usize, pat: &Vec<char>) -> (found: bool)
    requires
        i <= s.len(),
    ensures
        found == (i + pat.len() <= s.len() && s@.subrange(i as int, i + pat.len()) == pat@),
{
    if pat.len() > s.len() - i {
        return false;
    }
    let mut k: usize = 0;
    while k < pat.len()
        invariant
            i + pat.len() <= s.len(),
            k <= pat.len(),
            forall|j: int| 0 <= j < k ==> s@[i + j] == pat@[j],
        decreases pat.len() - k,
    {
        if s[i + k] != pat[k] {
            assert(s@.subrange(i as int, i + pat.len())[k as int] != pat@[k as int]);
            return false;
        }
        k = k + 1;
    }
    assert(s@.subrange(i as int, i + pat.len()) == pat@);
    true
}

/// Appends `v[from..]` to `out`.
fn append_from(out: &mut String, v: &Vec<char>, from: usize)
    requires
        from <= v.len(),
    ensures
        final(out)@ == old(out)@ + v@.skip(from as int),
{
    let mut i: usize = from;
    while i < v.len()
        invariant
            from <= i <= v.len(),
            out@ == old(out)@ + v@.subrange(from as int, i as int),
        decreases v.len() - i,
    {
        push_char(out, v[i]);
        assert(v@.subrange(from as int, i + 1) == v@.subrange(from as int, i as int).push(v@[i as int]));
        i = i + 1;
    }
    assert(v@.subrange(from as int, v.len() as int) == v@.skip(from as int));
}

/// `s` with its first occurrence of `pat` replaced by `text`.
pub fn replace_first(s: &str, pat: &str, text: &str) -> (r: String)
    ensures
        r@ == replaced_first(s@, pat@, text@),
{
    let sc = chars_of(s);
    let pc = chars_of(pat);
    let mut out = String::new();
    let mut i: usize = 0;
    assert(s@.skip(0) == s@);
    loop
        invariant
            sc@ == s@,
            pc@ == pat@,
            i <= sc.len(),
            out@ + replaced_first(s@.skip(i as int), pat@, text@) == replaced_first(s@, pat@, text@),
        decreases sc.len() - i,
    {
        let ghost rest = s@.skip(i as int);
        if occurs_at(&sc, i, &pc) {
            assert(rest.take(pat@.len() as int) == s@.subrange(i as int, i + pat@.len()));
            assert(rest.skip(pat@.len() as int) == s@.skip(i + pat@.len()));
            out.append(text);
            append_from(&mut out, &sc, i + pc.len());
            return out;
        }
        if i == sc.len() {
            assert(rest.len() == 0);
            assert(pat@.len() > 0) by {
                if pat@.len() == 0 {
                    assert(s@.subrange(i as int, i as int) == pat@);
                }
            }
            assert(replaced_first(rest, pat@, text@) == rest);
            assert(out@ + rest == out@);
            return out;
        }
        proof {
            if rest.len() >= pat@.len() {
                assert(rest.take(pat@.len() as int) == s@.subrange(i as int, i + pat@.len()));
            }
        }
        assert(rest.skip(1) == s@.skip(i + 1));
        assert(rest[0] == sc@[i as int]);
        push_char(&mut out, sc[i]);
        i = i + 1;
    }
}

/// `s` with every occurrence of `pat` replaced by `text`.
pub fn replace_all(s: &str, pat: &str, text: &str) -> (r: String)
    ensures
        r@ == replaced_all(s@, pat@, text@),
{
    let sc = chars_of(s);
    let pc = chars_of(pat);
    let mut out = String::new();
    let mut i: usize = 0;
    assert(s@.skip(0) == s@);
    loop
        invariant
            sc@ == s@,
            pc@ == pat@,
            i <= sc.len(),
            out@ + replaced_all(s@.skip(i as int), pat@, text@) == replaced_all(s@, pat@, text@),
        decreases sc.len() - i,
    {
        let ghost rest = s@.skip(i as int);
        if pc.len() == 0 {
            out.append(text);
            if i == sc.len() {
                assert(rest.len() == 0);
                return out;
            }
            assert(rest.skip(1) == s@.skip(i + 1));
            assert(rest[0] == sc@[i as int]);
            push_char(&mut out, sc[i]);
            i = i + 1;
        } else if occurs_at(&sc, i, &pc) {
            assert(rest.take(pat@.len() as int) == s@.subrange(i as int, i + pat@.len()));
            assert(rest.skip(pat@.len() as int) == s@.skip(i + pat@.len()));
            out.append(text);
            i = i + pc.len();
        } else {
            if i == sc.len() {
                assert(rest.len() == 0);
                assert(out@ + rest == out@);
                return out;
            }
            proof {
                if rest.len() >= pat@.len() {
                    assert(rest.take(pat@.len() as int) == s@.subrange(i as int, i + pat@.len()));
                }
            }
            assert(rest.skip(1) == s@.skip(i + 1));
            assert(rest[0] == sc@[i as int]);
            push_char(&mut out, sc[i]);
            i = i + 1;
        }
    }
}

/// `parts` joined with `sep` between each neighbouring pair.
pub fn join(parts: &Vec<String>, sep: &str) -> (r: String)
    ensures
        r@ == joined(parts@.map_values(|p: String| p@), sep@),
{
    let ghost views = parts@.map_values(|p: String| p@);
    let mut out = String::new();
    let mut i: usize = 0;
    while i < parts.len()
        invariant
            i <= parts.len(),
            views == parts@.map_values(|p: String| p@),
            out@ == joined(views.take(i as int), sep@),
        decreases parts.len() - i,
    {
        if i > 0 {
            out.append(sep);
        }
        out.append(parts[i].as_str());
        assert(views.take(i + 1).drop_last() == views.take(i as int));
        i = i + 1;
    }
    assert(views.take(parts.len() as int) == views);
    out
}

/// Whether `c` has the Unicode property `White_Space`, which is what `char::is_whitespace`
/// and `str::trim` go by.
pub open spec fn is_white_space(c: char) -> bool {
    let u = c as int;
    ||| 0x09 <= u <= 0x0D
    ||| u == 0x20
    ||| u == 0x85
    ||| u == 0xA0
    ||| u == 0x1680
    ||| 0x2000 <= u <= 0x200A
    ||| u == 0x2028
    ||| u == 0x2029
    ||| u == 0x202F
    ||| u == 0x205F
    ||| u == 0x3000
}

/// `s` without its leading whitespace.
pub open spec fn trimmed_start(s: Seq<char>) -> Seq<char>
    decreases s.len(),
{
    if s.len() > 0 && is_white_space(s[0]) {
        trimmed_start(s.skip(1))
    } else {
        s
    }
}

/// `s` without its trailing whitespace.
pub open spec fn trimmed_end(s: Seq<char>) -> Seq<char>
    decreases s.len(),
{
    if s.len() > 0 && is_white_space(s.last()) {
        trimmed_end(s.drop_last())
    } else {
        s
    }
}

/// What `str::trim` gives back for a string: the string with its leading and trailing
/// whitespace removed.
pub open spec fn trimmed(s: Seq<char>) -> Seq<char> {
    trimmed_end(trimmed_start(s))
}

/// Calls `str::trim`, which removes leading and trailing whitespace, whitespace being the
/// characters with the Unicode property `White_Space`.
#[verifier::external_body]
pub(crate) fn trim_text<'a>(s: &'a str) -> (r: &'a str)
    ensures
        r@ == trimmed(s@),
{
    s.trim()
}

/// Whether `pat` occurs in `s` starting at position `i`.
pub open spec fn occurs_at_position(s: Seq<char>, pat: Seq<char>, i: int) -> bool {
    0 <= i && i + pat.len() <= s.len() && s.subrange(i, i + pat.len()) == pat
}

/// `replaced_first` replaces the first occurrence: when `pat` first occurs in `s` right after
/// `p` (it occurs nowhere starting inside `p`), the result is `p`, then `text`, then the rest
/// after that occurrence, also when the occurrence ends `s`.
pub proof fn lemma_replaced_first_occurrence(p: Seq<char>, pat: Seq<char>, q: Seq<char>, text: Seq<char>)
    requires
        forall|i: int| 0 <= i < p.len() ==> !#[trigger] occurs_at_position(p + pat + q, pat, i),
    ensures
        replaced_first(p + pat + q, pat, text) == p + text + q,
    decreases p.len(),
{
    let s = p + pat + q;
    if p.len() == 0 {
        assert(s =~= pat + q);
        assert(s.take(pat.len() as int) =~= pat);
        assert(s.skip(pat.len() as int) =~= q);
        assert(p + text + q =~= text + q);
    } else {
        assert(!occurs_at_position(s, pat, 0));
        assert(s.take(pat.len() as int) == s.subrange(0, pat.len() as int));
        let p1 = p.skip(1);
        assert(s.skip(1) =~= p1 + pat + q);
        assert forall|i: int| 0 <= i < p1.len() implies !#[trigger] occurs_at_position(p1 + pat + q, pat, i) by {
            assert((p1 + pat + q).subrange(i, i + pat.len()) =~= s.subrange(i + 1, i + 1 + pat.len()));
            assert(!occurs_at_position(s, pat, i + 1));
        }
        lemma_replaced_first_occurrence(p1, pat, q, text);
        assert(p + text + q =~= seq![s[0]] + (p1 + text + q));
    }
}

/// `replaced_first` leaves a string in which `pat` does not occur as it is.
pub proof fn lemma_replaced_first_absent(s: Seq<char>, pat: Seq<char>, text: Seq<char>)
    requires
        pat.len() > 0,
        forall|i: int| !#[trigger] occurs_at_position(s, pat, i),
    ensures
        replaced_first(s, pat, text) == s,
    decreases s.len(),
{
    if s.len() >= pat.len() {
        assert(!occurs_at_position(s, pat, 0));
        assert(s.take(pat.len() as int) == s.subrange(0, pat.len() as int));
        let s1 = s.skip(1);
        assert forall|i: int| !#[trigger] occurs_at_position(s1, pat, i) by {
            if 0 <= i && i + pat.len() <= s1.len() {
                assert(s1.subrange(i, i + pat.len()) =~= s.subrange(i + 1, i + 1 + pat.len()));
                assert(!occurs_at_position(s, pat, i + 1));
            }
        }
        lemma_replaced_first_absent(s1, pat, text);
        assert(s =~= seq![s[0]] + s1);
    }
}

/// `replaced_all` replaces every occurrence from the left: when `pat` first occurs right after
/// `p`, the result is `p`, then `text`, then the rest replaced in turn, also when the
/// occurrence ends `s`.
pub proof fn lemma_replaced_all_occurrence(p: Seq<char>, pat: Seq<char>, q: Seq<char>, text: Seq<char>)
    requires
        pat.len() > 0,
        forall|i: int| 0 <= i < p.len() ==> !#[trigger] occurs_at_position(p + pat + q, pat, i),
    ensures
        replaced_all(p + pat + q, pat, text) == p + text + replaced_all(q, pat, text),
    decreases p.len(),
{
    let s = p + pat + q;
    if p.len() == 0 {
        assert(s =~= pat + q);
        assert(s.take(pat.len() as int) =~= pat);
        assert(s.skip(pat.len() as int) =~= q);
        assert(p + text + replaced_all(q, pat, text) =~= text + replaced_all(q, pat, text));
    } else {
        assert(!occurs_at_position(s, pat, 0));
        assert(s.take(pat.len() as int) == s.subrange(0, pat.len() as int));
        let p1 = p.skip(1);
        assert(s.skip(1) =~= p1 + pat + q);
        assert forall|i: int| 0 <= i < p1.len() implies !#[trigger] occurs_at_position(p1 + pat + q, pat, i) by {
            assert((p1 + pat + q).subrange(i, i + pat.len()) =~= s.subrange(i + 1, i + 1 + pat.len()));
            assert(!occurs_at_position(s, pat, i + 1));
        }
        lemma_replaced_all_occurrence(p1, pat, q, text);
        assert(p + text + replaced_all(q, pat, text) =~= seq![s[0]] + (p1 + text + replaced_all(q, pat, text)));
    }
}

/// The number a string of decimal digits stands for.
pub open spec fn digits_value(digits: Seq<char>) -> int
    decreases digits.len(),
{
    if digits.len() == 0 {
        0
    } else {
        digits_value(digits.drop_last()) * 10 + (digits.last() as int - '0' as int)
    }
}

proof fn lemma_digit_char_value(d: nat)
    requires
        d < 10,
    ensures
        digit_char(d) as int - '0' as int == d,
{
    assert(d == 0 || d == 1 || d == 2 || d == 3 || d == 4 || d == 5 || d == 6 || d == 7 || d == 8
        || d == 9);
}

/// `decimal(n)` is the usual spelling of `n`: only the digits `0` to `9`, no leading zero
/// (but for `n` = 0, which is the single digit `0`), and standing for `n`.
pub proof fn lemma_decimal_spells(n: nat)
    ensures
        decimal(n).len() > 0,
        forall|i: int| 0 <= i < decimal(n).len() ==> '0' <= #[trigger] decimal(n)[i] <= '9',
        decimal(n)[0] == '0' <==> n == 0,
        digits_value(decimal(n)) == n,
    decreases n,
{
    if n >= 10 {
        lemma_decimal_spells(n / 10);
        let d = decimal(n / 10);
        assert(decimal(n) == d.push(digit_char(n % 10)));
        assert(decimal(n).drop_last() =~= d);
        assert(decimal(n)[0] == d[0]);
        assert(n == (n / 10) * 10 + n % 10);
        lemma_digit_char_value((n % 10) as nat);
        assert(decimal(n).last() == digit_char(n % 10));
        assert(digits_value(decimal(n)) == digits_value(d) * 10 + (n % 10));
    } else {
        lemma_digit_char_value(n);
        assert(decimal(n).last() == digit_char(n));
        assert(digits_value(decimal(n)) == digits_value(decimal(n).drop_last()) * 10 + n);
        assert(decimal(n) =~= seq![digit_char(n)]);
        assert(decimal(n).drop_last() =~= Seq::<char>::empty());
    }
}

/// Joining is the same over a split of the parts: the parts before the split joined, the
/// separator, and the parts after it joined.
pub proof fn lemma_joined_split(a: Seq<Seq<char>>, b: Seq<Seq<char>>, sep: Seq<char>)
    requires
        a.len() > 0,
        b.len() > 0,
    ensures
        joined(a + b, sep) == joined(a, sep) + sep + joined(b, sep),
    decreases b.len(),
{
    if b.len() == 1 {
        assert((a + b).drop_last() =~= a);
        assert((a + b).last() == b[0]);
    } else {
        let b1 = b.drop_last();
        lemma_joined_split(a, b1, sep);
        assert((a + b).drop_last() =~= a + b1);
        assert((a + b).last() == b.last());
    }
}

/// Trimming removes whitespace at both ends and nothing else: the result is a stretch of `s`,
/// everything cut off before and after it is whitespace, and it neither starts nor ends with
/// whitespace.
pub proof fn lemma_trimmed_cuts_only_whitespace(s: Seq<char>)
    ensures
        exists|i: int, j: int| {
            &&& 0 <= i <= j <= s.len()
            &&& trimmed(s) == s.subrange(i, j)
            &&& forall|k: int| 0 <= k < i ==> is_white_space(#[trigger] s[k])
            &&& forall|k: int| j <= k < s.len() ==> is_white_space(#[trigger] s[k])
        },
        trimmed(s).len() > 0 ==> !is_white_space(trimmed(s)[0]) && !is_white_space(trimmed(s).last()),
{
    let i = lemma_trimmed_start(s);
    let t = s.skip(i);
    let j = lemma_trimmed_end(t);
    assert(trimmed(s) =~= s.subrange(i, i + j));
    assert forall|k: int| i + j <= k < s.len() implies is_white_space(#[trigger] s[k]) by {
        assert(s[k] == t[k - i]);
    }
    if trimmed(s).len() > 0 {
        assert(trimmed(s)[0] == t[0]);
    }
}

/// Trimming the start cuts off the leading whitespace, up to a first non-whitespace character.
proof fn lemma_trimmed_start(s: Seq<char>) -> (i: int)
    ensures
        0 <= i <= s.len(),
        trimmed_start(s) == s.skip(i),
        forall|k: int| 0 <= k < i ==> is_white_space(#[trigger] s[k]),
        i < s.len() ==> !is_white_space(s[i]),
    decreases s.len(),
{
    if s.len() > 0 && is_white_space(s[0]) {
        let i1 = lemma_trimmed_start(s.skip(1));
        assert(s.skip(1).skip(i1) =~= s.skip(i1 + 1));
        assert forall|k: int| 0 <= k < i1 + 1 implies is_white_space(#[trigger] s[k]) by {
            if k > 0 {
                assert(s[k] == s.skip(1)[k - 1]);
            }
        }
        i1 + 1
    } else {
        assert(s.skip(0) =~= s);
        0
    }
}

/// Trimming the end cuts off the trailing whitespace, back to a last non-whitespace character.
proof fn lemma_trimmed_end(s: Seq<char>) -> (j: int)
    ensures
        0 <= j <= s.len(),
        trimmed_end(s) == s.take(j),
        forall|k: int| j <= k < s.len() ==> is_white_space(#[trigger] s[k]),
        j > 0 ==> !is_white_space(s[j - 1]),
    decreases s.len(),
{
    if s.len() > 0 && is_white_space(s.last()) {
        let j1 = lemma_trimmed_end(s.drop_last());
        assert(s.drop_last().take(j1) =~= s.take(j1));
        assert forall|k: int| j1 <= k < s.len() implies is_white_space(#[trigger] s[k]) by {
            if k < s.len() - 1 {
                assert(s[k] == s.drop_last()[k]);
            }
        }
        j1
    } else {
        assert(s.take(s.len() as int) =~= s);
        s.len() as int
    }
}

} // verus!
