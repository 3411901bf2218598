//! String helpers over `Seq<char>` models: prefixes, segments, removal of a
//! pattern and whitespace trimming.
use vstd::prelude::*;
use vstd::string::*;

verus! {

/// `p` is a prefix of `s`.
pub open spec fn is_prefix(p: Seq<char>, s: Seq<char>) -> bool {
    p.len() <= s.len() && s.subrange(0, p.len() as int) == p
}

/// `s` with every non-overlapping occurrence of `pat` (scanned from the left) removed.
pub open spec fn remove_all(s: Seq<char>, pat: Seq<char>) -> Seq<char>
    decreases s.len(),
{
    if s.len() == 0 {
        s
    } else if pat.len() > 0 && is_prefix(pat, s) {
        remove_all(s.skip(pat.len() as int), pat)
    } else {
        seq![s[0]] + remove_all(s.skip(1), pat)
    }
}

/// Position of the first `c` in `s`, or `s.len()` when there is none.
pub open spec fn first_index_of(s: Seq<char>, c: char) -> int
    decreases s.len(),
{
    if s.len() == 0 {
        0
    } else if s[0] == c {
        0
    } else {
        1 + first_index_of(s.skip(1), c)
    }
}

/// The text before the first `c` (all of `s` when `c` does not occur).
pub open spec fn first_segment(s: Seq<char>, c: char) -> Seq<char> {
    s.subrange(0, first_index_of(s, c))
}

/// The text after the last `c` (all of `s` when `c` does not occur).
pub open spec fn last_segment(s: Seq<char>, c: char) -> Seq<char>
    decreases s.len(),
{
    if s.len() == 0 {
        s
    } else if s.last() == c {
        Seq::empty()
    } else {
        last_segment(s.drop_last(), c).push(s.last())
    }
}

/// The pieces of `s` between occurrences of `c`, in order (always at least one).
pub open spec fn split_on(s: Seq<char>, c: char) -> Seq<Seq<char>>
    decreases s.len(),
{
    if s.len() == 0 {
        seq![Seq::empty()]
    } else {
        let rest = split_on(s.drop_last(), c);
        if s.last() == c {
            rest.push(Seq::empty())
        } else {
            rest.update(rest.len() - 1, rest.last().push(s.last()))
        }
    }
}

/// Unicode `White_Space` characters, as `char::is_whitespace` documents them.
pub open spec fn is_white_space(c: char) -> bool {
    ||| ('\u{9}' <= c && c <= '\u{d}')
    ||| c == ' '
    ||| c == '\u{85}'
    ||| c == '\u{a0}'
    ||| c == '\u{1680}'
    ||| ('\u{2000}' <= c && c <= '\u{200a}')
    ||| c == '\u{2028}'
    ||| c == '\u{2029}'
    ||| c == '\u{202f}'
    ||| c == '\u{205f}'
    ||| c == '\u{3000}'
}

pub open spec fn trim_start(s: Seq<char>) -> Seq<char>
    decreases s.len(),
{
    if s.len() > 0 && is_white_space(s[0]) {
        trim_start(s.skip(1))
    } else {
        s
    }
}

pub open spec fn trim_end(s: Seq<char>) -> Seq<char>
    decreases s.len(),
{
    if s.len() > 0 && is_white_space(s.last()) {
        trim_end(s.drop_last())
    } else {
        s
    }
}

/// `s` without leading and trailing whitespace.
pub open spec fn trimmed(s: Seq<char>) -> Seq<char> {
    trim_end(trim_start(s))
}

/// Relies on `str::trim`: removes leading and trailing Unicode `White_Space`.
#[verifier::external_body]
pub fn trim(s: &str) -> (r: String)
    ensures
        r@ == trimmed(s@),
{
    s.trim().to_string()
}

/// `s` starts with `p`.
pub fn starts_with(s: &str, p: &str) -> (r: bool)
    ensures
        r == is_prefix(p@, s@),
{
    let n = s.unicode_len();
    let m = p.unicode_len();
    if m > n {
        return false;
    }
    let mut i: usize = 0;
    while i < m
        invariant
            n == s@.len(),
            m == p@.len(),
            m <= n,
            i <= m,
            forall|k: int| 0 <= k < i ==> s@[k] == p@[k],
        decreases m - i,
    {
        if s.get_char(i) != p.get_char(i) {
            assert(s@.subrange(0, m as int)[i as int] != p@[i as int]);
            return false;
        }
        i = i + 1;
    }
    assert(s@.subrange(0, m as int) =~= p@);
    true
}

/// Equality of two strings, character by character.
pub fn str_eq(a: &str, b: &str) -> (r: bool)
    ensures
        r == (a@ == b@),
{
    if a.unicode_len() != b.unicode_len() {
        return false;
    }
    let r = starts_with(a, b);
    assert(a@ =~= a@.subrange(0, b@.len() as int));
    r
}

/// The characters of `s` from `from` to `to`, as a new string.
pub fn substring(s: &str, from: usize, to: usize) -> (r: String)
    requires
        from <= to <= s@.len(),
    ensures
        r@ == s@.subrange(from as int, to as int),
{
    s.substring_char(from, to).to_owned()
}

/// `s` without the prefix `p`, when `s` starts with it.
pub fn strip_prefix(s: &str, p: &str) -> (r: Option<String>)
    ensures
        r is Some <==> is_prefix(p@, s@),
        r matches Some(t) ==> t@ == s@.skip(p@.len() as int),
{
    if starts_with(s, p) {
        let t = substring(s, p.unicode_len(), s.unicode_len());
        assert(t@ =~= s@.skip(p@.len() as int));
        Some(t)
    } else {
        None
    }
}

/// Removes from `s` every non-overlapping occurrence of `pat`, scanning from the left.
pub fn remove_pattern(s: &str, pat: &str) -> (r: String)
    requires
        pat@.len() > 0,
    ensures
        r@ == remove_all(s@, pat@),
{
    let n = s.unicode_len();
    let m = pat.unicode_len();
    let mut out = String::new();
    let mut i: usize = 0;
    assert(s@.skip(0) =~= s@);
    while i < n
        invariant
            n == s@.len(),
            m == pat@.len(),
            m > 0,
            i <= n,
            out@ + remove_all(s@.skip(i as int), pat@) == remove_all(s@, pat@),
        decreases n - i,
    {
        let rest = Ghost(s@.skip(i as int));
        if m <= n - i && matches_at(s, pat, i) {
            assert(rest@.skip(m as int) =~= s@.skip(i + m));
            i = i + m;
        } else {
            assert(!is_prefix(pat@, rest@)) by {
                if m <= n - i {
                    assert(rest@.subrange(0, m as int) =~= s@.subrange(i as int, i + m));
                }
            }
            assert(rest@.skip(1) =~= s@.skip(i + 1));
            assert(rest@[0] == s@[i as int]);
            let ch = s.substring_char(i, i + 1);
            assert(ch@ =~= seq![s@[i as int]]);
            out.append(ch);
            i = i + 1;
        }
    }
    assert(s@.skip(n as int) =~= Seq::<char>::empty());
    out
}

/// `p` occurs in `s` at position `i`.
pub fn matches_at(s: &str, p: &str, i: usize) -> (r: bool)
    requires
        i + p@.len() <= s@.len(),
    ensures
        r == is_prefix(p@, s@.skip(i as int)),
        r == (s@.subrange(i as int, i + p@.len()) == p@),
{
    let _n = s.unicode_len();
    let m = p.unicode_len();
    let mut k: usize = 0;
    while k < m
        invariant
            m == p@.len(),
            s@.len() <= usize::MAX,
            i + m <= s@.len(),
            k <= m,
            forall|j: int| 0 <= j < k ==> s@[i + j] == p@[j],
        decreases m - k,
    {
        if s.get_char(i + k) != p.get_char(k) {
            assert(s@.skip(i as int).subrange(0, m as int)[k as int] != p@[k as int]);
            assert(s@.subrange(i as int, i + m)[k as int] != p@[k as int]);
            return false;
        }
        k = k + 1;
    }
    assert(s@.skip(i as int).subrange(0, m as int) =~= p@);
    assert(s@.subrange(i as int, i + m) =~= p@);
    true
}

/// Skipping characters other than `c` moves the first `c` by as many.
pub proof fn lemma_first_index(s: Seq<char>, c: char, i: int)
    requires
        0 <= i <= s.len(),
        forall|k: int| 0 <= k < i ==> s[k] != c,
    ensures
        first_index_of(s, c) == i + first_index_of(s.skip(i), c),
    decreases i,
{
    if i > 0 {
        lemma_first_index(s.skip(1), c, i - 1);
        assert(s.skip(1).skip(i - 1) =~= s.skip(i));
    } else {
        assert(s.skip(0) =~= s);
    }
}

/// The text of `s` before the first `c`.
pub fn before_first(s: &str, c: char) -> (r: String)
    ensures
        r@ == first_segment(s@, c),
{
    let n = s.unicode_len();
    let mut i: usize = 0;
    while i < n && s.get_char(i) != c
        invariant
            n == s@.len(),
            i <= n,
            forall|k: int| 0 <= k < i ==> s@[k] != c,
        decreases n - i,
    {
        i = i + 1;
    }
    proof {
        lemma_first_index(s@, c, i as int);
        let t = s@.skip(i as int);
        if i < n {
            assert(t[0] == c);
        } else {
            assert(t.len() == 0);
        }
    }
    substring(s, 0, i)
}

proof fn lemma_last_segment(s: Seq<char>, c: char, k: int)
    requires
        0 <= k <= s.len(),
        forall|j: int| k <= j < s.len() ==> s[j] != c,
    ensures
        last_segment(s, c) == last_segment(s.take(k), c) + s.skip(k),
    decreases s.len() - k,
{
    if k == s.len() {
        assert(s.take(k) =~= s);
        assert(s.skip(k) =~= Seq::<char>::empty());
        assert(last_segment(s, c) + Seq::<char>::empty() =~= last_segment(s, c));
    } else {
        let d = s.drop_last();
        lemma_last_segment(d, c, k);
        assert(d.take(k) =~= s.take(k));
        assert(d.skip(k).push(s.last()) =~= s.skip(k));
        assert((last_segment(s.take(k), c) + d.skip(k)).push(s.last()) =~= last_segment(
            s.take(k),
            c,
        ) + s.skip(k));
    }
}

/// The text of `s` after the last `c`.
pub fn after_last(s: &str, c: char) -> (r: String)
    ensures
        r@ == last_segment(s@, c),
{
    let n = s.unicode_len();
    let mut j: usize = n;
    while j > 0 && s.get_char(j - 1) != c
        invariant
            n == s@.len(),
            j <= n,
            forall|k: int| j <= k < n ==> s@[k] != c,
        decreases j,
    {
        j = j - 1;
    }
    proof {
        lemma_last_segment(s@, c, j as int);
        let t = s@.take(j as int);
        if j > 0 {
            assert(t.last() == c);
            assert(last_segment(t, c) == Seq::<char>::empty());
        } else {
            assert(t.len() == 0);
        }
        assert(Seq::<char>::empty() + s@.skip(j as int) =~= s@.skip(j as int));
    }
    substring(s, j, n)
}

/// Concatenation of the trimmed pieces.
pub open spec fn join_trimmed(pieces: Seq<Seq<char>>) -> Seq<char>
    decreases pieces.len(),
{
    if pieces.len() == 0 {
        Seq::empty()
    } else {
        join_trimmed(pieces.drop_last()) + trimmed(pieces.last())
    }
}

/// Splits `s` on `c`, trims each piece and concatenates what remains (the
/// empty pieces add nothing).
pub fn join_trimmed_fields(s: &str, c: char) -> (r: String)
    ensures
        r@ == join_trimmed(split_on(s@, c)),
{
    let n = s.unicode_len();
    let mut out = String::new();
    let mut cur = String::new();
    let mut i: usize = 0;
    proof {
        assert(s@.take(0) =~= Seq::<char>::empty());
        assert(split_on(s@.take(0), c).drop_last() =~= Seq::<Seq<char>>::empty());
    }
    while i < n
        invariant
            n == s@.len(),
            i <= n,
            join_trimmed(split_on(s@.take(i as int), c).drop_last()) == out@,
            split_on(s@.take(i as int), c).last() == cur@,
            split_on(s@.take(i as int), c).len() > 0,
        decreases n - i,
    {
        let ghost t = s@.take(i + 1);
        let ghost rest = split_on(s@.take(i as int), c);
        assert(t.drop_last() =~= s@.take(i as int));
        let ch = s.substring_char(i, i + 1);
        assert(ch@ =~= seq![s@[i as int]]);
        if s.get_char(i) == c {
            let piece = trim(cur.as_str());
            assert(split_on(t, c) == rest.push(Seq::<char>::empty()));
            assert(split_on(t, c).drop_last() =~= rest);
            assert(rest =~= rest.drop_last().push(rest.last()));
            out.append(piece.as_str());
            cur = String::new();
        } else {
            assert(split_on(t, c).drop_last() =~= rest.drop_last());
            cur.append(ch);
        }
        i = i + 1;
    }
    assert(s@.take(n as int) =~= s@);
    let ghost all = split_on(s@, c);
    assert(all =~= all.drop_last().push(all.last()));
    let last = trim(cur.as_str());
    out.append(last.as_str());
    out
}

/// A decimal numeral: one or more ASCII digits.
pub open spec fn is_decimal(s: Seq<char>) -> bool {
    s.len() > 0 && forall|i: int| 0 <= i < s.len() ==> '0' <= #[trigger] s[i] <= '9'
}

/// The value of a string of ASCII digits.
pub open spec fn decimal_value(s: Seq<char>) -> nat
    decreases s.len(),
{
    if s.len() == 0 {
        0
    } else {
        decimal_value(s.drop_last()) * 10 + ((s.last() as nat) - ('0' as nat)) as nat
    }
}

/// The digits of an unsigned numeral after an optional leading `+`.
pub open spec fn unsigned_digits(s: Seq<char>) -> Seq<char> {
    if s.len() > 0 && s[0] == '+' {
        s.skip(1)
    } else {
        s
    }
}

/// `s` is the text of a `u32`, in the form that `u32::from_str` accepts.
pub open spec fn is_u32_text(s: Seq<char>) -> bool {
    is_decimal(unsigned_digits(s)) && decimal_value(unsigned_digits(s)) <= u32::MAX
}

#[verifier::external_type_specification]
#[verifier::external_body]
pub struct ExParseIntError(std::num::ParseIntError);

/// Relies on `u32::from_str`: an optional `+` and ASCII digits whose value fits,
/// and an error for anything else (empty text, another character, overflow).
#[verifier::external_body]
pub fn parse_u32(s: &str) -> (r: Result<u32, std::num::ParseIntError>)
    ensures
        r is Ok <==> is_u32_text(s@),
        r matches Ok(v) ==> v as nat == decimal_value(unsigned_digits(s@)),
{
    s.parse::<u32>()
}

/// `s` is the text of a `usize`, in the form that `usize::from_str` accepts.
pub open spec fn is_usize_text(s: Seq<char>) -> bool {
    is_decimal(unsigned_digits(s)) && decimal_value(unsigned_digits(s)) <= usize::MAX
}

/// Relies on `usize::from_str`: an optional `+` and ASCII digits whose value
/// fits, and an error for anything else.
#[verifier::external_body]
pub fn parse_usize(s: &str) -> (r: Result<usize, std::num::ParseIntError>)
    ensures
        r is Ok <==> is_usize_text(s@),
        r matches Ok(v) ==> v as nat == decimal_value(unsigned_digits(s@)),
{
    s.parse::<usize>()
}

/// `s` with `p` removed from its start as many times as it occurs there.
pub open spec fn strip_repeated(s: Seq<char>, p: Seq<char>) -> Seq<char>
    decreases s.len(),
{
    if p.len() > 0 && is_prefix(p, s) {
        strip_repeated(s.skip(p.len() as int), p)
    } else {
        s
    }
}

/// Removes `p` from the start of `s` as many times as it occurs there.
pub fn strip_leading_repeats(s: &str, p: &str) -> (r: String)
    ensures
        r@ == strip_repeated(s@, p@),
{
    let n = s.unicode_len();
    let m = p.unicode_len();
    let mut i: usize = 0;
    assert(s@.skip(0) =~= s@);
    if m == 0 {
        return substring(s, 0, n);
    }
    while m <= n - i && matches_at(s, p, i)
        invariant
            n == s@.len(),
            m == p@.len(),
            m > 0,
            i <= n,
            strip_repeated(s@.skip(i as int), p@) == strip_repeated(s@, p@),
        decreases n - i,
    {
        assert(s@.skip(i as int).skip(m as int) =~= s@.skip(i + m));
        i = i + m;
    }
    proof {
        let t = s@.skip(i as int);
        if m <= n - i {
            assert(!is_prefix(p@, t));
        } else {
            assert(!is_prefix(p@, t));
        }
    }
    substring(s, i, n)
}

/// `p` occurs somewhere in `s`.
pub open spec fn occurs_in(p: Seq<char>, s: Seq<char>) -> bool {
    exists|i: int| 0 <= i && i + p.len() <= s.len() && #[trigger] s.subrange(i, i + p.len()) == p
}

/// Whether `p` occurs in `s`.
pub fn contains(s: &str, p: &str) -> (r: bool)
    ensures
        r == occurs_in(p@, s@),
{
    let n = s.unicode_len();
    let m = p.unicode_len();
    if m > n {
        return false;
    }
    if m == 0 {
        assert(s@.subrange(0int, 0int + p@.len()) =~= p@);
        return true;
    }
    let mut i: usize = 0;
    while i <= n - m
        invariant
            n == s@.len(),
            m == p@.len(),
            0 < m <= n,
            i <= n - m + 1,
            forall|j: int| 0 <= j < i ==> #[trigger] s@.subrange(j, j + m) != p@,
        decreases n - m + 1 - i,
    {
        if matches_at(s, p, i) {
            return true;
        }
        i = i + 1;
    }
    assert forall|j: int| 0 <= j && j + m <= n implies #[trigger] s@.subrange(j, j + m) != p@ by {
        assert(j < i);
    }
    false
}

/// `s` with each `a` replaced by `b`.
pub open spec fn replace_char(s: Seq<char>, a: char, b: char) -> Seq<char> {
    s.map_values(|c: char| if c == a { b } else { c })
}

/// Replaces each space of `s` with a dash.
pub fn dash_spaces(s: &str) -> (r: String)
    ensures
        r@ == replace_char(s@, ' ', '-'),
{
    let n = s.unicode_len();
    let mut out = String::new();
    let mut i: usize = 0;
    proof {
        reveal_strlit("-");
    }
    while i < n
        invariant
            n == s@.len(),
            i <= n,
            out@ == replace_char(s@.take(i as int), ' ', '-'),
            "-"@ == seq!['-'],
        decreases n - i,
    {
        let ch = s.substring_char(i, i + 1);
        assert(ch@ =~= seq![s@[i as int]]);
        if s.get_char(i) == ' ' {
            out.append("-");
        } else {
            out.append(ch);
        }
        assert(replace_char(s@.take(i + 1), ' ', '-') =~= replace_char(s@.take(i as int), ' ', '-')
            + seq![if s@[i as int] == ' ' { '-' } else { s@[i as int] }]);
        i = i + 1;
    }
    assert(s@.take(n as int) =~= s@);
    out
}

} // verus!
