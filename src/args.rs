//! Building the argument lists of external commands: flags, `--key=value`
//! options, lists joined with a separator, and decimal numbers.
use vstd::prelude::*;

verus! {

/// `[flag]` when `on`, nothing otherwise.
pub open spec fn flag_arg(on: bool, flag: Seq<char>) -> Seq<Seq<char>> {
    if on {
        seq![flag]
    } else {
        Seq::empty()
    }
}

/// `[prefix + value]` when a value is given.
pub open spec fn prefixed_arg(value: Option<Seq<char>>, prefix: Seq<char>) -> Seq<Seq<char>> {
    match value {
        Some(v) => seq![prefix + v],
        None => Seq::empty(),
    }
}

/// `[flag, value]` when a value is given.
pub open spec fn pair_arg(value: Option<Seq<char>>, flag: Seq<char>) -> Seq<Seq<char>> {
    match value {
        Some(v) => seq![flag, v],
        None => Seq::empty(),
    }
}

/// `s` with each `:` written as `\:`.
pub open spec fn escape_colons(s: Seq<char>) -> Seq<char>
    decreases s.len(),
{
    if s.len() == 0 {
        s
    } else {
        escape_colons(s.drop_last()) + if s.last() == ':' {
            seq!['\\', ':']
        } else {
            seq![s.last()]
        }
    }
}

/// The items joined with `sep` between them.
pub open spec fn joined(items: Seq<Seq<char>>, sep: Seq<char>) -> Seq<char>
    decreases items.len(),
{
    if items.len() == 0 {
        Seq::empty()
    } else if items.len() == 1 {
        items[0]
    } else {
        joined(items.drop_last(), sep) + sep + items.last()
    }
}

/// Subtitle files for mpv-like players: each `:` escaped, joined with `:`.
pub open spec fn sub_file_list(files: Seq<Seq<char>>) -> Seq<char> {
    joined(files.map_values(|f: Seq<char>| escape_colons(f)), ":"@)
}

/// The decimal digits of `n`.
pub open spec fn decimal_text(n: nat) -> Seq<char>
    decreases n,
{
    if n < 10 {
        seq![digit_char(n)]
    } else {
        decimal_text(n / 10).push(digit_char(n % 10))
    }
}

pub open spec fn digit_char(d: nat) -> char {
    if d == 0 {
        '0'
    } else if d == 1 {
        '1'
    } else if d == 2 {
        '2'
    } else if d == 3 {
        '3'
    } else if d == 4 {
        '4'
    } else if d == 5 {
        '5'
    } else if d == 6 {
        '6'
    } else if d == 7 {
        '7'
    } else if d == 8 {
        '8'
    } else {
        '9'
    }
}

/// The decimal text of `n`.
pub fn decimal_string(n: usize) -> (r: String)
    ensures
        r@ == decimal_text(n as nat),
    decreases n,
{
    let digits = "0123456789";
    proof {
        reveal_strlit("0123456789");
    }
    let d = n % 10;
    let last = digits.substring_char(d, d + 1);
    assert(last@ =~= seq![digit_char(d as nat)]);
    if n < 10 {
        last.to_owned()
    } else {
        let mut s = decimal_string(n / 10);
        s.append(last);
        s
    }
}

/// A copy of each string, in order.
pub fn copy_strings(v: &Vec<String>) -> (r: Vec<String>)
    ensures
        r.deep_view() == v.deep_view(),
{
    let mut out: Vec<String> = Vec::new();
    let mut i: usize = 0;
    while i < v.len()
        invariant
            i <= v@.len(),
            out.deep_view() == v.deep_view().take(i as int),
        decreases v@.len() - i,
    {
        let ghost before = out.deep_view();
        out.push(v[i].clone());
        assert(out.deep_view() =~= before.push(v@[i as int]@));
        assert(v.deep_view().take(i + 1) =~= v.deep_view().take(i as int).push(v@[i as int]@));
        i = i + 1;
    }
    assert(v.deep_view().take(v@.len() as int) =~= v.deep_view());
    out
}

/// Appends `flag` when `on`.
pub fn push_flag(out: &mut Vec<String>, on: bool, flag: &str)
    ensures
        final(out).deep_view() == old(out).deep_view() + flag_arg(on, flag@),
{
    if on {
        out.push(flag.to_owned());
    }
    assert(final(out).deep_view() =~= old(out).deep_view() + flag_arg(on, flag@));
}

/// Appends `prefix` followed by the value, when a value is given.
pub fn push_prefixed(out: &mut Vec<String>, value: &Option<String>, prefix: &str)
    ensures
        final(out).deep_view() == old(out).deep_view() + prefixed_arg(value.deep_view(), prefix@),
{
    match value {
        Some(v) => {
            let mut a = prefix.to_owned();
            a.append(v.as_str());
            out.push(a);
        },
        None => {},
    }
    assert(final(out).deep_view() =~= old(out).deep_view() + prefixed_arg(
        value.deep_view(),
        prefix@,
    ));
}

/// Appends `flag` and then the value, when a value is given.
pub fn push_pair(out: &mut Vec<String>, value: &Option<String>, flag: &str)
    ensures
        final(out).deep_view() == old(out).deep_view() + pair_arg(value.deep_view(), flag@),
{
    match value {
        Some(v) => {
            out.push(flag.to_owned());
            out.push(v.clone());
        },
        None => {},
    }
    assert(final(out).deep_view() =~= old(out).deep_view() + pair_arg(value.deep_view(), flag@));
}

/// Appends `s` with each `:` written as `\:`.
pub fn append_escaped(out: &mut String, s: &str)
    ensures
        final(out)@ == old(out)@ + escape_colons(s@),
{
    let n = s.unicode_len();
    let mut i: usize = 0;
    proof {
        reveal_strlit("\\:");
    }
    assert(s@.take(0) =~= Seq::<char>::empty());
    while i < n
        invariant
            n == s@.len(),
            i <= n,
            out@ == old(out)@ + escape_colons(s@.take(i as int)),
            "\\:"@ == seq!['\\', ':'],
        decreases n - i,
    {
        assert(s@.take(i + 1).drop_last() =~= s@.take(i as int));
        if s.get_char(i) == ':' {
            out.append("\\:");
        } else {
            let c = s.substring_char(i, i + 1);
            assert(c@ =~= seq![s@[i as int]]);
            out.append(c);
        }
        assert(out@ =~= old(out)@ + escape_colons(s@.take(i + 1)));
        i = i + 1;
    }
    assert(s@.take(n as int) =~= s@);
}

/// The items joined with `sep`; each escaped first when `escape` is set.
pub fn join_items(items: &Vec<String>, sep: &str, escape: bool) -> (r: String)
    ensures
        r@ == joined(
            if escape {
                items.deep_view().map_values(|f: Seq<char>| escape_colons(f))
            } else {
                items.deep_view()
            },
            sep@,
        ),
{
    let ghost parts = if escape {
        items.deep_view().map_values(|f: Seq<char>| escape_colons(f))
    } else {
        items.deep_view()
    };
    let mut out = String::new();
    let mut i: usize = 0;
    while i < items.len()
        invariant
            i <= items@.len(),
            parts.len() == items@.len(),
            parts == if escape {
                items.deep_view().map_values(|f: Seq<char>| escape_colons(f))
            } else {
                items.deep_view()
            },
            out@ == joined(parts.take(i as int), sep@),
        decreases items@.len() - i,
    {
        assert(parts.take(i + 1).drop_last() =~= parts.take(i as int));
        if i > 0 {
            out.append(sep);
        }
        if escape {
            append_escaped(&mut out, items[i].as_str());
        } else {
            out.append(items[i].as_str());
        }
        proof {
            if i == 0 {
                assert(parts.take(1)[0] == parts[0]);
                assert(out@ =~= joined(parts.take(1), sep@));
            }
        }
        i = i + 1;
    }
    assert(parts.take(items@.len() as int) =~= parts);
    out
}

} // verus!
