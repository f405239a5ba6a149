use vstd::prelude::*;

verus! {

/// The character sequences of a list of strings.
pub open spec fn token_views(tokens: Seq<String>) -> Seq<Seq<char>> {
    tokens.map_values(|t: String| t@)
}

/// The concatenation of the first `k` pieces.
pub open spec fn concat_upto(pieces: Seq<Seq<char>>, k: int) -> Seq<char>
    decreases k,
{
    if k <= 0 {
        Seq::empty()
    } else {
        concat_upto(pieces, k - 1) + pieces[k - 1]
    }
}

/// The concatenation of all pieces, in order.
pub open spec fn concat_all(pieces: Seq<Seq<char>>) -> Seq<char> {
    concat_upto(pieces, pieces.len() as int)
}

/// `s` with every occurrence of `from` replaced by `to`.
pub open spec fn replace_char(s: Seq<char>, from: char, to: char) -> Seq<char> {
    s.map_values(|c: char| if c == from { to } else { c })
}

/// Whether `s` ends with `suffix`.
pub open spec fn ends_with(s: Seq<char>, suffix: Seq<char>) -> bool {
    suffix.len() <= s.len() && s.subrange(s.len() - suffix.len(), s.len() as int) == suffix
}

/// Relies on `String::push`: appends one character.
#[verifier::external_body]
pub(crate) fn push_char(s: &mut String, c: char)
    ensures
        final(s)@ == old(s)@.push(c),
{
    s.push(c)
}

/// Whether `s` ends with `suffix`, compared character by character.
pub fn str_ends_with(s: &str, suffix: &str) -> (r: bool)
    ensures
        r == ends_with(s@, suffix@),
{
    let n = s.unicode_len();
    let m = suffix.unicode_len();
    if m > n {
        return false;
    }
    let off: usize = n - m;
    let mut i: usize = 0;
    while i < m
        invariant
            n == s@.len(),
            m == suffix@.len(),
            off == n - m,
            i <= m,
            forall|j: int| 0 <= j < i ==> s@[off + j] == suffix@[j],
        decreases m - i,
    {
        if s.get_char(off + i) != suffix.get_char(i) {
            assert(s@.subrange(off as int, n as int)[i as int] != suffix@[i as int]);
            return false;
        }
        i = i + 1;
    }
    assert(s@.subrange(off as int, n as int) =~= suffix@);
    true
}

/// `s` with every non-overlapping occurrence of `from`, taken from left to
/// right, replaced by `to`; `from` is not empty.
pub open spec fn replace_all(s: Seq<char>, from: Seq<char>, to: Seq<char>) -> Seq<char>
    decreases s.len(),
{
    if from.len() == 0 || s.len() < from.len() {
        s
    } else if s.subrange(0, from.len() as int) == from {
        to + replace_all(s.subrange(from.len() as int, s.len() as int), from, to)
    } else {
        seq![s[0]] + replace_all(s.drop_first(), from, to)
    }
}

/// The first `k` pieces joined with single spaces.
pub open spec fn join_space_upto(pieces: Seq<Seq<char>>, k: int) -> Seq<char>
    decreases k,
{
    if k <= 0 {
        Seq::empty()
    } else if k == 1 {
        pieces[0]
    } else {
        join_space_upto(pieces, k - 1) + seq![' '] + pieces[k - 1]
    }
}

/// All pieces joined with single spaces.
pub open spec fn join_space(pieces: Seq<Seq<char>>) -> Seq<char> {
    join_space_upto(pieces, pieces.len() as int)
}

/// Whether `pat` occurs in `s` at character position `i`.
pub fn matches_at(s: &str, pat: &str, i: usize) -> (r: bool)
    requires
        i <= s@.len(),
    ensures
        r == (pat@.len() <= s@.len() - i && s@.subrange(i as int, i + pat@.len()) == pat@),
{
    let n = s.unicode_len();
    let m = pat.unicode_len();
    if m > n - i {
        return false;
    }
    let mut j: usize = 0;
    while j < m
        invariant
            n == s@.len(),
            m == pat@.len(),
            i + m <= n,
            j <= m,
            forall|k: int| 0 <= k < j ==> s@[i + k] == pat@[k],
        decreases m - j,
    {
        if s.get_char(i + j) != pat.get_char(j) {
            assert(s@.subrange(i as int, i + m)[j as int] != pat@[j as int]);
            return false;
        }
        j = j + 1;
    }
    assert(s@.subrange(i as int, i + m) =~= pat@);
    true
}

/// `s` with every occurrence of the non-empty `pat` removed, left to right.
pub fn remove_all(s: &str, pat: &str) -> (r: String)
    requires
        pat@.len() > 0,
    ensures
        r@ == replace_all(s@, pat@, Seq::empty()),
{
    let n = s.unicode_len();
    let m = pat.unicode_len();
    let mut out = String::new();
    let mut i: usize = 0;
    assert(s@.subrange(0, n as int) =~= s@);
    assert(out@ + replace_all(s@, pat@, Seq::empty()) =~= replace_all(s@, pat@, Seq::empty()));
    while i < n
        invariant
            n == s@.len(),
            m == pat@.len(),
            m > 0,
            i <= n,
            replace_all(s@, pat@, Seq::empty()) == out@ + replace_all(
                s@.subrange(i as int, n as int),
                pat@,
                Seq::empty(),
            ),
        decreases n - i,
    {
        let ghost rest = s@.subrange(i as int, n as int);
        if matches_at(s, pat, i) {
            assert(rest.subrange(0, m as int) =~= s@.subrange(i as int, i + m));
            assert(rest.subrange(m as int, rest.len() as int) =~= s@.subrange(i + m, n as int));
            assert(Seq::<char>::empty() + replace_all(s@.subrange(i + m, n as int), pat@, Seq::empty())
                =~= replace_all(s@.subrange(i + m, n as int), pat@, Seq::empty()));
            i = i + m;
        } else {
            let c = s.get_char(i);
            if m <= n - i {
                assert(rest.subrange(0, m as int) =~= s@.subrange(i as int, i + m));
            }
            assert(rest.drop_first() =~= s@.subrange(i + 1, n as int));
            let ghost old_out = out@;
            push_char(&mut out, c);
            assert(old_out + (seq![c] + replace_all(s@.subrange(i + 1, n as int), pat@, Seq::empty()))
                =~= out@ + replace_all(s@.subrange(i + 1, n as int), pat@, Seq::empty()));
            i = i + 1;
        }
    }
    assert(s@.subrange(n as int, n as int) =~= Seq::<char>::empty());
    assert(out@ + Seq::<char>::empty() =~= out@);
    out
}

/// The strings joined with single spaces.
pub fn join_with_space(tokens: &Vec<String>) -> (r: String)
    ensures
        r@ == join_space(token_views(tokens@)),
{
    let ghost tv = token_views(tokens@);
    let mut out = String::new();
    let mut i: usize = 0;
    while i < tokens.len()
        invariant
            i <= tokens.len(),
            tv == token_views(tokens@),
            tv.len() == tokens.len(),
            out@ == join_space_upto(tv, i as int),
        decreases tokens.len() - i,
    {
        let t = tokens[i].as_str();
        if i > 0 {
            push_char(&mut out, ' ');
        }
        out.append(t);
        assert(tv[i as int] == t@);
        assert(out@ =~= join_space_upto(tv, i + 1));
        i = i + 1;
    }
    out
}

} // verus!
