//! Verified character-sequence helpers: searching, splitting, joining, and
//! the `pct` -> `%` rewriting used by the shorthand normalizer.
use vstd::prelude::*;

verus! {

/// True when some position of `s` holds the character `c`.
pub open spec fn contains_char(s: Seq<char>, c: char) -> bool {
    exists|i: int| 0 <= i < s.len() && s[i] == c
}

/// The pieces of `s` between occurrences of the separator `sep`, in order.
/// An empty sequence has one (empty) piece, like `str::split`.
pub open spec fn split_on(s: Seq<char>, sep: char) -> Seq<Seq<char>>
    decreases s.len(),
{
    if s.len() == 0 {
        seq![Seq::<char>::empty()]
    } else if s[0] == sep {
        seq![Seq::<char>::empty()] + split_on(s.skip(1), sep)
    } else {
        let rest = split_on(s.skip(1), sep);
        seq![seq![s[0]] + rest[0]] + rest.skip(1)
    }
}

/// The pieces of `parts` concatenated, with `sep` between neighbours.
pub open spec fn join_with(parts: Seq<Seq<char>>, sep: Seq<char>) -> Seq<char>
    decreases parts.len(),
{
    if parts.len() == 0 {
        Seq::empty()
    } else if parts.len() == 1 {
        parts[0]
    } else {
        parts[0] + sep + join_with(parts.skip(1), sep)
    }
}

/// `s` with every occurrence of the three characters `pct` replaced by `%`,
/// scanning left to right without overlap, like `str::replace`.
pub open spec fn replace_pct(s: Seq<char>) -> Seq<char>
    decreases s.len(),
{
    if s.len() >= 3 && s[0] == 'p' && s[1] == 'c' && s[2] == 't' {
        seq!['%'] + replace_pct(s.skip(3))
    } else if s.len() > 0 {
        seq![s[0]] + replace_pct(s.skip(1))
    } else {
        Seq::empty()
    }
}

/// Splitting always yields at least one piece.
pub proof fn lemma_split_len(s: Seq<char>, sep: char)
    ensures
        split_on(s, sep).len() >= 1,
    decreases s.len(),
{
    if s.len() == 0 {
    } else if s[0] == sep {
    } else {
        lemma_split_len(s.skip(1), sep);
    }
}

/// A sequence without the separator splits into itself alone.
pub proof fn lemma_split_no_sep(s: Seq<char>, sep: char)
    requires
        !contains_char(s, sep),
    ensures
        split_on(s, sep) =~= seq![s],
    decreases s.len(),
{
    if s.len() == 0 {
        assert(split_on(s, sep) == seq![Seq::<char>::empty()]);
        assert(s =~= Seq::<char>::empty());
    } else {
        assert(s[0] != sep);
        assert(!contains_char(s.skip(1), sep)) by {
            if contains_char(s.skip(1), sep) {
                let i = choose|i: int| 0 <= i < s.skip(1).len() && s.skip(1)[i] == sep;
                assert(s[i + 1] == sep);
            }
        }
        lemma_split_no_sep(s.skip(1), sep);
        let rest = split_on(s.skip(1), sep);
        assert(rest == seq![s.skip(1)]);
        assert(seq![s[0]] + rest[0] =~= s);
        assert(rest.skip(1) =~= Seq::<Seq<char>>::empty());
        assert(split_on(s, sep) =~= seq![s]);
    }
}

/// Splitting a concatenation `a + sep + b`, where `a` is separator-free,
/// yields `a` followed by the split of `b`.
pub proof fn lemma_split_concat(a: Seq<char>, b: Seq<char>, sep: char)
    requires
        !contains_char(a, sep),
    ensures
        split_on(a + seq![sep] + b, sep) =~= seq![a] + split_on(b, sep),
    decreases a.len(),
{
    let s = a + seq![sep] + b;
    if a.len() == 0 {
        assert(s[0] == sep);
        assert(s.skip(1) =~= b);
        assert(split_on(s, sep) == seq![Seq::<char>::empty()] + split_on(b, sep));
        assert(a =~= Seq::<char>::empty());
    } else {
        assert(s[0] == a[0]);
        assert(s[0] != sep);
        assert(!contains_char(a.skip(1), sep)) by {
            if contains_char(a.skip(1), sep) {
                let i = choose|i: int| 0 <= i < a.skip(1).len() && a.skip(1)[i] == sep;
                assert(a[i + 1] == sep);
            }
        }
        lemma_split_concat(a.skip(1), b, sep);
        assert(s.skip(1) =~= a.skip(1) + seq![sep] + b);
        let rest = split_on(s.skip(1), sep);
        assert(rest =~= seq![a.skip(1)] + split_on(b, sep));
        lemma_split_len(b, sep);
        assert(rest[0] == a.skip(1));
        assert(seq![s[0]] + rest[0] =~= a);
        assert(rest.skip(1) =~= split_on(b, sep));
        assert(split_on(s, sep) =~= seq![a] + split_on(b, sep));
    }
}

/// Appending a non-separator character extends the last piece.
pub proof fn lemma_split_push_char(s: Seq<char>, c: char, sep: char)
    requires
        c != sep,
    ensures
        split_on(s.push(c), sep).len() == split_on(s, sep).len(),
        split_on(s.push(c), sep) =~= split_on(s, sep).take(split_on(s, sep).len() - 1).push(
            split_on(s, sep).last().push(c),
        ),
    decreases s.len(),
{
    lemma_split_len(s, sep);
    let ps = split_on(s, sep);
    let t = s.push(c);
    if s.len() == 0 {
        assert(t.len() == 1 && t[0] == c);
        assert(t[0] != sep);
        assert(t.skip(1) =~= Seq::<char>::empty());
        let rest = split_on(t.skip(1), sep);
        assert(rest == seq![Seq::<char>::empty()]);
        assert(split_on(t, sep) =~= seq![seq![c]]);
        assert(ps.last().push(c) =~= seq![c]);
        assert(split_on(t, sep) =~= ps.take(ps.len() - 1).push(ps.last().push(c)));
    } else if s[0] == sep {
        lemma_split_push_char(s.skip(1), c, sep);
        assert(t[0] == sep);
        assert(t.skip(1) =~= s.skip(1).push(c));
        let psr = split_on(s.skip(1), sep);
        lemma_split_len(s.skip(1), sep);
        assert(ps == seq![Seq::<char>::empty()] + psr);
        assert(ps.last() == psr.last());
        assert(split_on(t, sep) =~= ps.take(ps.len() - 1).push(ps.last().push(c)));
    } else {
        lemma_split_push_char(s.skip(1), c, sep);
        assert(t[0] == s[0]);
        assert(t[0] != sep);
        assert(t.skip(1) =~= s.skip(1).push(c));
        let psr = split_on(s.skip(1), sep);
        lemma_split_len(s.skip(1), sep);
        let rest = split_on(t.skip(1), sep);
        assert(rest =~= psr.take(psr.len() - 1).push(psr.last().push(c)));
        if psr.len() == 1 {
            assert(rest[0] == psr[0].push(c));
            assert(seq![t[0]] + rest[0] =~= (seq![s[0]] + psr[0]).push(c));
            assert(ps.len() == 1);
            assert(ps.last() == seq![s[0]] + psr[0]);
            assert(rest.skip(1) =~= Seq::<Seq<char>>::empty());
            assert(split_on(t, sep) =~= ps.take(ps.len() - 1).push(ps.last().push(c)));
        } else {
            assert(rest[0] == psr[0]);
            assert(ps == seq![seq![s[0]] + psr[0]] + psr.skip(1));
            assert(ps.last() == psr.last());
            assert(split_on(t, sep) =~= ps.take(ps.len() - 1).push(ps.last().push(c)));
        }
    }
}

/// Appending the separator adds a fresh empty piece at the end.
pub proof fn lemma_split_push_sep(s: Seq<char>, sep: char)
    ensures
        split_on(s.push(sep), sep) =~= split_on(s, sep).push(Seq::<char>::empty()),
    decreases s.len(),
{
    let t = s.push(sep);
    if s.len() == 0 {
        assert(t[0] == sep);
        assert(t.skip(1) =~= Seq::<char>::empty());
        assert(split_on(t, sep) == seq![Seq::<char>::empty()] + split_on(t.skip(1), sep));
        assert(split_on(Seq::<char>::empty(), sep) == seq![Seq::<char>::empty()]);
        assert(s =~= Seq::<char>::empty());
        assert(split_on(t, sep) =~= split_on(s, sep).push(Seq::<char>::empty()));
    } else if s[0] == sep {
        lemma_split_push_sep(s.skip(1), sep);
        assert(t[0] == sep);
        assert(t.skip(1) =~= s.skip(1).push(sep));
        assert(split_on(t, sep) == seq![Seq::<char>::empty()] + split_on(t.skip(1), sep));
        assert(split_on(t, sep) =~= split_on(s, sep).push(Seq::<char>::empty()));
    } else {
        lemma_split_push_sep(s.skip(1), sep);
        assert(t[0] == s[0]);
        assert(t.skip(1) =~= s.skip(1).push(sep));
        let psr = split_on(s.skip(1), sep);
        lemma_split_len(s.skip(1), sep);
        let rest = split_on(t.skip(1), sep);
        assert(rest =~= psr.push(Seq::<char>::empty()));
        assert(rest[0] == psr[0]);
        assert(rest.skip(1) =~= psr.skip(1).push(Seq::<char>::empty()));
        assert(split_on(t, sep) =~= split_on(s, sep).push(Seq::<char>::empty()));
    }
}

/// A sequence containing the separator splits into at least two pieces.
pub proof fn lemma_split_two(s: Seq<char>, sep: char)
    requires
        contains_char(s, sep),
    ensures
        split_on(s, sep).len() >= 2,
    decreases s.len(),
{
    if s[0] == sep {
        lemma_split_len(s.skip(1), sep);
    } else {
        assert(contains_char(s.skip(1), sep)) by {
            let i = choose|i: int| 0 <= i < s.len() && s[i] == sep;
            assert(s.skip(1)[i - 1] == sep);
        }
        lemma_split_two(s.skip(1), sep);
    }
}

/// Joining one more piece appends a separator and that piece.
pub proof fn lemma_join_take(parts: Seq<Seq<char>>, sep: Seq<char>, k: int)
    requires
        1 <= k < parts.len(),
    ensures
        join_with(parts.take(k + 1), sep) =~= join_with(parts.take(k), sep) + sep + parts[k],
    decreases k,
{
    if k == 1 {
        assert(parts.take(2) =~= seq![parts[0], parts[1]]);
        assert(parts.take(2).skip(1) =~= seq![parts[1]]);
        assert(parts.take(1) =~= seq![parts[0]]);
        assert(join_with(seq![parts[0], parts[1]], sep) == parts[0] + sep + join_with(
            seq![parts[1]],
            sep,
        ));
        assert(join_with(seq![parts[1]], sep) == parts[1]);
        assert(join_with(parts.take(1), sep) == parts[0]);
        assert(join_with(parts.take(2), sep) =~= join_with(parts.take(1), sep) + sep + parts[1]);
    } else {
        lemma_join_take(parts.skip(1), sep, k - 1);
        assert(parts.take(k + 1).skip(1) =~= parts.skip(1).take(k));
        assert(parts.take(k).skip(1) =~= parts.skip(1).take(k - 1));
        assert(parts.take(k + 1)[0] == parts[0]);
        assert(parts.skip(1)[k - 1] == parts[k]);
        assert(join_with(parts.take(k + 1), sep) == parts[0] + sep + join_with(
            parts.skip(1).take(k),
            sep,
        ));
        assert(join_with(parts.take(k), sep) == parts[0] + sep + join_with(
            parts.skip(1).take(k - 1),
            sep,
        ));
        assert(join_with(parts.take(k + 1), sep) =~= join_with(parts.take(k), sep) + sep
            + parts[k]);
    }
}

/// Collects the characters of a string slice into a vector.
pub fn chars_vec(s: &str) -> (v: Vec<char>)
    ensures
        v@ == s@,
{
    let n = s.unicode_len();
    let mut v: Vec<char> = Vec::new();
    let mut i: usize = 0;
    while i < n
        invariant
            n == s@.len(),
            i <= n,
            v@ == s@.take(i as int),
        decreases n - i,
    {
        v.push(s.get_char(i));
        i = i + 1;
        assert(v@ =~= s@.take(i as int));
    }
    assert(s@.take(n as int) =~= s@);
    v
}

/// Relies on String::push: appends one character to the end of the string.
#[verifier::external_body]
fn push_char(s: &mut String, c: char)
    ensures
        final(s)@ == old(s)@.push(c),
{
    s.push(c)
}

/// Builds a string holding exactly the given characters.
pub fn string_of_chars(v: &[char]) -> (s: String)
    ensures
        s@ == v@,
{
    let mut s = String::new();
    let mut i: usize = 0;
    while i < v.len()
        invariant
            i <= v.len(),
            s@ == v@.take(i as int),
        decreases v.len() - i,
    {
        push_char(&mut s, v[i]);
        i = i + 1;
        assert(s@ =~= v@.take(i as int));
    }
    assert(v@.take(v@.len() as int) =~= v@);
    s
}

/// True when the slice holds the character `c`.
pub fn slice_contains(v: &[char], c: char) -> (r: bool)
    ensures
        r == contains_char(v@, c),
{
    let mut i: usize = 0;
    while i < v.len()
        invariant
            i <= v.len(),
            forall|j: int| 0 <= j < i ==> v@[j] != c,
        decreases v.len() - i,
    {
        if v[i] == c {
            return true;
        }
        i = i + 1;
    }
    false
}

/// Splits the characters on the separator, like `str::split`.
pub fn split_chars(v: &[char], sep: char) -> (parts: Vec<Vec<char>>)
    ensures
        parts@.map_values(|p: Vec<char>| p@) == split_on(v@, sep),
{
    let mut parts: Vec<Vec<char>> = Vec::new();
    let mut cur: Vec<char> = Vec::new();
    let mut i: usize = 0;
    while i < v.len()
        invariant
            i <= v.len(),
            split_on(v@.take(i as int), sep) =~= parts@.map_values(|p: Vec<char>| p@).push(cur@),
        decreases v.len() - i,
    {
        let ghost pre = v@.take(i as int);
        let ghost ps = split_on(pre, sep);
        proof {
            lemma_split_len(pre, sep);
        }
        if v[i] == sep {
            proof {
                lemma_split_push_sep(pre, sep);
            }
            parts.push(cur);
            cur = Vec::new();
        } else {
            proof {
                lemma_split_push_char(pre, v@[i as int], sep);
                assert(ps.last() == cur@);
                assert(ps.take(ps.len() - 1) =~= parts@.map_values(|p: Vec<char>| p@));
            }
            cur.push(v[i]);
        }
        i = i + 1;
        proof {
            assert(v@.take(i as int) =~= pre.push(v@[i - 1]));
        }
    }
    proof {
        assert(v@.take(v@.len() as int) =~= v@);
    }
    parts.push(cur);
    proof {
        assert(parts@.map_values(|p: Vec<char>| p@) =~= split_on(v@, sep));
    }
    parts
}

/// Rewrites every occurrence of `pct` to `%`, like `str::replace("pct", "%")`.
pub fn replace_pct_chars(v: &[char]) -> (out: Vec<char>)
    ensures
        out@ == replace_pct(v@),
{
    let mut out: Vec<char> = Vec::new();
    let mut i: usize = 0;
    proof {
        assert(v@.skip(0) =~= v@);
        assert(Seq::<char>::empty() + replace_pct(v@) =~= replace_pct(v@));
    }
    while i < v.len()
        invariant
            i <= v.len(),
            replace_pct(v@) =~= out@ + replace_pct(v@.skip(i as int)),
        decreases v.len() - i,
    {
        let ghost rest = v@.skip(i as int);
        if v.len() - i > 2 && v[i] == 'p' && v[i + 1] == 'c' && v[i + 2] == 't' {
            proof {
                assert(rest[0] == 'p' && rest[1] == 'c' && rest[2] == 't');
                assert(rest.skip(3) =~= v@.skip(i as int + 3));
            }
            out.push('%');
            i = i + 3;
        } else {
            proof {
                assert(rest.len() > 0 && rest[0] == v@[i as int]);
                if rest.len() >= 3 {
                    assert(rest[1] == v@[i as int + 1] && rest[2] == v@[i as int + 2]);
                }
                assert(rest.skip(1) =~= v@.skip(i as int + 1));
            }
            out.push(v[i]);
            i = i + 1;
        }
    }
    proof {
        assert(v@.skip(v@.len() as int) =~= Seq::<char>::empty());
        assert(replace_pct(v@) =~= out@);
    }
    out
}

/// Joins the first `count` pieces with the separator between neighbours.
pub fn join_chars(parts: &[Vec<char>], count: usize, sep: &[char]) -> (out: Vec<char>)
    requires
        count <= parts@.len(),
    ensures
        out@ == join_with(parts@.map_values(|p: Vec<char>| p@).take(count as int), sep@),
{
    let ghost model = parts@.map_values(|p: Vec<char>| p@);
    let mut out: Vec<char> = Vec::new();
    if count == 0 {
        assert(model.take(0) =~= Seq::<Seq<char>>::empty());
        return out;
    }
    let mut k: usize = 0;
    while k < parts[0].len()
        invariant
            parts@.len() >= 1,
            k <= parts@[0]@.len(),
            out@ == parts@[0]@.take(k as int),
        decreases parts[0]@.len() - k,
    {
        out.push(parts[0][k]);
        k = k + 1;
        assert(out@ =~= parts@[0]@.take(k as int));
    }
    assert(out@ =~= model[0]) by {
        assert(parts@[0]@.take(parts@[0]@.len() as int) =~= parts@[0]@);
    }
    assert(model.take(1) =~= seq![model[0]]);
    let mut p: usize = 1;
    while p < count
        invariant
            1 <= p <= count <= parts@.len(),
            model == parts@.map_values(|q: Vec<char>| q@),
            out@ == join_with(model.take(p as int), sep@),
        decreases count - p,
    {
        let mut j: usize = 0;
        let ghost mid = out@;
        while j < sep.len()
            invariant
                j <= sep@.len(),
                out@ == mid + sep@.take(j as int),
            decreases sep@.len() - j,
        {
            out.push(sep[j]);
            j = j + 1;
            assert(out@ =~= mid + sep@.take(j as int));
        }
        assert(out@ =~= mid + sep@) by {
            assert(sep@.take(sep@.len() as int) =~= sep@);
        }
        let mut k2: usize = 0;
        let ghost mid2 = out@;
        while k2 < parts[p].len()
            invariant
                p < parts@.len(),
                k2 <= parts@[p as int]@.len(),
                out@ == mid2 + parts@[p as int]@.take(k2 as int),
            decreases parts@[p as int]@.len() - k2,
        {
            out.push(parts[p][k2]);
            k2 = k2 + 1;
            assert(out@ =~= mid2 + parts@[p as int]@.take(k2 as int));
        }
        assert(out@ =~= mid2 + model[p as int]) by {
            assert(parts@[p as int]@.take(parts@[p as int]@.len() as int) =~= parts@[p as int]@);
        }
        proof {
            lemma_join_take(model, sep@, p as int);
        }
        p = p + 1;
        assert(out@ =~= join_with(model.take(p as int), sep@));
    }
    out
}

} // verus!
