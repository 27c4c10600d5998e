//! The shorthand normalizer: rewrites the slash-delimited positional color
//! shorthand (`rgb/255/127/0/0.5`) into canonical CSS function syntax
//! (`rgb(255 127 0 / 0.5)`). Text already in CSS syntax passes through
//! unchanged, and the `css/<keyword>` form returns the bare keyword.
use vstd::prelude::*;

use crate::strutil::{
    chars_vec, contains_char, join_chars, join_with, lemma_split_concat, lemma_split_no_sep,
    lemma_split_two, replace_pct, replace_pct_chars, slice_contains, split_chars, split_on,
    string_of_chars,
};

verus! {

/// The characters of the literal tag `css`, the escape hatch of the shorthand.
pub open spec fn css_tag() -> Seq<char> {
    seq!['c', 's', 's']
}

/// What the shorthand normalizer returns on the characters of the input.
///
/// Text holding a parenthesis, or holding no slash, passes through unchanged.
/// Otherwise the text splits on `/`: the first piece is the color-space tag;
/// the tag `css` returns the following piece verbatim; any other tag wraps the
/// remaining pieces, with `pct` rewritten to `%`, as `tag(v1 v2 ...)`, and a
/// five-piece input marks its last piece as alpha: `tag(v1 v2 v3 / alpha)`.
pub open spec fn normalize_spec(s: Seq<char>) -> Seq<char> {
    if contains_char(s, '(') || contains_char(s, ')') {
        s
    } else if !contains_char(s, '/') {
        s
    } else {
        let parts = split_on(s, '/');
        if parts[0] == css_tag() {
            parts[1]
        } else {
            let vals = parts.skip(1).map_values(|v: Seq<char>| replace_pct(v));
            let inner = if parts.len() == 5 {
                join_with(vals.take(3), seq![' ']) + seq![' ', '/', ' '] + vals[3]
            } else {
                join_with(vals, seq![' '])
            };
            parts[0] + seq!['('] + inner + seq![')']
        }
    }
}

/// True when `v` holds exactly the characters of the `css` tag.
fn is_css_tag(v: &[char]) -> (r: bool)
    ensures
        r == (v@ == css_tag()),
{
    let r = v.len() == 3 && v[0] == 'c' && v[1] == 's' && v[2] == 's';
    proof {
        if r {
            assert(v@ =~= css_tag());
        }
    }
    r
}

/// Appends the characters of `src` to `dst`.
fn extend_chars(dst: &mut Vec<char>, src: &[char])
    ensures
        final(dst)@ == old(dst)@ + src@,
{
    let mut i: usize = 0;
    while i < src.len()
        invariant
            i <= src.len(),
            dst@ == old(dst)@ + src@.take(i as int),
        decreases src.len() - i,
    {
        dst.push(src[i]);
        i = i + 1;
        assert(dst@ =~= old(dst)@ + src@.take(i as int));
    }
    assert(old(dst)@ + src@.take(src@.len() as int) =~= old(dst)@ + src@);
}

/// Rewrites the slash-delimited shorthand into canonical CSS function syntax.
/// It never fails: text it does not understand passes through unchanged.
pub fn convert_to_css_string(input: &str) -> (r: String)
    ensures
        r@ == normalize_spec(input@),
{
    let cs = chars_vec(input);
    if slice_contains(cs.as_slice(), '(') || slice_contains(cs.as_slice(), ')') {
        return input.to_owned();
    }
    if !slice_contains(cs.as_slice(), '/') {
        return input.to_owned();
    }
    proof {
        lemma_split_two(cs@, '/');
    }
    let parts = split_chars(cs.as_slice(), '/');
    let ghost model = parts@.map_values(|p: Vec<char>| p@);
    assert(model.len() >= 2);
    if is_css_tag(parts[0].as_slice()) {
        return string_of_chars(parts[1].as_slice());
    }
    let ghost vals_spec = model.skip(1).map_values(|v: Seq<char>| replace_pct(v));
    let mut vals: Vec<Vec<char>> = Vec::new();
    let mut i: usize = 1;
    while i < parts.len()
        invariant
            1 <= i <= parts@.len(),
            model == parts@.map_values(|p: Vec<char>| p@),
            vals@.len() == i - 1,
            forall|j: int| 0 <= j < i - 1 ==> vals@[j]@ == replace_pct(model[j + 1]),
        decreases parts@.len() - i,
    {
        let piece = replace_pct_chars(parts[i].as_slice());
        vals.push(piece);
        i = i + 1;
    }
    proof {
        assert(vals@.map_values(|p: Vec<char>| p@) =~= vals_spec) by {
            assert(vals@.len() == model.len() - 1);
            assert forall|j: int| 0 <= j < vals@.len() implies vals@.map_values(|p: Vec<char>| p@)[j]
                == vals_spec[j] by {
                assert(vals@[j]@ == replace_pct(model[j + 1]));
                assert(model.skip(1)[j] == model[j + 1]);
            }
        }
    }
    let space: &[char] = &[' '];
    proof {
        assert(space@ =~= seq![' ']);
    }
    let mut inner: Vec<char>;
    if parts.len() == 5 {
        inner = join_chars(vals.as_slice(), 3, space);
        extend_chars(&mut inner, &[' ', '/', ' ']);
        extend_chars(&mut inner, vals[3].as_slice());
        proof {
            assert(seq![' ', '/', ' '] =~= [' ', '/', ' ']@);
            assert(vals@[3]@ == vals_spec[3]);
            assert(inner@ =~= join_with(vals_spec.take(3), seq![' ']) + seq![' ', '/', ' ']
                + vals_spec[3]);
        }
    } else {
        inner = join_chars(vals.as_slice(), vals.len(), space);
        proof {
            assert(vals_spec.take(vals_spec.len() as int) =~= vals_spec);
        }
    }
    let mut out: Vec<char> = Vec::new();
    extend_chars(&mut out, parts[0].as_slice());
    out.push('(');
    extend_chars(&mut out, inner.as_slice());
    out.push(')');
    proof {
        assert(out@ =~= model[0] + seq!['('] + inner@ + seq![')']);
    }
    string_of_chars(out.as_slice())
}

/// True when `s` holds none of the three structural characters of the
/// shorthand: `(`, `)` and `/`.
pub open spec fn plain_part(s: Seq<char>) -> bool {
    !contains_char(s, '(') && !contains_char(s, ')') && !contains_char(s, '/')
}

/// A character occurs in a concatenation exactly when it occurs in a piece.
pub proof fn lemma_contains_concat(a: Seq<char>, b: Seq<char>, c: char)
    ensures
        contains_char(a + b, c) == (contains_char(a, c) || contains_char(b, c)),
{
    if contains_char(a, c) {
        let i = choose|i: int| 0 <= i < a.len() && a[i] == c;
        assert((a + b)[i] == c);
    }
    if contains_char(b, c) {
        let i = choose|i: int| 0 <= i < b.len() && b[i] == c;
        assert((a + b)[a.len() + i] == c);
    }
    if contains_char(a + b, c) {
        let i = choose|i: int| 0 <= i < (a + b).len() && (a + b)[i] == c;
        if i < a.len() {
            assert(a[i] == c);
        } else {
            assert(b[i - a.len()] == c);
        }
    }
}

/// The split of `tag/v1/v2/v3` into its four slash-free pieces.
proof fn lemma_split_four(tag: Seq<char>, v1: Seq<char>, v2: Seq<char>, v3: Seq<char>)
    requires
        !contains_char(tag, '/'),
        !contains_char(v1, '/'),
        !contains_char(v2, '/'),
        !contains_char(v3, '/'),
    ensures
        split_on(tag + seq!['/'] + v1 + seq!['/'] + v2 + seq!['/'] + v3, '/') =~= seq![tag, v1, v2, v3],
{
    let s = tag + seq!['/'] + v1 + seq!['/'] + v2 + seq!['/'] + v3;
    let r1 = v1 + seq!['/'] + v2 + seq!['/'] + v3;
    let r2 = v2 + seq!['/'] + v3;
    assert(s =~= tag + seq!['/'] + r1);
    assert(r1 =~= v1 + seq!['/'] + r2);
    lemma_split_concat(tag, r1, '/');
    lemma_split_concat(v1, r2, '/');
    lemma_split_concat(v2, v3, '/');
    lemma_split_no_sep(v3, '/');
}

/// Shorthand with three trailing values: `tag/v1/v2/v3` normalizes to
/// `tag(v1 v2 v3)`, for plain pieces in which the `pct` rewriting has
/// nothing to do and a tag other than the `css` escape hatch.
#[verifier::rlimit(100)]
pub proof fn lemma_shorthand_three(tag: Seq<char>, v1: Seq<char>, v2: Seq<char>, v3: Seq<char>)
    requires
        plain_part(tag),
        plain_part(v1),
        plain_part(v2),
        plain_part(v3),
        tag != css_tag(),
        replace_pct(v1) == v1,
        replace_pct(v2) == v2,
        replace_pct(v3) == v3,
    ensures
        normalize_spec(tag + seq!['/'] + v1 + seq!['/'] + v2 + seq!['/'] + v3) =~= tag + seq!['(']
            + v1 + seq![' '] + v2 + seq![' '] + v3 + seq![')'],
{
    let s = tag + seq!['/'] + v1 + seq!['/'] + v2 + seq!['/'] + v3;
    lemma_contains_no_structural(s, tag, v1, v2, v3);
    lemma_split_four(tag, v1, v2, v3);
    let parts = split_on(s, '/');
    assert(parts == seq![tag, v1, v2, v3]);
    assert(parts[0] == tag);
    let vals = parts.skip(1).map_values(|v: Seq<char>| replace_pct(v));
    assert(parts.skip(1) =~= seq![v1, v2, v3]);
    assert(vals =~= seq![v1, v2, v3]);
    assert(parts.len() == 4);
    let sp = seq![' '];
    assert(vals.skip(1) =~= seq![v2, v3]);
    assert(seq![v2, v3].skip(1) =~= seq![v3]);
    assert(join_with(seq![v3], sp) == v3);
    assert(join_with(seq![v2, v3], sp) == v2 + sp + join_with(seq![v3], sp));
    assert(join_with(vals, sp) == v1 + sp + join_with(seq![v2, v3], sp));
    assert(normalize_spec(s) =~= tag + seq!['('] + v1 + seq![' '] + v2 + seq![' '] + v3 + seq![
        ')',
    ]);
}

/// Shorthand with four trailing values: `tag/v1/v2/v3/v4` normalizes to
/// `tag(v1 v2 v3 / v4)`: the fourth trailing value is the alpha channel.
#[verifier::rlimit(100)]
pub proof fn lemma_shorthand_alpha(
    tag: Seq<char>,
    v1: Seq<char>,
    v2: Seq<char>,
    v3: Seq<char>,
    v4: Seq<char>,
)
    requires
        plain_part(tag),
        plain_part(v1),
        plain_part(v2),
        plain_part(v3),
        plain_part(v4),
        tag != css_tag(),
        replace_pct(v1) == v1,
        replace_pct(v2) == v2,
        replace_pct(v3) == v3,
        replace_pct(v4) == v4,
    ensures
        normalize_spec(tag + seq!['/'] + v1 + seq!['/'] + v2 + seq!['/'] + v3 + seq!['/'] + v4)
            =~= tag + seq!['('] + v1 + seq![' '] + v2 + seq![' '] + v3 + seq![' ', '/', ' '] + v4
            + seq![')'],
{
    let s = tag + seq!['/'] + v1 + seq!['/'] + v2 + seq!['/'] + v3 + seq!['/'] + v4;
    let tail = v3 + seq!['/'] + v4;
    assert(!contains_char(tail, '(') && !contains_char(tail, ')')) by {
        lemma_contains_concat(v3 + seq!['/'], v4, '(');
        lemma_contains_concat(v3, seq!['/'], '(');
        lemma_contains_concat(v3 + seq!['/'], v4, ')');
        lemma_contains_concat(v3, seq!['/'], ')');
        assert(!contains_char(seq!['/'], '(')) by {
            if contains_char(seq!['/'], '(') {
                let i = choose|i: int| 0 <= i < 1 && seq!['/'][i] == '(';
                assert(seq!['/'][i] == '/');
            }
        }
        assert(!contains_char(seq!['/'], ')')) by {
            if contains_char(seq!['/'], ')') {
                let i = choose|i: int| 0 <= i < 1 && seq!['/'][i] == ')';
                assert(seq!['/'][i] == '/');
            }
        }
        assert(v3 + seq!['/'] + v4 =~= (v3 + seq!['/']) + v4);
    }
    assert(s =~= tag + seq!['/'] + v1 + seq!['/'] + v2 + seq!['/'] + tail);
    lemma_contains_no_structural(s, tag, v1, v2, tail);
    lemma_split_concat(tag, v1 + seq!['/'] + v2 + seq!['/'] + tail, '/');
    lemma_split_concat(v1, v2 + seq!['/'] + tail, '/');
    lemma_split_concat(v2, tail, '/');
    lemma_split_concat(v3, v4, '/');
    lemma_split_no_sep(v4, '/');
    assert(s =~= tag + seq!['/'] + (v1 + seq!['/'] + v2 + seq!['/'] + tail));
    assert(v1 + seq!['/'] + v2 + seq!['/'] + tail =~= v1 + seq!['/'] + (v2 + seq!['/'] + tail));
    let parts = split_on(s, '/');
    assert(parts =~= seq![tag, v1, v2, v3, v4]);
    let vals = parts.skip(1).map_values(|v: Seq<char>| replace_pct(v));
    assert(parts.skip(1) =~= seq![v1, v2, v3, v4]);
    assert(vals =~= seq![v1, v2, v3, v4]);
    assert(parts.len() == 5);
    let sp = seq![' '];
    let first3 = vals.take(3);
    assert(first3 =~= seq![v1, v2, v3]);
    assert(first3.skip(1) =~= seq![v2, v3]);
    assert(seq![v2, v3].skip(1) =~= seq![v3]);
    assert(join_with(seq![v3], sp) == v3);
    assert(join_with(seq![v2, v3], sp) == v2 + sp + join_with(seq![v3], sp));
    assert(join_with(first3, sp) == v1 + sp + join_with(seq![v2, v3], sp));
    assert(vals[3] == v4);
    assert(normalize_spec(s) =~= tag + seq!['('] + v1 + seq![' '] + v2 + seq![' '] + v3 + seq![
        ' ',
        '/',
        ' ',
    ] + v4 + seq![')']);
}

/// The concatenation `tag/a/b/c` holds no parenthesis when its pieces hold
/// none, and it holds a slash.
proof fn lemma_contains_no_structural(
    s: Seq<char>,
    tag: Seq<char>,
    a: Seq<char>,
    b: Seq<char>,
    c: Seq<char>,
)
    requires
        s == tag + seq!['/'] + a + seq!['/'] + b + seq!['/'] + c,
        !contains_char(tag, '('),
        !contains_char(a, '('),
        !contains_char(b, '('),
        !contains_char(c, '('),
        !contains_char(tag, ')'),
        !contains_char(a, ')'),
        !contains_char(b, ')'),
        !contains_char(c, ')'),
    ensures
        !contains_char(s, '('),
        !contains_char(s, ')'),
        contains_char(s, '/'),
{
    let slash = seq!['/'];
    assert(!contains_char(slash, '(')) by {
        if contains_char(slash, '(') {
            let i = choose|i: int| 0 <= i < 1 && slash[i] == '(';
            assert(slash[i] == '/');
        }
    }
    assert(!contains_char(slash, ')')) by {
        if contains_char(slash, ')') {
            let i = choose|i: int| 0 <= i < 1 && slash[i] == ')';
            assert(slash[i] == '/');
        }
    }
    lemma_contains_concat(tag, slash, '(');
    lemma_contains_concat(tag + slash, a, '(');
    lemma_contains_concat(tag + slash + a, slash, '(');
    lemma_contains_concat(tag + slash + a + slash, b, '(');
    lemma_contains_concat(tag + slash + a + slash + b, slash, '(');
    lemma_contains_concat(tag + slash + a + slash + b + slash, c, '(');
    lemma_contains_concat(tag, slash, ')');
    lemma_contains_concat(tag + slash, a, ')');
    lemma_contains_concat(tag + slash + a, slash, ')');
    lemma_contains_concat(tag + slash + a + slash, b, ')');
    lemma_contains_concat(tag + slash + a + slash + b, slash, ')');
    lemma_contains_concat(tag + slash + a + slash + b + slash, c, ')');
    assert(s[tag.len() as int] == '/');
}

/// Text already in CSS syntax passes through the normalizer unchanged.
pub proof fn lemma_passthrough(text: Seq<char>)
    requires
        contains_char(text, '(') || contains_char(text, ')'),
    ensures
        normalize_spec(text) == text,
{
}

} // verus!
